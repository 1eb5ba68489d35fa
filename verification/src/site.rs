//! The parser settings of the wiki that is read, and the parser
//! configuration made from them.

use vstd::prelude::*;
use parse_wiki_text::{Configuration, ConfigurationSource};
use crate::text::runs_view;

verus! {

/// The names of the category namespace.
pub const CATEGORY_NAMESPACES: [&'static str; 1] = [
    "category",
];

/// The tag names that the site treats as extension tags.
pub const EXTENSION_TAGS: [&'static str; 68] = [
    "activityfeed",
    "bloglist",
    "categorytree",
    "ce",
    "charinsert",
    "chem",
    "choose",
    "comments",
    "coordinates",
    "discussions",
    "display_line",
    "display_map",
    "display_point",
    "display_points",
    "distance",
    "dpl",
    "dynamicpagelist",
    "fb:follow",
    "fb:like",
    "fb:like-box",
    "fb:page",
    "fb:share-button",
    "finddestination",
    "forum",
    "gallery",
    "geocode",
    "geodistance",
    "helper",
    "imagemap",
    "imap",
    "indicator",
    "infobox",
    "inputbox",
    "jwplayer",
    "loggedin",
    "loggedout",
    "mainpage-endcolumn",
    "mainpage-leftcolumn-start",
    "mainpage-rightcolumn-start",
    "maplib",
    "mapsdoc",
    "math",
    "metadesc",
    "mp3",
    "nowiki",
    "pageby",
    "pagetools",
    "poem",
    "poll",
    "pre",
    "randomimage",
    "ref",
    "references",
    "rhtml",
    "rss",
    "section",
    "source",
    "spotify",
    "staff",
    "syntaxhighlight",
    "tabber",
    "templatedata",
    "timeline",
    "twitter",
    "verbatim",
    "vote",
    "widget",
    "youtube",
];

/// The names of the file namespace.
pub const FILE_NAMESPACES: [&'static str; 2] = [
    "file",
    "image",
];

/// The magic words that may stand between double underscores.
pub const MAGIC_WORDS: [&'static str; 29] = [
    "APPROVEDREVS",
    "EXPECTUNUSEDCATEGORY",
    "FORCECATEGORYGALLERY",
    "FORCETOC",
    "HIDDENCAT",
    "HIDEFROMDRILLDOWN",
    "INDEX",
    "NEWSECTIONLINK",
    "NOCACHE",
    "NOCATEGORYEXHIBITION",
    "NOCATEGORYGALLERY",
    "NOCC",
    "NOCONTENTCONVERT",
    "NODEFAULTLINKS",
    "NOEDITSECTION",
    "NOFACTBOX",
    "NOGALLERY",
    "NOINDEX",
    "NONEWSECTIONLINK",
    "NOSHAREDHELP",
    "NOTC",
    "NOTITLE",
    "NOTITLECONVERT",
    "NOTOC",
    "NOWYSIWYG",
    "SHOWFACTBOX",
    "SHOWINDRILLDOWN",
    "STATICREDIRECT",
    "TOC",
];

/// The protocols that an external link may use.
pub const PROTOCOLS: [&'static str; 28] = [
    "//",
    "bitcoin:",
    "ftp://",
    "ftps://",
    "geo:",
    "git://",
    "gopher://",
    "http://",
    "https://",
    "irc://",
    "ircs://",
    "magnet:",
    "mailto:",
    "mms://",
    "news:",
    "nntp://",
    "redis://",
    "sftp://",
    "sip:",
    "sips:",
    "sms:",
    "ssh://",
    "svn://",
    "tel:",
    "telnet://",
    "urn:",
    "worldwind://",
    "xmpp:",
];

/// The magic words that mark a redirect.
pub const REDIRECT_MAGIC_WORDS: [&'static str; 1] = [
    "REDIRECT",
];

/// The characters that may continue a link behind its closing brackets.
pub const LINK_TRAIL: &'static str = "ABCDEFGHIJKLMNOPQRSTUVWXYZabcdefghijklmnopqrstuvwxyz";

/// The settings that a parser configuration is made from, as sequences of
/// texts.
pub struct SourceView {
    pub category_namespaces: Seq<Seq<char>>,
    pub extension_tags: Seq<Seq<char>>,
    pub file_namespaces: Seq<Seq<char>>,
    pub link_trail: Seq<char>,
    pub magic_words: Seq<Seq<char>>,
    pub protocols: Seq<Seq<char>>,
    pub redirect_magic_words: Seq<Seq<char>>,
}

/// The parser configuration of `parse_wiki_text`. Its tables are private to
/// that crate; here it is known by the settings it was made from.
#[verifier::external_type_specification]
#[verifier::external_body]
pub struct ExConfiguration(Configuration);

/// The settings that a configuration was made from.
pub uninterp spec fn configuration_source(configuration: Configuration) -> SourceView;

/// The settings of the wiki that is read.
pub open spec fn site_source() -> SourceView {
    SourceView {
        category_namespaces: runs_view(CATEGORY_NAMESPACES@),
        extension_tags: runs_view(EXTENSION_TAGS@),
        file_namespaces: runs_view(FILE_NAMESPACES@),
        link_trail: LINK_TRAIL@,
        magic_words: runs_view(MAGIC_WORDS@),
        protocols: runs_view(PROTOCOLS@),
        redirect_magic_words: runs_view(REDIRECT_MAGIC_WORDS@),
    }
}

/// Calls `Configuration::new` of `parse_wiki_text` on a `ConfigurationSource`
/// with the given lists. That function fills the parser's lookup tables from
/// the lists and returns; the contract records which settings the
/// configuration was made from, and claims nothing of the tables.
#[verifier::external_body]
fn new_configuration(
    category_namespaces: &[&str],
    extension_tags: &[&str],
    file_namespaces: &[&str],
    link_trail: &str,
    magic_words: &[&str],
    protocols: &[&str],
    redirect_magic_words: &[&str],
) -> (configuration: Configuration)
    ensures
        configuration_source(configuration) == (SourceView {
            category_namespaces: runs_view(category_namespaces@),
            extension_tags: runs_view(extension_tags@),
            file_namespaces: runs_view(file_namespaces@),
            link_trail: link_trail@,
            magic_words: runs_view(magic_words@),
            protocols: runs_view(protocols@),
            redirect_magic_words: runs_view(redirect_magic_words@),
        }),
{
    Configuration::new(
        &ConfigurationSource {
            category_namespaces,
            extension_tags,
            file_namespaces,
            link_trail,
            magic_words,
            protocols,
            redirect_magic_words,
        },
    )
}

/// The parser configuration for the wiki that is read.
pub fn create_configuration() -> (configuration: Configuration)
    ensures
        configuration_source(configuration) == site_source(),
{
    new_configuration(
        CATEGORY_NAMESPACES.as_slice(),
        EXTENSION_TAGS.as_slice(),
        FILE_NAMESPACES.as_slice(),
        LINK_TRAIL,
        MAGIC_WORDS.as_slice(),
        PROTOCOLS.as_slice(),
        REDIRECT_MAGIC_WORDS.as_slice(),
    )
}

} // verus!
