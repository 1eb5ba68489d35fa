//! The failure that an extraction pass reports.

use vstd::prelude::*;

verus! {

/// An extraction pass failed: the page could not be fetched, the response
/// did not hold the page's text, or the snapshot could not be stored.
#[derive(Debug)]
pub struct WikiError;

/// The text of the message that a [`WikiError`] shows.
pub open spec fn wiki_error_message() -> Seq<char> {
    "Ocurred an Error during Wiki fetching"@
}

impl WikiError {
    /// The message that the error shows.
    pub fn message(&self) -> (text: &'static str)
        ensures
            text@ == wiki_error_message(),
    {
        "Ocurred an Error during Wiki fetching"
    }
}

} // verus!
