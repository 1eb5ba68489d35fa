//! The resource abstraction: what every table-backed resource offers, and
//! the decision whether a fresh snapshot is worth a notification.

use vstd::prelude::*;
use crate::markup::{Markup, WikiNode, nodes_view};

verus! {

/// A resource that is extracted from a wiki page and compared with its
/// previous snapshot. The model of a resource is its view; each operation is
/// a function of the models of its arguments, which the implementing type
/// states through the four spec functions.
pub trait WikiResource: Sized + View + Clone {
    /// The snapshot that a document holds.
    spec fn extracted(nodes: Seq<Markup>) -> Self::V;

    /// The title under which the resource is fetched and stored.
    spec fn title() -> Seq<char>;

    /// What `current` holds that `previous` does not.
    spec fn added(current: Self::V, previous: Self::V) -> Self::V;

    /// Whether a snapshot holds nothing.
    spec fn is_empty(snapshot: Self::V) -> bool;

    /// A clone of a resource has the model of the resource.
    proof fn lemma_clone_keeps_view(resource: Self, copy: Self)
        requires
            call_ensures(Self::clone, (&resource,), copy),
        ensures
            copy@ == resource@,
    ;

    /// Extracts the resource from the top-level nodes of a document.
    fn from(nodes: &Vec<WikiNode>) -> (resource: Self)
        ensures
            resource@ == Self::extracted(nodes_view(nodes@)),
    ;

    /// The title under which the resource is fetched and stored.
    fn get_title() -> (title: &'static str)
        ensures
            title@ == Self::title(),
    ;

    /// What this snapshot holds that `other` does not.
    fn difference(&self, other: &Self) -> (added: Self)
        ensures
            added@ == Self::added(self@, other@),
    ;

    /// Whether this snapshot holds nothing.
    fn empty(&self) -> (empty: bool)
        ensures
            empty == Self::is_empty(self@),
    ;
}

/// The model of an optional resource.
pub open spec fn optional_view<T: View>(resource: Option<T>) -> Option<T::V> {
    match resource {
        Some(snapshot) => Some(snapshot@),
        None => None,
    }
}

/// What a pass over `current` after `previous` has to report: the difference
/// of the current snapshot against the previous one, or all of the current
/// snapshot where there is no previous one; and nothing where that is empty.
pub open spec fn news_of<T: WikiResource>(previous: Option<T::V>, current: T::V) -> Option<T::V> {
    let difference = match previous {
        Some(before) => T::added(current, before),
        None => current,
    };
    if T::is_empty(difference) {
        None
    } else {
        Some(difference)
    }
}

/// Decides what an extraction pass reports. The result is the snapshot to
/// hand to the notification sink, and `None` where no notification is due.
pub fn wiki_resource_change<T: WikiResource>(previous: Option<T>, current: &T) -> (news: Option<T>)
    ensures
        optional_view(news) == news_of::<T>(optional_view(previous), current@),
{
    let difference = match previous {
        Some(before) => current.difference(&before),
        None => {
            let copy = current.clone();
            proof {
                T::lemma_clone_keeps_view(*current, copy);
            }
            copy
        },
    };
    if difference.empty() {
        None
    } else {
        Some(difference)
    }
}

} // verus!
