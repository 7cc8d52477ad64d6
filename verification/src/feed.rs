//! The feed: what is known of each game before anything is downloaded.

use vstd::prelude::*;

verus! {

/// One entry of the feed: the two lines of text of a game and where its two
/// pictures are to be had.
#[derive(Clone, Debug, PartialEq, Eq)]
pub struct Record {
    pub headline: String,
    pub subhead: String,
    pub large: String,
    pub small: String,
}

impl Record {
    /// One of the two locators is empty, so a picture could never be asked for.
    pub open spec fn lacks_locator(self) -> bool {
        self.large@.len() == 0 || self.small@.len() == 0
    }
}

/// Why a feed cannot be made into a schedule.
#[derive(Clone, Copy, Debug, PartialEq, Eq, Structural)]
pub enum FeedError {
    /// The feed has no entries.
    Empty,
    /// The entry at this position, the first such, lacks a locator.
    MissingLocator(usize),
}

/// `at` is the first entry of `records` that lacks a locator.
pub open spec fn is_first_gap(records: Seq<Record>, at: int) -> bool {
    &&& 0 <= at < records.len()
    &&& records[at].lacks_locator()
    &&& forall|j: int| 0 <= j < at ==> !(#[trigger] records[j]).lacks_locator()
}

/// No entry of `records` lacks a locator.
pub open spec fn is_whole(records: Seq<Record>) -> bool {
    forall|j: int| 0 <= j < records.len() ==> !(#[trigger] records[j]).lacks_locator()
}

/// Position of the first entry that lacks a locator, if there is one.
pub fn first_gap(records: &Vec<Record>) -> (gap: Option<usize>)
    ensures
        match gap {
            Some(at) => is_first_gap(records@, at as int),
            None => is_whole(records@),
        },
{
    let mut index: usize = 0;
    while index < records.len()
        invariant
            index <= records.len(),
            forall|j: int| 0 <= j < index ==> !(#[trigger] records[j]).lacks_locator(),
        decreases records.len() - index,
    {
        let record = &records[index];
        if record.large.as_str().is_empty() || record.small.as_str().is_empty() {
            return Some(index);
        }
        index += 1;
    }
    None
}

} // verus!
