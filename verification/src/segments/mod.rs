//! The segments that this crate contributes to the status line. Each one
//! turns what the engine resolved into at most one labelled value.

use vstd::prelude::*;

pub mod balance;
pub mod branding;
pub mod group;

verus! {

/// Names the segment that a value belongs to.
#[derive(Clone, Copy, Debug, PartialEq, Eq, Hash)]
pub enum SegmentId {
    Balance,
    Branding,
    Group,
}

/// What a segment hands to the renderer.
#[derive(Clone, Debug, PartialEq, Eq)]
pub struct SegmentData {
    pub primary: String,
    pub secondary: String,
    /// Further named values, each name at most once.
    pub metadata: Vec<(String, String)>,
}

impl SegmentData {
    /// The value is `text` and nothing else: no secondary text, no metadata.
    pub open spec fn is_plain(self, text: Seq<char>) -> bool {
        &&& self.primary@ == text
        &&& self.secondary@ == Seq::<char>::empty()
        &&& self.metadata@ == Seq::<(String, String)>::empty()
    }

    /// A value that consists of its primary text alone.
    pub fn plain(primary: String) -> (data: Self)
        ensures
            data.is_plain(primary@),
            data.primary == primary,
    {
        SegmentData { primary, secondary: String::new(), metadata: Vec::new() }
    }
}

} // verus!
