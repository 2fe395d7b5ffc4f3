//! An immutable, slash-delimited XPath-like path with operations that append,
//! remove and replace segments, attach properties and attributes, and split
//! the path back into its segments.
use vstd::prelude::*;

pub mod error;
pub mod jini;
pub mod ops;
pub mod segments;
pub mod text;

verus! {

/// A path such as `parent/child/`, held as its raw text.
///
/// Every operation returns a new value and leaves the receiver as it was.
/// Text given to `from` is taken as it stands; only the pieces that the
/// editing operations add are checked.
#[derive(Debug)]
pub struct RJini {
    pub xpath: String,
}

impl RJini {
    /// The empty path.
    pub fn empty() -> (r: RJini)
        ensures
            r.xpath@ == Seq::<char>::empty(),
    {
        RJini { xpath: String::new() }
    }
}

} // verus!
