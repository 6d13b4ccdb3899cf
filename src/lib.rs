use vstd::prelude::*;

pub mod handler;
pub mod review;
pub mod router;
pub mod segment;
pub mod text;
pub mod tracker;

verus! {

/// The soft limit, in characters, on the text of one chunk and on the commit
/// reviews gathered into the overall request.
pub const CHAR_SOFT_LIMIT: usize = 9000;

} // verus!
