use vstd::prelude::*;

verus! {

/// A contiguous range of offsets in the session-global source address space.
///
/// Spans are half-open: `lo` is the first offset covered and `hi` the first
/// offset past the end.
#[derive(Clone, Copy, Debug, PartialEq, Eq, Structural)]
pub struct Span {
    pub lo: u32,
    pub hi: u32,
}

} // verus!
