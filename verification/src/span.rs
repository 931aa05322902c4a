use vstd::prelude::*;

verus! {

/// A source location tag attached to tokens, operands and instructions for
/// diagnostics. This layer only stores and copies it; interpreting the
/// positions is the business of whoever reports errors.
#[derive(Debug, Clone, Copy, PartialEq, Eq, Structural)]
pub struct Span {
    pub start: usize,
    pub end: usize,
}

impl Span {
    pub fn new(start: usize, end: usize) -> (r: Span)
        ensures
            r.start == start,
            r.end == end,
    {
        Span { start, end }
    }
}

} // verus!
