//! Plain forms of the column values that are not strings, integers or flags.
use vstd::prelude::*;

verus! {

/// A point in time, as whole seconds since the Unix epoch (UTC) and the
/// nanoseconds past that second.
#[derive(Clone, Copy, Debug, PartialEq, Eq, Structural)]
pub struct Timestamp {
    pub seconds: i64,
    pub nanos: u32,
}

/// One end of an integer range: included, excluded or absent.
#[derive(Clone, Copy, Debug, PartialEq, Eq, Structural)]
pub enum RangeBound {
    Included(i32),
    Excluded(i32),
    Unbounded,
}

/// An integer range, by its lower and upper end.
#[derive(Clone, Copy, Debug, PartialEq, Eq, Structural)]
pub struct HoursRange {
    pub lower: RangeBound,
    pub upper: RangeBound,
}

/// A copy of an optional text.
pub(crate) fn copy_text(t: &Option<String>) -> (r: Option<String>)
    ensures
        r == *t,
{
    match t {
        Some(s) => Some(s.clone()),
        None => None,
    }
}

} // verus!
