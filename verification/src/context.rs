//! The externally owned, read-only context that struct-level rules may
//! consult. The engine never stores it beyond a validation call.

use vstd::prelude::*;

verus! {

/// Counters owned by the caller (for instance, database occupancy) that a
/// capacity rule reads. The engine treats the context as read-only.
#[derive(Debug, Clone, Copy, PartialEq, Eq, Structural)]
pub struct DatabaseContex {
    pub total: i32,
    pub max_data: i32,
}

/// The mathematical shape of a context: its counters as unbounded integers.
#[verifier::ext_equal]
pub struct ContextView {
    pub total: int,
    pub max_data: int,
}

impl View for DatabaseContex {
    type V = ContextView;

    open spec fn view(&self) -> ContextView {
        ContextView { total: self.total as int, max_data: self.max_data as int }
    }
}

impl DatabaseContex {
    /// Builds a context from its counters.
    pub fn new(total: i32, max_data: i32) -> (r: DatabaseContex)
        ensures
            r@ == (ContextView { total: total as int, max_data: max_data as int }),
    {
        DatabaseContex { total, max_data }
    }

    /// True when the context still has room: the capacity rule passes.
    pub fn has_capacity(&self) -> (r: bool)
        ensures
            r == (self@.total < self@.max_data),
    {
        self.total < self.max_data
    }
}

} // verus!
