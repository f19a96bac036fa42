use vstd::prelude::*;

use crate::error::ErrorView;
use crate::outcome::{is_deadline_text, trap_class};

verus! {

/// A growth of linear memory to `desired` bytes stays under the ceiling and
/// under the memory's own declared maximum, if it has one.
pub open spec fn growth_allowed(ceiling: usize, desired: usize, maximum: Option<usize>) -> bool {
    &&& desired <= ceiling
    &&& match maximum {
        Some(max) => desired <= max,
        None => true,
    }
}

/// A table growth stays under the table's declared maximum, if it has one.
pub open spec fn table_growth_allowed(desired: u32, maximum: Option<u32>) -> bool {
    match maximum {
        Some(max) => desired <= max,
        None => true,
    }
}

/// The state of a limiter: its ceiling, and whether it has rejected a growth.
pub struct LimiterView {
    pub ceiling: usize,
    pub exceeded: bool,
}

/// Decides each linear-memory growth request of one guest against a fixed
/// ceiling, and records whether it ever had to refuse one.
pub struct MemoryLimiter {
    ceiling: usize,
    memory_limit_exceeded: bool,
}

impl View for MemoryLimiter {
    type V = LimiterView;

    closed spec fn view(&self) -> LimiterView {
        LimiterView { ceiling: self.ceiling, exceeded: self.memory_limit_exceeded }
    }
}

impl MemoryLimiter {
    /// A limiter that has refused nothing yet.
    pub fn new(ceiling: usize) -> (r: MemoryLimiter)
        ensures
            r@ == (LimiterView { ceiling, exceeded: false }),
    {
        MemoryLimiter { ceiling, memory_limit_exceeded: false }
    }

    /// Whether a growth request was ever refused.
    pub fn memory_limit_exceeded(&self) -> (r: bool)
        ensures
            r == self@.exceeded,
    {
        self.memory_limit_exceeded
    }

    /// Decides a growth request from `current` to `desired` bytes, at the
    /// moment it is made, and records a refusal.
    pub fn memory_growing(&mut self, current: usize, desired: usize, maximum: Option<usize>) -> (allowed: bool)
        ensures
            allowed == growth_allowed(old(self)@.ceiling, desired, maximum),
            final(self)@ == (LimiterView {
                ceiling: old(self)@.ceiling,
                exceeded: old(self)@.exceeded || !allowed,
            }),
    {
        let allowed = desired <= self.ceiling && match maximum {
            Some(max) => desired <= max,
            None => true,
        };
        if !allowed {
            self.memory_limit_exceeded = true;
        }
        allowed
    }

    /// Records a growth that was allowed but could not be carried out.
    pub fn memory_grow_failed(&mut self)
        ensures
            final(self)@ == (LimiterView { ceiling: old(self)@.ceiling, exceeded: true }),
    {
        self.memory_limit_exceeded = true;
    }

    /// Decides a table growth request: tables have no ceiling of their own.
    pub fn table_growing(&self, current: u32, desired: u32, maximum: Option<u32>) -> (allowed: bool)
        ensures
            allowed == table_growth_allowed(desired, maximum),
    {
        match maximum {
            Some(max) => desired <= max,
            None => true,
        }
    }
}

/// A guest whose growth above the ceiling was refused, and that then trapped
/// for any reason but the deadline, is classified out of memory.
pub proof fn lemma_refused_growth_is_out_of_memory(
    l: LimiterView,
    desired: usize,
    maximum: Option<usize>,
    trap: Seq<char>,
)
    requires
        desired > l.ceiling,
        !is_deadline_text(trap),
    ensures
        !growth_allowed(l.ceiling, desired, maximum),
        trap_class(trap, l.exceeded || !growth_allowed(l.ceiling, desired, maximum))
            == ErrorView::OutOfMemory,
{
}

/// Growth requests within the ceiling and the declared maximum are allowed
/// and leave no refusal behind, so a guest that only makes such requests and
/// returns normally is never classified out of memory.
pub proof fn lemma_growth_within_ceiling_allowed(l: LimiterView, desired: usize, maximum: Option<usize>)
    requires
        desired <= l.ceiling,
        maximum matches Some(max) ==> desired <= max,
    ensures
        growth_allowed(l.ceiling, desired, maximum),
        (l.exceeded || !growth_allowed(l.ceiling, desired, maximum)) == l.exceeded,
{
}

/// The deadline takes precedence: a guest stopped by it is classified a
/// timeout whether or not the limiter refused memory.
pub proof fn lemma_deadline_wins(trap: Seq<char>, memory_limit_exceeded: bool)
    requires
        is_deadline_text(trap),
    ensures
        trap_class(trap, memory_limit_exceeded) == ErrorView::Timeout,
{
}

} // verus!
