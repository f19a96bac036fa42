use vstd::prelude::*;

verus! {

/// One kibibyte.
pub const KIB: u64 = 1024;

/// One megabyte.
pub const MB: u64 = 1000000;

/// Linear memory that a freshly compiled guest asks for at start: seventeen
/// pages of 64 KiB.
pub const WASM_MINIMUM_MEMORY_SIZE: u64 = KIB * 64 * 17;

/// The guest's linear-memory ceiling: its start-up memory plus 100 MB.
pub const WASM_INSTANCE_MEMORY_LIMIT: u64 = WASM_MINIMUM_MEMORY_SIZE + MB * 100;

/// Ticks of the deadline clock before a running guest is interrupted.
pub const TICKS_BEFORE_TIMEOUT: u64 = 5;

/// Milliseconds between two ticks of the deadline clock.
pub const TICK_INTERVAL_MILLIS: u64 = 1000;

/// The fixed configuration of one execution.
pub struct SandboxLimits {
    pub memory_ceiling_bytes: usize,
    pub tick_interval_millis: u64,
    pub ticks_before_timeout: u64,
}

impl SandboxLimits {
    /// The limits every execution runs under.
    pub fn standard() -> (r: SandboxLimits)
        ensures
            r.memory_ceiling_bytes == WASM_INSTANCE_MEMORY_LIMIT,
            r.tick_interval_millis == TICK_INTERVAL_MILLIS,
            r.ticks_before_timeout == TICKS_BEFORE_TIMEOUT,
    {
        SandboxLimits {
            memory_ceiling_bytes: WASM_INSTANCE_MEMORY_LIMIT as usize,
            tick_interval_millis: TICK_INTERVAL_MILLIS,
            ticks_before_timeout: TICKS_BEFORE_TIMEOUT,
        }
    }
}

} // verus!
