//! Errors of code installation.

use vstd::prelude::*;

use crate::types::{
    CanisterId, ComputeAllocation, MemoryAllocation, NumBytes, NumInstructions, PrincipalId,
};

verus! {

/// Why the hypervisor could not run a Wasm module or apply what it did.
#[derive(Clone, Copy, Debug, PartialEq, Eq)]
pub enum HypervisorError {
    /// The execution ran past the end of its slice.
    SliceOverrun { instructions: NumInstructions, limit: NumInstructions },
    OutOfMemory,
    /// A failure inside the Wasm engine, by the number under which it was reported.
    WasmEngineError(u64),
    /// Any other failure, by the number under which it was reported.
    Other(u64),
}

pub type HypervisorResult<T> = Result<T, HypervisorError>;

/// Why the memory of the subnet does not suffice.
#[derive(Clone, Copy, Debug, PartialEq, Eq)]
pub enum SubnetAvailableMemoryError {
    InsufficientMemory {
        execution_requested: NumBytes,
        message_requested: NumBytes,
        wasm_custom_sections_requested: NumBytes,
        available_execution: i64,
        available_messages: i64,
        available_wasm_custom_sections: i64,
    },
}

/// Why a canister could not be changed as requested.
#[derive(Clone, Debug, PartialEq, Eq)]
pub enum CanisterManagerError {
    CanisterInvalidController {
        canister_id: CanisterId,
        controllers_expected: Vec<PrincipalId>,
        controller_provided: PrincipalId,
    },
    CanisterNonEmpty(CanisterId),
    InstallCodeRateLimited(CanisterId),
    NotEnoughMemoryAllocationGiven {
        memory_allocation_given: MemoryAllocation,
        memory_usage_needed: NumBytes,
    },
    SubnetMemoryCapacityOverSubscribed { requested: NumBytes, available: NumBytes },
    SubnetWasmCustomSectionCapacityOverSubscribed { requested: NumBytes, available: NumBytes },
    SubnetComputeCapacityOverSubscribed { requested: ComputeAllocation, available: u64 },
    Hypervisor(CanisterId, HypervisorError),
    /// A rejection of the requested settings that has no variant of its own, by the
    /// number under which it was reported.
    InvalidSettings(u64),
}

} // verus!
