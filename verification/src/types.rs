//! Identifiers, amounts and settings of canisters.

use vstd::prelude::*;

verus! {

/// A number of bytes.
pub type NumBytes = u64;

/// A number of executed Wasm instructions.
pub type NumInstructions = u64;

/// An amount of cycles.
pub type Cycles = u128;

/// A point in time, in nanoseconds since the Unix epoch.
pub type Time = u64;

/// The SHA-256 hash of a Wasm module.
pub type WasmHash = [u8; 32];

/// The size in bytes of one page of a page map.
pub const PAGE_SIZE: usize = 4096;

/// A principal: its bytes (at most 29 of them) behind their number, read as one
/// big-endian number of 256 bits.
#[derive(Clone, Copy, Debug, PartialEq, Eq, Structural)]
pub struct PrincipalId {
    pub high: u128,
    pub low: u128,
}

/// The principal of a canister.
#[derive(Clone, Copy, Debug, PartialEq, Eq, Structural)]
pub struct CanisterId(pub PrincipalId);

/// Whether an optional feature is on.
#[derive(Clone, Copy, Debug, PartialEq, Eq, Structural)]
pub enum FlagStatus {
    Enabled,
    Disabled,
}

/// What is asked of an `install_code` call.
#[derive(Clone, Copy, Debug, PartialEq, Eq, Structural)]
pub enum CanisterInstallMode {
    Install,
    Reinstall,
    Upgrade,
}

/// Indicates whether to keep the old stable memory or replace it with the new
/// (empty) stable memory.
#[derive(Clone, Copy, Debug, PartialEq, Eq, Structural)]
pub enum StableMemoryHandling {
    Keep,
    Replace,
}

/// The global timer of a canister.
#[derive(Clone, Copy, Debug, PartialEq, Eq, Structural)]
pub enum CanisterTimer {
    Inactive,
    Active(Time),
}

/// The memory that a canister has set aside for itself.
#[derive(Clone, Copy, Debug, PartialEq, Eq, Structural)]
pub enum MemoryAllocation {
    /// This many bytes belong to the canister, used or not.
    Reserved(NumBytes),
    /// The canister takes memory as it needs it, while there is some.
    BestEffort,
}

impl MemoryAllocation {
    /// The bytes that the allocation guarantees.
    pub open spec fn reserved(self) -> NumBytes {
        match self {
            MemoryAllocation::Reserved(bytes) => bytes,
            MemoryAllocation::BestEffort => 0,
        }
    }

    /// The bytes that the allocation guarantees, by this library's own definition: none for a
    /// best-effort one.
    pub fn bytes(&self) -> (bytes: NumBytes)
        ensures
            bytes == self.reserved(),
    {
        match self {
            MemoryAllocation::Reserved(bytes) => *bytes,
            MemoryAllocation::BestEffort => 0,
        }
    }
}

/// The share of one CPU that a canister is guaranteed, in percent.
#[derive(Clone, Copy, Debug, PartialEq, Eq, Structural)]
pub struct ComputeAllocation {
    pub percent: u64,
}

impl ComputeAllocation {
    pub fn as_percent(self) -> (percent: u64)
        ensures
            percent == self.percent,
    {
        self.percent
    }
}

/// Who changed a canister.
#[derive(Clone, Copy, Debug, PartialEq, Eq)]
pub enum CanisterChangeOrigin {
    FromUser { user_id: PrincipalId },
    FromCanister { canister_id: CanisterId, canister_version: Option<u64> },
}

/// What was changed in a canister.
#[derive(Clone, Copy, Debug, PartialEq, Eq)]
pub enum CanisterChangeDetails {
    CodeDeployment { mode: CanisterInstallMode, module_hash: WasmHash },
}

impl CanisterChangeDetails {
    /// The deployment of the module with the given hash.
    pub fn code_deployment(mode: CanisterInstallMode, module_hash: WasmHash) -> (details: Self)
        ensures
            details == (CanisterChangeDetails::CodeDeployment { mode, module_hash }),
    {
        CanisterChangeDetails::CodeDeployment { mode, module_hash }
    }
}

/// An entry of a canister's history.
#[derive(Clone, Copy, Debug, PartialEq, Eq)]
pub struct CanisterChange {
    pub timestamp_nanos: Time,
    pub canister_version: u64,
    pub origin: CanisterChangeOrigin,
    pub details: CanisterChangeDetails,
}

/// Settings that a caller asks for; `None` leaves a setting as it is.
#[derive(Clone, Debug, PartialEq, Eq)]
pub struct CanisterSettings {
    pub controller: Option<PrincipalId>,
    pub controllers: Option<Vec<PrincipalId>>,
    pub compute_allocation: Option<ComputeAllocation>,
    pub memory_allocation: Option<MemoryAllocation>,
    pub freezing_threshold: Option<u64>,
}

} // verus!
