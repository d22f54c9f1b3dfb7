//! The state of a canister, as far as code installation reads or replaces it.

use vstd::prelude::*;

use crate::errors::CanisterManagerError;
use crate::types::{
    CanisterChange, CanisterId, CanisterTimer, ComputeAllocation, Cycles, MemoryAllocation,
    NumBytes, NumInstructions, PrincipalId, WasmHash,
};

verus! {

/// A Wasm or stable memory: the number of its page map in the state store, and the
/// bytes that it is charged for.
#[derive(Clone, Copy, Debug, PartialEq, Eq)]
pub struct Memory {
    pub page_map: u64,
    pub memory_usage: NumBytes,
}

/// The values of the exported globals: their number in the state store, and the bytes
/// that they are charged for.
#[derive(Clone, Copy, Debug, PartialEq, Eq)]
pub struct Globals {
    pub values: u64,
    pub memory_usage: NumBytes,
}

/// A Wasm module, and the bytes that it is charged for.
#[derive(Clone, Copy, Debug, PartialEq, Eq)]
pub struct WasmBinary {
    pub module_hash: WasmHash,
    pub memory_usage: NumBytes,
}

/// The custom sections of a module, and the bytes that they take of the memory that the
/// subnet sets aside for custom sections.
#[derive(Clone, Copy, Debug, PartialEq, Eq)]
pub struct WasmMetadata {
    pub custom_sections: u64,
    pub memory_usage: NumBytes,
}

/// What a canister that holds code runs on.
#[derive(Clone, Copy, Debug, PartialEq, Eq)]
pub struct ExecutionState {
    pub wasm_binary: WasmBinary,
    pub wasm_memory: Memory,
    pub stable_memory: Memory,
    pub exported_globals: Globals,
    pub metadata: WasmMetadata,
}

impl ExecutionState {
    /// The bytes of the module, the two memories and the globals together. That these count,
    /// and the custom sections do not, is this library's own definition: custom sections are
    /// booked on their own.
    pub open spec fn bytes_used(self) -> int {
        self.wasm_binary.memory_usage + self.wasm_memory.memory_usage
            + self.stable_memory.memory_usage + self.exported_globals.memory_usage
    }
}

/// What the system keeps of a canister beside its code.
#[derive(Debug, PartialEq, Eq)]
pub struct SystemState {
    pub canister_id: CanisterId,
    pub controllers: Vec<PrincipalId>,
    pub canister_version: u64,
    pub global_timer: CanisterTimer,
    pub certified_data: Vec<u8>,
    pub memory_allocation: MemoryAllocation,
    pub cycles_balance: Cycles,
    /// Ingress induction costs that are still to be taken from the balance.
    pub ingress_induction_cycles_debit: Cycles,
    pub canister_history: Vec<CanisterChange>,
    /// The bytes that the system state itself is charged for.
    pub memory_usage: NumBytes,
}

/// What a `SystemState` holds.
#[verifier::ext_equal]
pub struct SystemStateView {
    pub canister_id: CanisterId,
    pub controllers: Seq<PrincipalId>,
    pub canister_version: u64,
    pub global_timer: CanisterTimer,
    pub certified_data: Seq<u8>,
    pub memory_allocation: MemoryAllocation,
    pub cycles_balance: Cycles,
    pub ingress_induction_cycles_debit: Cycles,
    pub canister_history: Seq<CanisterChange>,
    pub memory_usage: NumBytes,
}

impl View for SystemState {
    type V = SystemStateView;

    open spec fn view(&self) -> SystemStateView {
        SystemStateView {
            canister_id: self.canister_id,
            controllers: self.controllers@,
            canister_version: self.canister_version,
            global_timer: self.global_timer,
            certified_data: self.certified_data@,
            memory_allocation: self.memory_allocation,
            cycles_balance: self.cycles_balance,
            ingress_induction_cycles_debit: self.ingress_induction_cycles_debit,
            canister_history: self.canister_history@,
            memory_usage: self.memory_usage,
        }
    }
}

impl SystemStateView {
    /// The balance and the outstanding costs set aside, this is `other`.
    pub open spec fn differs_in_cycles_only(self, other: SystemStateView) -> bool {
        self == SystemStateView {
            cycles_balance: self.cycles_balance,
            ingress_induction_cycles_debit: self.ingress_induction_cycles_debit,
            ..other
        }
    }
}

impl SystemState {
    pub fn balance(&self) -> (cycles: Cycles)
        ensures
            cycles == self.cycles_balance,
    {
        self.cycles_balance
    }
}

impl Clone for SystemState {
    fn clone(&self) -> (copy: Self)
        ensures
            copy@ == self@,
    {
        SystemState {
            canister_id: self.canister_id,
            controllers: copied(&self.controllers),
            canister_version: self.canister_version,
            global_timer: self.global_timer,
            certified_data: copied(&self.certified_data),
            memory_allocation: self.memory_allocation,
            cycles_balance: self.cycles_balance,
            ingress_induction_cycles_debit: self.ingress_induction_cycles_debit,
            canister_history: copied(&self.canister_history),
            memory_usage: self.memory_usage,
        }
    }
}

/// The same items once more.
pub(crate) fn copied<T: Copy>(items: &Vec<T>) -> (copy: Vec<T>)
    ensures
        copy@ == items@,
{
    let mut copy: Vec<T> = Vec::new();
    let mut index: usize = 0;
    while index < items.len()
        invariant
            index <= items.len(),
            copy@ == items@.take(index as int),
        decreases items.len() - index,
    {
        copy.push(items[index]);
        index = index + 1;
        assert(copy@ == items@.take(index as int));
    }
    assert(items@.take(index as int) == items@);
    copy
}

/// What the scheduler keeps of a canister.
#[derive(Clone, Copy, Debug, PartialEq, Eq)]
pub struct SchedulerState {
    pub compute_allocation: ComputeAllocation,
    /// Instructions of past `install_code` calls that are not worked off yet.
    pub install_code_debit: NumInstructions,
}

/// The state of a canister.
#[derive(Debug, PartialEq, Eq)]
pub struct CanisterState {
    pub system_state: SystemState,
    /// `None` for a canister without code.
    pub execution_state: Option<ExecutionState>,
    pub scheduler_state: SchedulerState,
}

/// What a `CanisterState` holds.
#[verifier::ext_equal]
pub struct CanisterStateView {
    pub system_state: SystemStateView,
    pub execution_state: Option<ExecutionState>,
    pub scheduler_state: SchedulerState,
}

impl View for CanisterState {
    type V = CanisterStateView;

    open spec fn view(&self) -> CanisterStateView {
        CanisterStateView {
            system_state: self.system_state@,
            execution_state: self.execution_state,
            scheduler_state: self.scheduler_state,
        }
    }
}

impl Clone for CanisterState {
    fn clone(&self) -> (copy: Self)
        ensures
            copy@ == self@,
    {
        CanisterState {
            system_state: self.system_state.clone(),
            execution_state: self.execution_state,
            scheduler_state: self.scheduler_state,
        }
    }
}

impl CanisterStateView {
    /// The bytes of the system state and of the execution state, if there is one: this
    /// library's own definition of what a canister uses.
    pub open spec fn bytes_used(self) -> int {
        self.system_state.memory_usage + match self.execution_state {
            Some(execution_state) => execution_state.bytes_used(),
            None => 0,
        }
    }

    /// The canister's memory usage is a number of bytes.
    pub open spec fn is_measurable(self) -> bool {
        self.bytes_used() <= u64::MAX
    }

    /// The bytes of the custom sections of the code, if there is any.
    pub open spec fn custom_section_bytes(self) -> NumBytes {
        match self.execution_state {
            Some(execution_state) => execution_state.metadata.memory_usage,
            None => 0,
        }
    }

    /// Whether `principal` may change the canister.
    pub open spec fn is_controlled_by(self, principal: PrincipalId) -> bool {
        self.system_state.controllers.contains(principal)
    }

    /// The most memory that the canister may use, where `default_limit` bounds a
    /// canister without a reservation: this library's own definition.
    pub open spec fn limit_or(self, default_limit: NumBytes) -> NumBytes {
        match self.system_state.memory_allocation {
            MemoryAllocation::Reserved(bytes) => bytes,
            MemoryAllocation::BestEffort => default_limit,
        }
    }

    /// `result` objects to a change of the canister that `controller` asks for.
    pub open spec fn rejects_controller(
        self,
        controller: PrincipalId,
        result: Result<(), CanisterManagerError>,
    ) -> bool {
        &&& result matches Err(CanisterManagerError::CanisterInvalidController {
            canister_id,
            controllers_expected,
            controller_provided,
        })
        &&& canister_id == self.system_state.canister_id
        &&& controllers_expected@ == self.system_state.controllers
        &&& controller_provided == controller
    }
}

impl CanisterState {
    pub fn canister_id(&self) -> (canister_id: CanisterId)
        ensures
            canister_id == self.system_state.canister_id,
    {
        self.system_state.canister_id
    }

    pub fn controllers(&self) -> (controllers: &Vec<PrincipalId>)
        ensures
            *controllers == self.system_state.controllers,
    {
        &self.system_state.controllers
    }

    pub fn memory_allocation(&self) -> (memory_allocation: MemoryAllocation)
        ensures
            memory_allocation == self.system_state.memory_allocation,
    {
        self.system_state.memory_allocation
    }

    pub fn compute_allocation(&self) -> (compute_allocation: ComputeAllocation)
        ensures
            compute_allocation == self.scheduler_state.compute_allocation,
    {
        self.scheduler_state.compute_allocation
    }

    /// The memory that the canister uses, by this library's own definition: the sum of what
    /// its parts are charged for, custom sections left out.
    pub fn memory_usage(&self) -> (bytes: NumBytes)
        requires
            self@.is_measurable(),
        ensures
            bytes == self@.bytes_used(),
    {
        match &self.execution_state {
            Some(execution_state) => self.system_state.memory_usage
                + execution_state.wasm_binary.memory_usage
                + execution_state.wasm_memory.memory_usage
                + execution_state.stable_memory.memory_usage
                + execution_state.exported_globals.memory_usage,
            None => self.system_state.memory_usage,
        }
    }

    /// The most memory that the canister may use, by this library's own definition: its
    /// reservation, or `default_limit` where it has none.
    pub fn memory_limit(&self, default_limit: NumBytes) -> (bytes: NumBytes)
        ensures
            bytes == self@.limit_or(default_limit),
    {
        match self.system_state.memory_allocation {
            MemoryAllocation::Reserved(bytes) => bytes,
            MemoryAllocation::BestEffort => default_limit,
        }
    }
}

} // verus!
