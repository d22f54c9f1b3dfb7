//! What surrounds the execution of `install_code`: its parameters, the limits of the
//! round, and the services of the round that it calls.

use vstd::prelude::*;

use crate::canister::{SystemState, SystemStateView};
use crate::errors::{
    CanisterManagerError, HypervisorResult, SubnetAvailableMemoryError,
};
use crate::types::{
    CanisterId, CanisterInstallMode, CanisterSettings, ComputeAllocation, Cycles, FlagStatus,
    MemoryAllocation, NumBytes, NumInstructions, PrincipalId, Time,
};

verus! {

/// How many instructions a message may still execute, and how many of them in one slice.
#[derive(Clone, Copy, Debug, PartialEq, Eq)]
pub struct InstructionLimits {
    pub message: NumInstructions,
    pub max_slice: NumInstructions,
}

impl InstructionLimits {
    /// The limits with `instructions` of the message used up. It is this library's own
    /// definition that a limit does not go below zero and that a slice is not shortened.
    pub open spec fn reduced_by(self, instructions: NumInstructions) -> Self {
        InstructionLimits {
            message: if instructions <= self.message {
                (self.message - instructions) as u64
            } else {
                0
            },
            ..self
        }
    }

    pub fn message(&self) -> (instructions: NumInstructions)
        ensures
            instructions == self.message,
    {
        self.message
    }

    /// Lowers the limit of the message by `instructions`, to zero at the least, and leaves
    /// that of the slice alone. It is this library's own definition that a limit does not go
    /// below zero.
    pub fn reduce_by(&mut self, instructions: NumInstructions)
        ensures
            *final(self) == old(self).reduced_by(instructions),
    {
        self.message = self.message.saturating_sub(instructions);
    }

    /// Sets the limit of the message. It is this library's own definition that the limit of
    /// the slice stays as it is.
    pub fn update(&mut self, instructions: NumInstructions)
        ensures
            *final(self) == (InstructionLimits { message: instructions, ..*old(self) }),
    {
        self.message = instructions;
    }
}

/// What bounds the execution of a message.
#[derive(Clone, Copy, Debug, PartialEq, Eq)]
pub struct ExecutionParameters {
    pub instruction_limits: InstructionLimits,
    pub canister_memory_limit: NumBytes,
    pub compute_allocation: ComputeAllocation,
    pub memory_allocation: MemoryAllocation,
}

/// The configuration of the canister manager.
#[derive(Clone, Copy, Debug, PartialEq, Eq)]
pub struct CanisterMgrConfig {
    pub rate_limiting_of_instructions: FlagStatus,
    /// The compute capacity of the subnet, in percent of one CPU.
    pub compute_capacity: u64,
    pub max_controllers: usize,
}

/// How many instructions of a compilation count.
#[derive(Clone, Copy, Debug, PartialEq, Eq)]
pub enum CompilationCostHandling {
    CountFullAmount,
    CountReducedAmount,
}

/// The call that asked for the installation, by its number.
#[derive(Clone, Copy, Debug, PartialEq, Eq)]
pub struct CanisterCall {
    pub id: u64,
}

/// Context variables that remain the same throughout the entire deterministic
/// time slicing execution of `install_code`.
#[derive(Clone, Debug, PartialEq, Eq)]
pub struct OriginalContext {
    pub execution_parameters: ExecutionParameters,
    pub mode: CanisterInstallMode,
    /// The path below which the state of the canister lies, as text.
    pub canister_layout_path: String,
    pub config: CanisterMgrConfig,
    pub message: CanisterCall,
    pub prepaid_execution_cycles: Cycles,
    pub time: Time,
    pub compilation_cost_handling: CompilationCostHandling,
    pub subnet_size: usize,
    pub requested_compute_allocation: Option<ComputeAllocation>,
    pub requested_memory_allocation: Option<MemoryAllocation>,
    pub sender: PrincipalId,
    pub canister_id: CanisterId,
}

/// The memory that is left on the subnet. An amount below zero is possible: it says how
/// much is taken beyond the capacity.
#[derive(Clone, Copy, Debug, PartialEq, Eq)]
pub struct SubnetAvailableMemory {
    pub execution_memory: i64,
    pub message_memory: i64,
    pub wasm_custom_sections_memory: i64,
}

/// What a round may still hand out.
#[derive(Clone, Copy, Debug, PartialEq, Eq)]
pub struct RoundLimits {
    pub subnet_available_memory: SubnetAvailableMemory,
    /// The compute allocations of all canisters of the subnet together, in percent.
    pub compute_allocation_used: u64,
}

/// What the validation of settings is asked.
#[derive(Clone, Debug, PartialEq, Eq)]
pub struct SettingsRequest {
    pub settings: CanisterSettings,
    pub canister_memory_usage: NumBytes,
    pub canister_memory_allocation: MemoryAllocation,
    pub subnet_available_memory: SubnetAvailableMemory,
    pub canister_compute_allocation: ComputeAllocation,
    pub subnet_compute_allocation_used: u64,
    pub subnet_compute_capacity: u64,
    pub max_controllers: usize,
}

/// Changes of the system state that an execution made, by their number.
#[derive(Clone, Copy, Debug, PartialEq, Eq)]
pub struct SystemStateChanges {
    pub id: u64,
}

/// The system state after an attempt to apply changes to it, and whether that succeeded.
pub type AppliedChanges = (SystemState, HypervisorResult<()>);

/// What `AppliedChanges` hold.
pub type AppliedChangesView = (SystemStateView, HypervisorResult<()>);

/// What `applied` holds.
pub open spec fn view_of_applied(applied: AppliedChanges) -> AppliedChangesView {
    (applied.0@, applied.1)
}

/// The services of the round that the steps of `install_code` call.
pub struct RoundContext<Validate, Apply> {
    /// Validates the settings that a caller asks for.
    pub validate_canister_settings: Validate,
    /// Applies the changes of an execution at the given time.
    pub apply_changes: Apply,
}

impl<
    Validate: Fn(SettingsRequest) -> Result<(), CanisterManagerError>,
    Apply: Fn(&SystemState, SystemStateChanges, Time) -> AppliedChanges,
> RoundContext<Validate, Apply> {
    /// The services answer whatever they are asked.
    pub open spec fn is_total(&self) -> bool {
        &&& forall|request: SettingsRequest| #[trigger]
            call_requires(self.validate_canister_settings, (request,))
        &&& forall|system_state: &SystemState, changes: SystemStateChanges, time: Time| #[trigger]
            call_requires(self.apply_changes, (system_state, changes, time))
    }

    /// `outcome` is an answer that the validation of settings may give to `request`.
    pub open spec fn validates(
        &self,
        request: SettingsRequest,
        outcome: Result<(), CanisterManagerError>,
    ) -> bool {
        call_ensures(self.validate_canister_settings, (request,), outcome)
    }

    /// `applied` may come of applying `changes` to `system_state` at `time`.
    pub open spec fn applies(
        &self,
        system_state: SystemStateView,
        changes: SystemStateChanges,
        time: Time,
        applied: AppliedChangesView,
    ) -> bool {
        exists|asked: SystemState, answer: AppliedChanges|
            {
                &&& asked@ == system_state
                &&& view_of_applied(answer) == applied
                &&& #[trigger] call_ensures(self.apply_changes, (&asked, changes, time), answer)
            }
    }

    /// Asked the same twice, the services answer the same, except that settings may be
    /// objected to in different words.
    pub open spec fn is_deterministic(&self) -> bool {
        &&& forall|
            request: SettingsRequest,
            one: Result<(), CanisterManagerError>,
            other: Result<(), CanisterManagerError>,
        |
            #[trigger] self.validates(request, one) && #[trigger] self.validates(request, other)
                ==> (one is Ok <==> other is Ok)
        &&& forall|
            system_state: SystemStateView,
            changes: SystemStateChanges,
            time: Time,
            one: AppliedChangesView,
            other: AppliedChangesView,
        |
            #[trigger] self.applies(system_state, changes, time, one) && #[trigger] self.applies(
                system_state,
                changes,
                time,
                other,
            ) ==> one == other
    }
}

/// The accounts of the round, in which a finished `install_code` is settled.
pub struct RoundAccounts<Increment, TryDecrement, Debit, Refund> {
    /// Gives execution, message and custom-section bytes back to the subnet.
    pub increment: Increment,
    /// Takes execution, message and custom-section bytes from the subnet, all or none.
    pub try_decrement: TryDecrement,
    /// Takes the outstanding ingress induction costs from the balance of a canister.
    pub apply_ingress_induction_cycles_debit: Debit,
    /// Pays back the cycles of instructions that were not executed: the arguments are the
    /// instructions left, the limit of the message, the prepaid cycles and the size of the
    /// subnet.
    pub refund_unused_execution_cycles: Refund,
}

impl<
    Increment: Fn(SubnetAvailableMemory, NumBytes, NumBytes, NumBytes) -> SubnetAvailableMemory,
    TryDecrement: Fn(SubnetAvailableMemory, NumBytes, NumBytes, NumBytes) -> Result<
        SubnetAvailableMemory,
        SubnetAvailableMemoryError,
    >,
    Debit: Fn(&SystemState, CanisterId) -> SystemState,
    Refund: Fn(&SystemState, NumInstructions, NumInstructions, Cycles, usize) -> SystemState,
> RoundAccounts<Increment, TryDecrement, Debit, Refund> {
    /// The accounts answer whatever they are asked.
    pub open spec fn is_total(&self) -> bool {
        &&& forall|memory: SubnetAvailableMemory, a: NumBytes, b: NumBytes, c: NumBytes| #[trigger]
            call_requires(self.increment, (memory, a, b, c))
        &&& forall|memory: SubnetAvailableMemory, a: NumBytes, b: NumBytes, c: NumBytes| #[trigger]
            call_requires(self.try_decrement, (memory, a, b, c))
        &&& forall|system_state: &SystemState, canister_id: CanisterId| #[trigger]
            call_requires(self.apply_ingress_induction_cycles_debit, (system_state, canister_id))
        &&& forall|
            system_state: &SystemState,
            left: NumInstructions,
            limit: NumInstructions,
            prepaid: Cycles,
            subnet_size: usize,
        | #[trigger]
            call_requires(
                self.refund_unused_execution_cycles,
                (system_state, left, limit, prepaid, subnet_size),
            )
    }

    /// `grown` may come of giving the bytes back to `memory`.
    pub open spec fn increments(
        &self,
        memory: SubnetAvailableMemory,
        execution: NumBytes,
        messages: NumBytes,
        wasm_custom_sections: NumBytes,
        grown: SubnetAvailableMemory,
    ) -> bool {
        call_ensures(self.increment, (memory, execution, messages, wasm_custom_sections), grown)
    }

    /// `outcome` may come of the attempt to take the bytes from `memory`.
    pub open spec fn decrements(
        &self,
        memory: SubnetAvailableMemory,
        execution: NumBytes,
        messages: NumBytes,
        wasm_custom_sections: NumBytes,
        outcome: Result<SubnetAvailableMemory, SubnetAvailableMemoryError>,
    ) -> bool {
        call_ensures(
            self.try_decrement,
            (memory, execution, messages, wasm_custom_sections),
            outcome,
        )
    }

    /// `debited` may come of taking the outstanding costs from `system_state`.
    pub open spec fn debits(
        &self,
        system_state: SystemStateView,
        canister_id: CanisterId,
        debited: SystemStateView,
    ) -> bool {
        exists|asked: SystemState, answer: SystemState|
            {
                &&& asked@ == system_state
                &&& answer@ == debited
                &&& #[trigger] call_ensures(
                    self.apply_ingress_induction_cycles_debit,
                    (&asked, canister_id),
                    answer,
                )
            }
    }

    /// `refunded` may come of the refund to `system_state`.
    pub open spec fn refunds(
        &self,
        system_state: SystemStateView,
        left: NumInstructions,
        limit: NumInstructions,
        prepaid: Cycles,
        subnet_size: usize,
        refunded: SystemStateView,
    ) -> bool {
        exists|asked: SystemState, answer: SystemState|
            {
                &&& asked@ == system_state
                &&& answer@ == refunded
                &&& #[trigger] call_ensures(
                    self.refund_unused_execution_cycles,
                    (&asked, left, limit, prepaid, subnet_size),
                    answer,
                )
            }
    }

    /// The accounts that settle cycles touch nothing of a canister but its balance and its
    /// outstanding ingress induction costs.
    pub open spec fn touch_only_cycles(&self) -> bool {
        &&& forall|system_state: SystemStateView, canister_id: CanisterId, debited: SystemStateView|
            #[trigger]
            self.debits(system_state, canister_id, debited) ==> debited.differs_in_cycles_only(
                system_state,
            )
        &&& forall|
            system_state: SystemStateView,
            left: NumInstructions,
            limit: NumInstructions,
            prepaid: Cycles,
            subnet_size: usize,
            refunded: SystemStateView,
        | #[trigger]
            self.refunds(system_state, left, limit, prepaid, subnet_size, refunded)
                ==> refunded.differs_in_cycles_only(system_state)
    }

    /// The memory accounts give back and take what they are asked to, as far as the sums can
    /// be told.
    pub open spec fn count_memory_exactly(&self) -> bool {
        &&& forall|
            memory: SubnetAvailableMemory,
            execution: NumBytes,
            messages: NumBytes,
            wasm_custom_sections: NumBytes,
            grown: SubnetAvailableMemory,
        |
            {
                &&& #[trigger] self.increments(
                    memory,
                    execution,
                    messages,
                    wasm_custom_sections,
                    grown,
                )
                &&& memory.execution_memory + execution <= i64::MAX
                &&& memory.message_memory + messages <= i64::MAX
                &&& memory.wasm_custom_sections_memory + wasm_custom_sections <= i64::MAX
            } ==> {
                &&& grown.execution_memory == memory.execution_memory + execution
                &&& grown.message_memory == memory.message_memory + messages
                &&& grown.wasm_custom_sections_memory == memory.wasm_custom_sections_memory
                    + wasm_custom_sections
            }
        &&& forall|
            memory: SubnetAvailableMemory,
            execution: NumBytes,
            messages: NumBytes,
            wasm_custom_sections: NumBytes,
            left: SubnetAvailableMemory,
        | #[trigger]
            self.decrements(memory, execution, messages, wasm_custom_sections, Ok(left)) ==> {
                &&& left.execution_memory == memory.execution_memory - execution
                &&& left.message_memory == memory.message_memory - messages
                &&& left.wasm_custom_sections_memory == memory.wasm_custom_sections_memory
                    - wasm_custom_sections
            }
    }

    /// A refund leaves the outstanding ingress induction costs as they are.
    pub open spec fn refund_no_outstanding_costs(&self) -> bool {
        forall|
            system_state: SystemStateView,
            left: NumInstructions,
            limit: NumInstructions,
            prepaid: Cycles,
            subnet_size: usize,
            refunded: SystemStateView,
        | #[trigger]
            self.refunds(system_state, left, limit, prepaid, subnet_size, refunded)
                ==> refunded.ingress_induction_cycles_debit
                == system_state.ingress_induction_cycles_debit
    }
}

} // verus!
