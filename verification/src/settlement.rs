//! How a finished `install_code` is settled with the limits and accounts of the round.

use vstd::prelude::*;

use crate::canister::{
    CanisterState, CanisterStateView, SchedulerState, SystemState, SystemStateView,
};
use crate::context::{
    CanisterCall, CanisterMgrConfig, OriginalContext, RoundAccounts, RoundLimits,
    SubnetAvailableMemory,
};
use crate::errors::{CanisterManagerError, SubnetAvailableMemoryError};
use crate::install_model::InstallCodeState;
use crate::types::{
    CanisterId, ComputeAllocation, Cycles, FlagStatus, NumBytes, NumInstructions, WasmHash,
};

verus! {

/// What a successful `install_code` reports.
#[derive(Clone, Copy, Debug, PartialEq, Eq)]
pub struct InstallCodeResult {
    pub heap_delta: NumBytes,
    pub old_wasm_hash: Option<WasmHash>,
    pub new_wasm_hash: Option<WasmHash>,
}

/// What comes of an `install_code` execution.
#[derive(Debug, PartialEq, Eq)]
pub enum DtsInstallCodeResult {
    /// The execution has finished, and this is what it leaves.
    Finished {
        canister: CanisterState,
        message: CanisterCall,
        instructions_used: NumInstructions,
        result: Result<InstallCodeResult, CanisterManagerError>,
    },
}

impl DtsInstallCodeResult {
    /// The execution has finished and leaves this.
    pub open spec fn leaves(
        self,
        canister: CanisterStateView,
        message: CanisterCall,
        instructions_used: int,
        result: Result<InstallCodeResult, CanisterManagerError>,
    ) -> bool {
        match self {
            DtsInstallCodeResult::Finished {
                canister: left,
                message: answered,
                instructions_used: used,
                result: reported,
            } => {
                &&& left@ == canister
                &&& answered == message
                &&& used == instructions_used
                &&& reported == result
            },
        }
    }
}

// Memory.

/// An amount of bytes that may be below zero, cut off there.
pub open spec fn bytes_or_zero(amount: i64) -> NumBytes {
    if amount > 0 {
        amount as u64
    } else {
        0
    }
}

/// The error of an `install_code` for which the memory of the subnet does not suffice: the
/// custom sections are to blame if they do not fit, and the execution memory otherwise.
pub open spec fn memory_rejection(error: SubnetAvailableMemoryError) -> CanisterManagerError {
    match error {
        SubnetAvailableMemoryError::InsufficientMemory {
            execution_requested,
            message_requested: _,
            wasm_custom_sections_requested,
            available_execution,
            available_messages: _,
            available_wasm_custom_sections,
        } => if wasm_custom_sections_requested > available_wasm_custom_sections {
            CanisterManagerError::SubnetWasmCustomSectionCapacityOverSubscribed {
                requested: wasm_custom_sections_requested,
                available: bytes_or_zero(available_wasm_custom_sections),
            }
        } else {
            CanisterManagerError::SubnetMemoryCapacityOverSubscribed {
                requested: execution_requested,
                available: bytes_or_zero(available_execution),
            }
        },
    }
}

/// The error of an `install_code` for which the memory of the subnet does not suffice.
pub fn reject_memory(error: SubnetAvailableMemoryError) -> (rejection: CanisterManagerError)
    ensures
        rejection == memory_rejection(error),
{
    match error {
        SubnetAvailableMemoryError::InsufficientMemory {
            execution_requested,
            message_requested: _,
            wasm_custom_sections_requested,
            available_execution,
            available_messages: _,
            available_wasm_custom_sections,
        } => {
            if wasm_custom_sections_requested as i128 > available_wasm_custom_sections as i128 {
                CanisterManagerError::SubnetWasmCustomSectionCapacityOverSubscribed {
                    requested: wasm_custom_sections_requested,
                    available: cut_off(available_wasm_custom_sections),
                }
            } else {
                CanisterManagerError::SubnetMemoryCapacityOverSubscribed {
                    requested: execution_requested,
                    available: cut_off(available_execution),
                }
            }
        },
    }
}

fn cut_off(amount: i64) -> (bytes: NumBytes)
    ensures
        bytes == bytes_or_zero(amount),
{
    if amount > 0 {
        amount as u64
    } else {
        0
    }
}

// Compute.

/// The compute allocations of the other canisters of the subnet.
pub open spec fn used_by_others(compute_allocation_used: u64, own: ComputeAllocation) -> int {
    if compute_allocation_used > own.percent {
        compute_allocation_used - own.percent
    } else {
        0
    }
}

/// What a canister can be given of the compute capacity. One percent stays free.
pub open spec fn compute_available(compute_capacity: u64, others: int) -> int {
    if compute_capacity > others + 1 {
        compute_capacity - (others + 1)
    } else {
        0
    }
}

/// The compute allocations of the subnet after those of one canister went from `old_own` to
/// `new_own`, or the error if there is not enough left for it to grow. To stay or to shrink
/// is always possible.
pub open spec fn settled_compute(
    old_own: ComputeAllocation,
    new_own: ComputeAllocation,
    compute_allocation_used: u64,
    compute_capacity: u64,
) -> Result<u64, CanisterManagerError> {
    let others = used_by_others(compute_allocation_used, old_own);
    let available = compute_available(compute_capacity, others);
    if new_own.percent > old_own.percent && new_own.percent > available {
        Err(
            CanisterManagerError::SubnetComputeCapacityOverSubscribed {
                requested: new_own,
                available: if available > old_own.percent {
                    available as u64
                } else {
                    old_own.percent
                },
            },
        )
    } else {
        Ok((others + new_own.percent) as u64)
    }
}

/// Accounts for a change of one canister's compute allocation from `old_own` to `new_own`.
pub fn settle_compute(
    old_own: ComputeAllocation,
    new_own: ComputeAllocation,
    compute_allocation_used: u64,
    compute_capacity: u64,
) -> (used: Result<u64, CanisterManagerError>)
    requires
        new_own.percent > old_own.percent ==> used_by_others(compute_allocation_used, old_own)
            < u64::MAX,
    ensures
        used == settled_compute(old_own, new_own, compute_allocation_used, compute_capacity),
        used matches Ok(percent) ==> percent == used_by_others(compute_allocation_used, old_own)
            + new_own.percent,
{
    let others: u64 = compute_allocation_used.saturating_sub(old_own.as_percent());
    if new_own.as_percent() > old_own.as_percent() {
        let available: u64 = compute_capacity.saturating_sub(others + 1);
        if new_own.as_percent() > available {
            let at_hand: u64 = if available > old_own.as_percent() {
                available
            } else {
                old_own.as_percent()
            };
            return Err(
                CanisterManagerError::SubnetComputeCapacityOverSubscribed {
                    requested: new_own,
                    available: at_hand,
                },
            );
        }
    }
    Ok(others + new_own.as_percent())
}

// Both together.

/// The limits of the round after the installation turned `clean_canister` into `canister`
/// and `memory` came of taking its memory, or the error that it ends with.
pub open spec fn settled(
    clean_canister: CanisterStateView,
    canister: CanisterStateView,
    config: CanisterMgrConfig,
    round_limits: RoundLimits,
    memory: Result<SubnetAvailableMemory, SubnetAvailableMemoryError>,
) -> Result<RoundLimits, CanisterManagerError> {
    match memory {
        Err(error) => Err(memory_rejection(error)),
        Ok(subnet_available_memory) => match settled_compute(
            clean_canister.scheduler_state.compute_allocation,
            canister.scheduler_state.compute_allocation,
            round_limits.compute_allocation_used,
            config.compute_capacity,
        ) {
            Err(error) => Err(error),
            Ok(compute_allocation_used) => Ok(
                RoundLimits { subnet_available_memory, compute_allocation_used },
            ),
        },
    }
}

/// The percentages in the settlement are numbers that can be added up.
pub open spec fn can_settle(
    clean_canister: CanisterStateView,
    canister: CanisterStateView,
    round_limits: RoundLimits,
    memory: Result<SubnetAvailableMemory, SubnetAvailableMemoryError>,
) -> bool {
    memory is Ok && canister.scheduler_state.compute_allocation.percent
        > clean_canister.scheduler_state.compute_allocation.percent ==> used_by_others(
        round_limits.compute_allocation_used,
        clean_canister.scheduler_state.compute_allocation,
    ) < u64::MAX
}

/// Finds the limits of the round after an installation that turned `clean_canister` into
/// `canister`, where `memory` came of taking its memory from the subnet.
pub fn settle(
    clean_canister: &CanisterState,
    canister: &CanisterState,
    config: &CanisterMgrConfig,
    round_limits: &RoundLimits,
    memory: Result<SubnetAvailableMemory, SubnetAvailableMemoryError>,
) -> (limits: Result<RoundLimits, CanisterManagerError>)
    requires
        can_settle(clean_canister@, canister@, *round_limits, memory),
    ensures
        limits == settled(clean_canister@, canister@, *config, *round_limits, memory),
{
    let subnet_available_memory = match memory {
        Ok(subnet_available_memory) => subnet_available_memory,
        Err(error) => {
            return Err(reject_memory(error));
        },
    };
    match settle_compute(
        clean_canister.compute_allocation(),
        canister.compute_allocation(),
        round_limits.compute_allocation_used,
        config.compute_capacity,
    ) {
        Ok(compute_allocation_used) => Ok(
            RoundLimits { subnet_available_memory, compute_allocation_used },
        ),
        Err(error) => Err(error),
    }
}

// Instructions.

/// The instructions that were executed of a message with the given limit.
pub open spec fn instructions_used(limit: NumInstructions, left: NumInstructions) -> int {
    if limit > left {
        limit - left
    } else {
        0
    }
}

/// The scheduler's state with `instructions` added to the debit of the canister, if
/// installations are rate limited.
pub open spec fn indebted(
    scheduler_state: SchedulerState,
    config: CanisterMgrConfig,
    instructions: int,
) -> SchedulerState {
    if config.rate_limiting_of_instructions == FlagStatus::Enabled {
        SchedulerState {
            install_code_debit: (scheduler_state.install_code_debit + instructions) as u64,
            ..scheduler_state
        }
    } else {
        scheduler_state
    }
}

/// The debit of the canister can hold `instructions` more, if they are added to it at all.
pub open spec fn can_be_indebted(
    scheduler_state: SchedulerState,
    config: CanisterMgrConfig,
    instructions: int,
) -> bool {
    config.rate_limiting_of_instructions == FlagStatus::Enabled ==> 0 <= instructions
        && scheduler_state.install_code_debit + instructions <= u64::MAX
}

/// The hash of the canister's module, if it has one.
pub open spec fn module_hash(canister: CanisterStateView) -> Option<WasmHash> {
    match canister.execution_state {
        Some(execution_state) => Some(execution_state.wasm_binary.module_hash),
        None => None,
    }
}

impl<
    Increment: Fn(SubnetAvailableMemory, NumBytes, NumBytes, NumBytes) -> SubnetAvailableMemory,
    TryDecrement: Fn(SubnetAvailableMemory, NumBytes, NumBytes, NumBytes) -> Result<
        SubnetAvailableMemory,
        SubnetAvailableMemoryError,
    >,
    Debit: Fn(&SystemState, CanisterId) -> SystemState,
    Refund: Fn(&SystemState, NumInstructions, NumInstructions, Cycles, usize) -> SystemState,
> RoundAccounts<Increment, TryDecrement, Debit, Refund> {
    /// `memory` may come of giving what `state` deallocated back to the subnet and of the
    /// attempt to take what it allocated.
    pub open spec fn may_take_memory(
        &self,
        state: InstallCodeState,
        round_limits: RoundLimits,
        memory: Result<SubnetAvailableMemory, SubnetAvailableMemoryError>,
    ) -> bool {
        exists|grown: SubnetAvailableMemory|
            {
                &&& #[trigger] self.increments(
                    round_limits.subnet_available_memory,
                    state.deallocated_bytes,
                    0,
                    state.deallocated_wasm_custom_sections_bytes,
                    grown,
                )
                &&& self.decrements(
                    grown,
                    state.allocated_bytes,
                    state.allocated_message_bytes,
                    state.allocated_wasm_custom_sections_bytes,
                    memory,
                )
            }
    }

    /// `system_state` may turn into `settled` by taking the outstanding costs of the canister
    /// and refunding what its message did not use.
    pub open spec fn may_settle_cycles(
        &self,
        system_state: SystemStateView,
        instructions_left: NumInstructions,
        original: OriginalContext,
        settled: SystemStateView,
    ) -> bool {
        exists|debited: SystemStateView|
            {
                &&& #[trigger] self.debits(system_state, system_state.canister_id, debited)
                &&& self.refunds(
                    debited,
                    instructions_left,
                    original.execution_parameters.instruction_limits.message,
                    original.prepaid_execution_cycles,
                    original.subnet_size,
                    settled,
                )
            }
    }

    /// An execution that ends with `error` may finish with `outcome`: of the clean canister
    /// nothing changes but for the refund of what its message did not use.
    pub open spec fn may_finish_early(
        &self,
        clean_canister: CanisterStateView,
        instructions_left: NumInstructions,
        original: OriginalContext,
        error: CanisterManagerError,
        outcome: DtsInstallCodeResult,
    ) -> bool {
        exists|system_state: SystemStateView|
            {
                &&& #[trigger] self.refunds(
                    clean_canister.system_state,
                    instructions_left,
                    original.execution_parameters.instruction_limits.message,
                    original.prepaid_execution_cycles,
                    original.subnet_size,
                    system_state,
                )
                &&& outcome.leaves(
                    CanisterStateView { system_state, ..clean_canister },
                    original.message,
                    instructions_used(
                        original.execution_parameters.instruction_limits.message,
                        instructions_left,
                    ),
                    Err(error),
                )
            }
    }

    /// An execution that is past all checks may finish with `outcome`.
    pub open spec fn may_finish_well(
        &self,
        state: InstallCodeState,
        clean_canister: CanisterStateView,
        original: OriginalContext,
        outcome: DtsInstallCodeResult,
    ) -> bool {
        exists|system_state: SystemStateView|
            {
                &&& #[trigger] self.may_settle_cycles(
                    state.canister.system_state,
                    state.instructions_left(),
                    original,
                    system_state,
                )
                &&& outcome.leaves(
                    CanisterStateView {
                        system_state,
                        scheduler_state: indebted(
                            state.canister.scheduler_state,
                            original.config,
                            state.message_instruction_limit - state.instructions_left(),
                        ),
                        ..state.canister
                    },
                    original.message,
                    instructions_used(
                        original.execution_parameters.instruction_limits.message,
                        state.instructions_left(),
                    ),
                    Ok(
                        InstallCodeResult {
                            heap_delta: state.total_heap_delta,
                            old_wasm_hash: module_hash(clean_canister),
                            new_wasm_hash: module_hash(state.canister),
                        },
                    ),
                )
            }
    }

    /// The execution in `state` may finish with `outcome` and leave `limits_after` of
    /// `round_limits`.
    pub open spec fn may_finish(
        &self,
        state: InstallCodeState,
        clean_canister: CanisterStateView,
        original: OriginalContext,
        round_limits: RoundLimits,
        limits_after: RoundLimits,
        outcome: DtsInstallCodeResult,
    ) -> bool {
        exists|memory: Result<SubnetAvailableMemory, SubnetAvailableMemoryError>|
            {
                &&& #[trigger] self.may_take_memory(state, round_limits, memory)
                &&& match settled(
                    clean_canister,
                    state.canister,
                    original.config,
                    round_limits,
                    memory,
                ) {
                    Ok(limits) => {
                        &&& limits_after == limits
                        &&& self.may_finish_well(state, clean_canister, original, outcome)
                    },
                    Err(error) => {
                        &&& limits_after == round_limits
                        &&& self.may_finish_early(
                            clean_canister,
                            state.instructions_left(),
                            original,
                            error,
                            outcome,
                        )
                    },
                }
            }
    }

    /// The execution in `state` can be finished, whatever the accounts answer: it has not
    /// touched the balance of the canister, and the numbers of the settlement can be added up.
    pub open spec fn is_ready_to_finish(
        &self,
        state: InstallCodeState,
        clean_canister: CanisterStateView,
        original: OriginalContext,
        round_limits: RoundLimits,
    ) -> bool {
        &&& clean_canister.system_state.cycles_balance
            == state.canister.system_state.cycles_balance
        &&& forall|memory: Result<SubnetAvailableMemory, SubnetAvailableMemoryError>| #[trigger]
            self.may_take_memory(state, round_limits, memory) ==> {
                &&& can_settle(clean_canister, state.canister, round_limits, memory)
                &&& match settled(
                    clean_canister,
                    state.canister,
                    original.config,
                    round_limits,
                    memory,
                ) {
                    Ok(_) => can_be_indebted(
                        state.canister.scheduler_state,
                        original.config,
                        state.message_instruction_limit - state.instructions_left(),
                    ),
                    Err(_) => true,
                }
            }
    }
}

} // verus!
