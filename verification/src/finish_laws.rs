//! What a finished `install_code` takes, reports and leaves, amount by amount.

use vstd::prelude::*;

use crate::canister::{CanisterStateView, SystemState, SystemStateView};
use crate::context::{
    CanisterMgrConfig, OriginalContext, RoundAccounts, RoundLimits, SubnetAvailableMemory,
};
use crate::errors::{CanisterManagerError, SubnetAvailableMemoryError};
use crate::install_model::InstallCodeState;
use crate::settlement::{DtsInstallCodeResult, InstallCodeResult};
use crate::step_laws::larger;
use crate::types::{
    CanisterId, ComputeAllocation, Cycles, NumBytes, NumInstructions, WasmHash,
};

verus! {

// Memory and compute.

/// Where the memory of the subnet does not suffice, the custom sections are to blame just if
/// more was requested of them than there is; otherwise it is the execution memory. The error
/// tells what was requested and what there is, which is nothing if it is less than that.
pub proof fn law_the_scarce_memory_is_named(
    execution_requested: NumBytes,
    message_requested: NumBytes,
    wasm_custom_sections_requested: NumBytes,
    available_execution: i64,
    available_messages: i64,
    available_wasm_custom_sections: i64,
)
    ensures
        ({
            let rejection = crate::settlement::memory_rejection(
                SubnetAvailableMemoryError::InsufficientMemory {
                    execution_requested,
                    message_requested,
                    wasm_custom_sections_requested,
                    available_execution,
                    available_messages,
                    available_wasm_custom_sections,
                },
            );
            &&& wasm_custom_sections_requested > available_wasm_custom_sections ==> {
                &&& rejection
                    matches CanisterManagerError::SubnetWasmCustomSectionCapacityOverSubscribed {
                    requested,
                    available,
                }
                &&& requested == wasm_custom_sections_requested
                &&& available == larger(0, available_wasm_custom_sections as int)
            }
            &&& wasm_custom_sections_requested <= available_wasm_custom_sections ==> {
                &&& rejection matches CanisterManagerError::SubnetMemoryCapacityOverSubscribed {
                    requested,
                    available,
                }
                &&& requested == execution_requested
                &&& available == larger(0, available_execution as int)
            }
        }),
{
}

/// A compute allocation that does not grow is always granted, and one that grows just if it
/// leaves a part of the configured capacity free, of whatever size that is: if what the others
/// have and the new allocation are together less than the capacity. What is granted is added to
/// what the others have. What is refused is told the most that would be granted.
pub proof fn law_compute_is_granted_below_capacity(
    old_own: ComputeAllocation,
    new_own: ComputeAllocation,
    compute_allocation_used: u64,
    compute_capacity: u64,
)
    ensures
        ({
            let others = larger(0, compute_allocation_used - old_own.percent);
            let settled = crate::settlement::settled_compute(
                old_own,
                new_own,
                compute_allocation_used,
                compute_capacity,
            );
            &&& settled is Ok <==> new_own.percent <= old_own.percent || others + new_own.percent
                < compute_capacity
            &&& settled matches Ok(used) ==> used == others + new_own.percent
            &&& settled is Err ==> {
                &&& settled matches Err(CanisterManagerError::SubnetComputeCapacityOverSubscribed {
                    requested,
                    available,
                })
                &&& requested == new_own
                &&& available == larger(
                    old_own.percent as int,
                    compute_capacity - others - 1,
                )
            }
        }),
{
}

/// Memory comes first: where it is short, the installation fails for that. Where it suffices,
/// compute decides, and the new limits are what is left of the memory and the compute then in
/// use.
pub proof fn law_memory_is_settled_before_compute(
    clean_canister: CanisterStateView,
    canister: CanisterStateView,
    config: CanisterMgrConfig,
    round_limits: RoundLimits,
    memory: Result<SubnetAvailableMemory, SubnetAvailableMemoryError>,
)
    ensures
        ({
            let settled = crate::settlement::settled(
                clean_canister,
                canister,
                config,
                round_limits,
                memory,
            );
            let old = clean_canister.scheduler_state.compute_allocation.percent;
            let new = canister.scheduler_state.compute_allocation.percent;
            let others = larger(0, round_limits.compute_allocation_used - old);
            &&& memory matches Err(error) ==> settled == Err::<RoundLimits, CanisterManagerError>(
                crate::settlement::memory_rejection(error),
            )
            &&& memory matches Ok(left) ==> {
                &&& settled is Ok <==> new <= old || others + new < config.compute_capacity
                &&& settled matches Ok(limits) ==> {
                    &&& limits.subnet_available_memory == left
                    &&& limits.compute_allocation_used == others + new
                }
                &&& settled is Err ==> {
                    &&& settled
                        matches Err(CanisterManagerError::SubnetComputeCapacityOverSubscribed {
                        requested,
                        available,
                    })
                    &&& requested == canister.scheduler_state.compute_allocation
                    &&& available == larger(old as int, config.compute_capacity - others - 1)
                }
            }
        }),
{
}

/// A finished execution has given back to the subnet what it deallocated, and then asked for
/// what it allocated. If that is refused, it fails for want of memory. If it is granted, the
/// execution succeeds just if the compute allocation of its canister does not grow, or if it
/// and those of the others are together less than the capacity. The limits of the round are
/// then what is left of the memory and the compute in use; after a failure they are as before.
pub proof fn law_finishing_depends_on_memory_and_compute<
    Increment: Fn(SubnetAvailableMemory, NumBytes, NumBytes, NumBytes) -> SubnetAvailableMemory,
    TryDecrement: Fn(SubnetAvailableMemory, NumBytes, NumBytes, NumBytes) -> Result<
        SubnetAvailableMemory,
        SubnetAvailableMemoryError,
    >,
    Debit: Fn(&SystemState, CanisterId) -> SystemState,
    Refund: Fn(&SystemState, NumInstructions, NumInstructions, Cycles, usize) -> SystemState,
>(
    accounts: RoundAccounts<Increment, TryDecrement, Debit, Refund>,
    state: InstallCodeState,
    clean_canister: CanisterStateView,
    original: OriginalContext,
    round_limits: RoundLimits,
    limits_after: RoundLimits,
    outcome: DtsInstallCodeResult,
)
    requires
        accounts.may_finish(
            state,
            clean_canister,
            original,
            round_limits,
            limits_after,
            outcome,
        ),
    ensures
        exists|
            grown: SubnetAvailableMemory,
            memory: Result<SubnetAvailableMemory, SubnetAvailableMemoryError>,
        |
            {
                &&& call_ensures(
                    accounts.increment,
                    (
                        round_limits.subnet_available_memory,
                        state.deallocated_bytes,
                        0u64,
                        state.deallocated_wasm_custom_sections_bytes,
                    ),
                    grown,
                )
                &&& #[trigger] call_ensures(
                    accounts.try_decrement,
                    (
                        grown,
                        state.allocated_bytes,
                        state.allocated_message_bytes,
                        state.allocated_wasm_custom_sections_bytes,
                    ),
                    memory,
                )
                &&& ends_as_granted(
                    clean_canister,
                    state.canister,
                    original.config.compute_capacity,
                    round_limits,
                    memory,
                    limits_after,
                    outcome,
                )
            },
{
    let memory = choose|memory: Result<SubnetAvailableMemory, SubnetAvailableMemoryError>|
        {
            &&& #[trigger] accounts.may_take_memory(state, round_limits, memory)
            &&& match crate::settlement::settled(
                clean_canister,
                state.canister,
                original.config,
                round_limits,
                memory,
            ) {
                Ok(limits) => {
                    &&& limits_after == limits
                    &&& accounts.may_finish_well(state, clean_canister, original, outcome)
                },
                Err(error) => {
                    &&& limits_after == round_limits
                    &&& accounts.may_finish_early(
                        clean_canister,
                        state.instructions_left(),
                        original,
                        error,
                        outcome,
                    )
                },
            }
        };
    let grown = choose|grown: SubnetAvailableMemory|
        {
            &&& #[trigger] accounts.increments(
                round_limits.subnet_available_memory,
                state.deallocated_bytes,
                0,
                state.deallocated_wasm_custom_sections_bytes,
                grown,
            )
            &&& accounts.decrements(
                grown,
                state.allocated_bytes,
                state.allocated_message_bytes,
                state.allocated_wasm_custom_sections_bytes,
                memory,
            )
        };
    law_memory_is_settled_before_compute(
        clean_canister,
        state.canister,
        original.config,
        round_limits,
        memory,
    );
    assert(call_ensures(
        accounts.try_decrement,
        (
            grown,
            state.allocated_bytes,
            state.allocated_message_bytes,
            state.allocated_wasm_custom_sections_bytes,
        ),
        memory,
    ));
}

/// The execution that turned `clean_canister` into `canister` ends as it must where `memory`
/// came of asking for its memory.
pub open spec fn ends_as_granted(
    clean_canister: CanisterStateView,
    canister: CanisterStateView,
    compute_capacity: u64,
    round_limits: RoundLimits,
    memory: Result<SubnetAvailableMemory, SubnetAvailableMemoryError>,
    limits_after: RoundLimits,
    outcome: DtsInstallCodeResult,
) -> bool {
    let old = clean_canister.scheduler_state.compute_allocation.percent;
    let new = canister.scheduler_state.compute_allocation.percent;
    let others = larger(0, round_limits.compute_allocation_used - old);
    match outcome {
        DtsInstallCodeResult::Finished { canister: _, message: _, instructions_used: _, result } => {
            &&& result is Ok <==> memory is Ok && (new <= old || others + new < compute_capacity)
            &&& result is Ok ==> {
                &&& limits_after.subnet_available_memory == memory->Ok_0
                &&& limits_after.compute_allocation_used == others + new
            }
            &&& result is Err ==> limits_after == round_limits
            &&& memory matches Err(error) ==> result == Err::<
                InstallCodeResult,
                CanisterManagerError,
            >(crate::settlement::memory_rejection(error))
            &&& memory is Ok && result is Err ==> {
                &&& result
                    matches Err(CanisterManagerError::SubnetComputeCapacityOverSubscribed {
                    requested,
                    available,
                })
                &&& requested == canister.scheduler_state.compute_allocation
                &&& available == larger(old as int, compute_capacity - others - 1)
            }
        },
    }
}

/// An execution for which the memory suffices succeeds whenever what the others have of the
/// compute and what its canister is to have are together less than the configured capacity, of
/// whatever size that is, or if its canister is to have no more than it had.
pub proof fn law_growth_below_capacity_is_never_refused<
    Increment: Fn(SubnetAvailableMemory, NumBytes, NumBytes, NumBytes) -> SubnetAvailableMemory,
    TryDecrement: Fn(SubnetAvailableMemory, NumBytes, NumBytes, NumBytes) -> Result<
        SubnetAvailableMemory,
        SubnetAvailableMemoryError,
    >,
    Debit: Fn(&SystemState, CanisterId) -> SystemState,
    Refund: Fn(&SystemState, NumInstructions, NumInstructions, Cycles, usize) -> SystemState,
>(
    accounts: RoundAccounts<Increment, TryDecrement, Debit, Refund>,
    state: InstallCodeState,
    clean_canister: CanisterStateView,
    original: OriginalContext,
    round_limits: RoundLimits,
    limits_after: RoundLimits,
    outcome: DtsInstallCodeResult,
)
    requires
        accounts.may_finish(
            state,
            clean_canister,
            original,
            round_limits,
            limits_after,
            outcome,
        ),
        forall|
            memory: SubnetAvailableMemory,
            granted: Result<SubnetAvailableMemory, SubnetAvailableMemoryError>,
        | #[trigger]
            call_ensures(
                accounts.try_decrement,
                (
                    memory,
                    state.allocated_bytes,
                    state.allocated_message_bytes,
                    state.allocated_wasm_custom_sections_bytes,
                ),
                granted,
            ) ==> granted is Ok,
    ensures
        ({
            let old = clean_canister.scheduler_state.compute_allocation.percent;
            let new = state.canister.scheduler_state.compute_allocation.percent;
            let others = larger(0, round_limits.compute_allocation_used - old);
            match outcome {
                DtsInstallCodeResult::Finished {
                    canister: _,
                    message: _,
                    instructions_used: _,
                    result,
                } => {
                    &&& result is Ok <==> new <= old || others + new
                        < original.config.compute_capacity
                    &&& result is Ok ==> limits_after.compute_allocation_used == others + new
                    &&& result is Err ==> limits_after == round_limits
                },
            }
        }),
{
    law_finishing_depends_on_memory_and_compute(
        accounts,
        state,
        clean_canister,
        original,
        round_limits,
        limits_after,
        outcome,
    );
}

// What is left behind.

/// An execution that succeeds leaves the code, the compute allocation and the message that it
/// worked on. From the system state that it worked on the accounts have taken the outstanding
/// costs, and to what that left they have refunded what the message did not use. With rate
/// limiting the debit has grown by what the execution consumed of the limit that it started
/// with; otherwise it has not. Reported are the instructions that are gone of the limit of the
/// message, the heap delta, and the hashes of the module before and now.
pub proof fn law_successful_executions_leave_what_they_installed<
    Increment: Fn(SubnetAvailableMemory, NumBytes, NumBytes, NumBytes) -> SubnetAvailableMemory,
    TryDecrement: Fn(SubnetAvailableMemory, NumBytes, NumBytes, NumBytes) -> Result<
        SubnetAvailableMemory,
        SubnetAvailableMemoryError,
    >,
    Debit: Fn(&SystemState, CanisterId) -> SystemState,
    Refund: Fn(&SystemState, NumInstructions, NumInstructions, Cycles, usize) -> SystemState,
>(
    accounts: RoundAccounts<Increment, TryDecrement, Debit, Refund>,
    state: InstallCodeState,
    clean_canister: CanisterStateView,
    original: OriginalContext,
    round_limits: RoundLimits,
    limits_after: RoundLimits,
    outcome: DtsInstallCodeResult,
)
    requires
        accounts.may_finish(
            state,
            clean_canister,
            original,
            round_limits,
            limits_after,
            outcome,
        ),
        outcome matches DtsInstallCodeResult::Finished { result, .. } && result is Ok,
    ensures
        ({
            let left = state.execution_parameters.instruction_limits.message;
            let limit = original.execution_parameters.instruction_limits.message;
            let debit = state.canister.scheduler_state.install_code_debit;
            let consumed = state.message_instruction_limit - left;
            match outcome {
                DtsInstallCodeResult::Finished {
                    canister,
                    message,
                    instructions_used,
                    result,
                } => {
                    &&& canister.execution_state == state.canister.execution_state
                    &&& canister.scheduler_state.compute_allocation
                        == state.canister.scheduler_state.compute_allocation
                    &&& original.config.rate_limiting_of_instructions is Disabled
                        ==> canister.scheduler_state.install_code_debit == debit
                    &&& original.config.rate_limiting_of_instructions is Enabled && 0 <= debit
                        + consumed <= u64::MAX ==> canister.scheduler_state.install_code_debit
                        == debit + consumed
                    &&& message == original.message
                    &&& instructions_used == larger(0, limit - left)
                    &&& result->Ok_0.heap_delta == state.total_heap_delta
                    &&& result->Ok_0.old_wasm_hash == hash_of_module(clean_canister)
                    &&& result->Ok_0.new_wasm_hash == hash_of_module(state.canister)
                    &&& exists|
                        asked: SystemState,
                        debited: SystemState,
                        asked_again: SystemState,
                        refunded: SystemState,
                    |
                        {
                            &&& asked@ == state.canister.system_state
                            &&& #[trigger] call_ensures(
                                accounts.apply_ingress_induction_cycles_debit,
                                (&asked, state.canister.system_state.canister_id),
                                debited,
                            )
                            &&& asked_again@ == debited@
                            &&& #[trigger] call_ensures(
                                accounts.refund_unused_execution_cycles,
                                (
                                    &asked_again,
                                    left,
                                    limit,
                                    original.prepaid_execution_cycles,
                                    original.subnet_size,
                                ),
                                refunded,
                            )
                            &&& canister.system_state@ == refunded@
                        }
                },
            }
        }),
{
    let left = state.execution_parameters.instruction_limits.message;
    let limit = original.execution_parameters.instruction_limits.message;
    assert(accounts.may_finish_well(state, clean_canister, original, outcome));
    let settled = choose|system_state: SystemStateView|
        {
            &&& #[trigger] accounts.may_settle_cycles(
                state.canister.system_state,
                state.instructions_left(),
                original,
                system_state,
            )
            &&& outcome.leaves(
                CanisterStateView {
                    system_state,
                    scheduler_state: crate::settlement::indebted(
                        state.canister.scheduler_state,
                        original.config,
                        state.message_instruction_limit - state.instructions_left(),
                    ),
                    ..state.canister
                },
                original.message,
                crate::settlement::instructions_used(limit, state.instructions_left()),
                Ok(
                    InstallCodeResult {
                        heap_delta: state.total_heap_delta,
                        old_wasm_hash: crate::settlement::module_hash(clean_canister),
                        new_wasm_hash: crate::settlement::module_hash(state.canister),
                    },
                ),
            )
        };
    let between = choose|debited: SystemStateView|
        {
            &&& #[trigger] accounts.debits(
                state.canister.system_state,
                state.canister.system_state.canister_id,
                debited,
            )
            &&& accounts.refunds(
                debited,
                left,
                limit,
                original.prepaid_execution_cycles,
                original.subnet_size,
                settled,
            )
        };
    let (asked, debited) = choose|asked: SystemState, answer: SystemState|
        {
            &&& asked@ == state.canister.system_state
            &&& answer@ == between
            &&& #[trigger] call_ensures(
                accounts.apply_ingress_induction_cycles_debit,
                (&asked, state.canister.system_state.canister_id),
                answer,
            )
        };
    let (asked_again, refunded) = choose|asked: SystemState, answer: SystemState|
        {
            &&& asked@ == between
            &&& answer@ == settled
            &&& #[trigger] call_ensures(
                accounts.refund_unused_execution_cycles,
                (
                    &asked,
                    left,
                    limit,
                    original.prepaid_execution_cycles,
                    original.subnet_size,
                ),
                answer,
            )
        };
    assert(call_ensures(
        accounts.apply_ingress_induction_cycles_debit,
        (&asked, state.canister.system_state.canister_id),
        debited,
    ));
    assert(call_ensures(
        accounts.refund_unused_execution_cycles,
        (
            &asked_again,
            left,
            limit,
            original.prepaid_execution_cycles,
            original.subnet_size,
        ),
        refunded,
    ));
}

/// The hash of the module of a canister that holds one.
pub open spec fn hash_of_module(canister: CanisterStateView) -> Option<WasmHash> {
    match canister.execution_state {
        None => None,
        Some(code) => Some(code.wasm_binary.module_hash),
    }
}

/// Code is known by the hash of its module.
pub proof fn law_code_is_known_by_its_hash(canister: CanisterStateView)
    ensures
        canister.execution_state is None ==> crate::settlement::module_hash(canister) is None,
        canister.execution_state matches Some(code) ==> crate::settlement::module_hash(canister)
            == Some(code.wasm_binary.module_hash),
{
}

/// An execution that ends early leaves the clean canister: its code, its compute allocation and
/// its debit are those that it had, and its system state is what the accounts make of the clean
/// one when they refund what the message did not use. Reported are the error and the
/// instructions that are gone of the limit of the message.
pub proof fn law_early_ends_only_refund<
    Increment: Fn(SubnetAvailableMemory, NumBytes, NumBytes, NumBytes) -> SubnetAvailableMemory,
    TryDecrement: Fn(SubnetAvailableMemory, NumBytes, NumBytes, NumBytes) -> Result<
        SubnetAvailableMemory,
        SubnetAvailableMemoryError,
    >,
    Debit: Fn(&SystemState, CanisterId) -> SystemState,
    Refund: Fn(&SystemState, NumInstructions, NumInstructions, Cycles, usize) -> SystemState,
>(
    accounts: RoundAccounts<Increment, TryDecrement, Debit, Refund>,
    clean_canister: CanisterStateView,
    instructions_left: NumInstructions,
    original: OriginalContext,
    error: CanisterManagerError,
    outcome: DtsInstallCodeResult,
)
    requires
        accounts.may_finish_early(clean_canister, instructions_left, original, error, outcome),
    ensures
        ({
            let limit = original.execution_parameters.instruction_limits.message;
            match outcome {
                DtsInstallCodeResult::Finished {
                    canister,
                    message,
                    instructions_used,
                    result,
                } => {
                    &&& result == Err::<InstallCodeResult, CanisterManagerError>(error)
                    &&& message == original.message
                    &&& instructions_used == larger(0, limit - instructions_left)
                    &&& canister.execution_state == clean_canister.execution_state
                    &&& canister.scheduler_state.compute_allocation
                        == clean_canister.scheduler_state.compute_allocation
                    &&& canister.scheduler_state.install_code_debit
                        == clean_canister.scheduler_state.install_code_debit
                    &&& exists|asked: SystemState, refunded: SystemState|
                        {
                            &&& asked@ == clean_canister.system_state
                            &&& #[trigger] call_ensures(
                                accounts.refund_unused_execution_cycles,
                                (
                                    &asked,
                                    instructions_left,
                                    limit,
                                    original.prepaid_execution_cycles,
                                    original.subnet_size,
                                ),
                                refunded,
                            )
                            &&& canister.system_state@ == refunded@
                        }
                },
            }
        }),
{
}

/// An execution that fails when it is finished ends as early ones do, with what it has left of
/// its instructions.
pub proof fn law_failing_at_the_end_is_ending_early<
    Increment: Fn(SubnetAvailableMemory, NumBytes, NumBytes, NumBytes) -> SubnetAvailableMemory,
    TryDecrement: Fn(SubnetAvailableMemory, NumBytes, NumBytes, NumBytes) -> Result<
        SubnetAvailableMemory,
        SubnetAvailableMemoryError,
    >,
    Debit: Fn(&SystemState, CanisterId) -> SystemState,
    Refund: Fn(&SystemState, NumInstructions, NumInstructions, Cycles, usize) -> SystemState,
>(
    accounts: RoundAccounts<Increment, TryDecrement, Debit, Refund>,
    state: InstallCodeState,
    clean_canister: CanisterStateView,
    original: OriginalContext,
    round_limits: RoundLimits,
    limits_after: RoundLimits,
    outcome: DtsInstallCodeResult,
)
    requires
        accounts.may_finish(
            state,
            clean_canister,
            original,
            round_limits,
            limits_after,
            outcome,
        ),
    ensures
        match outcome {
            DtsInstallCodeResult::Finished {
                canister: _,
                message: _,
                instructions_used: _,
                result,
            } => result matches Err(error) ==> accounts.may_finish_early(
                clean_canister,
                state.execution_parameters.instruction_limits.message,
                original,
                error,
                outcome,
            ),
        },
{
}

/// An execution can be finished wherever it has left the balance alone, no more instructions
/// are left than it started with, the debit has room for those that it consumed, and the
/// compute in use is not at the end of all numbers.
pub proof fn law_ordinary_executions_can_be_finished<
    Increment: Fn(SubnetAvailableMemory, NumBytes, NumBytes, NumBytes) -> SubnetAvailableMemory,
    TryDecrement: Fn(SubnetAvailableMemory, NumBytes, NumBytes, NumBytes) -> Result<
        SubnetAvailableMemory,
        SubnetAvailableMemoryError,
    >,
    Debit: Fn(&SystemState, CanisterId) -> SystemState,
    Refund: Fn(&SystemState, NumInstructions, NumInstructions, Cycles, usize) -> SystemState,
>(
    accounts: RoundAccounts<Increment, TryDecrement, Debit, Refund>,
    state: InstallCodeState,
    clean_canister: CanisterStateView,
    original: OriginalContext,
    round_limits: RoundLimits,
)
    requires
        clean_canister.system_state.cycles_balance == state.canister.system_state.cycles_balance,
        state.execution_parameters.instruction_limits.message <= state.message_instruction_limit,
        state.canister.scheduler_state.install_code_debit + state.message_instruction_limit
            - state.execution_parameters.instruction_limits.message <= u64::MAX,
        round_limits.compute_allocation_used < u64::MAX,
    ensures
        accounts.is_ready_to_finish(state, clean_canister, original, round_limits),
{
}

} // verus!
