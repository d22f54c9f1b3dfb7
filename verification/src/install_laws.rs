//! What holds of `install_code` executions as a whole.

use vstd::prelude::*;

use crate::canister::{
    CanisterStateView, ExecutionState, SystemState, SystemStateView,
};
use crate::context::{
    AppliedChanges, OriginalContext, RoundAccounts, RoundContext, RoundLimits, SettingsRequest,
    SubnetAvailableMemory, SystemStateChanges,
};
use crate::errors::{CanisterManagerError, HypervisorResult, SubnetAvailableMemoryError};
use crate::install_model::{InstallCodeState, InstallCodeStep};
use crate::settlement::DtsInstallCodeResult;
use crate::types::{
    CanisterId, CanisterInstallMode, ComputeAllocation, Cycles, FlagStatus, MemoryAllocation,
    NumBytes, NumInstructions, StableMemoryHandling, Time,
};

verus! {

/// Every step is noted, whether it succeeds or not, and none changes the instruction limit
/// that the execution started with.
pub proof fn law_steps_are_noted<
    Validate: Fn(SettingsRequest) -> Result<(), CanisterManagerError>,
    Apply: Fn(&SystemState, SystemStateChanges, Time) -> AppliedChanges,
>(
    round: RoundContext<Validate, Apply>,
    state: InstallCodeState,
    step: InstallCodeStep,
    original: OriginalContext,
    round_limits: RoundLimits,
    after: InstallCodeState,
    result: Result<(), CanisterManagerError>,
)
    requires
        round.may_perform(state, step, original, round_limits, after, result),
    ensures
        after.steps == state.steps.push(step),
        after.message_instruction_limit == state.message_instruction_limit,
{
}

/// The validation of the input, whether it objects or not, only notes that it took place.
pub proof fn law_validation_leaves_the_canister_alone<
    Validate: Fn(SettingsRequest) -> Result<(), CanisterManagerError>,
    Apply: Fn(&SystemState, SystemStateChanges, Time) -> AppliedChanges,
>(
    round: RoundContext<Validate, Apply>,
    state: InstallCodeState,
    original: OriginalContext,
    round_limits: RoundLimits,
    after: InstallCodeState,
    result: Result<(), CanisterManagerError>,
)
    requires
        round.may_validate(state, original, round_limits, after, result),
    ensures
        after.canister == state.canister,
        after.execution_parameters == state.execution_parameters,
        after == state.noting(InstallCodeStep::ValidateInput),
{
}

/// To perform no step at all is a run that ends where it starts.
pub proof fn law_runs_begin_empty<
    Validate: Fn(SettingsRequest) -> Result<(), CanisterManagerError>,
    Apply: Fn(&SystemState, SystemStateChanges, Time) -> AppliedChanges,
>(
    round: RoundContext<Validate, Apply>,
    start: InstallCodeState,
    original: OriginalContext,
)
    ensures
        round.can_reach(start, Seq::empty(), original, Seq::empty(), start),
{
}

/// The steps of a run that was successful so far, and one more that succeeds, in the same
/// round or in a later one, make a run together.
pub proof fn law_runs_go_on<
    Validate: Fn(SettingsRequest) -> Result<(), CanisterManagerError>,
    Apply: Fn(&SystemState, SystemStateChanges, Time) -> AppliedChanges,
>(
    round: RoundContext<Validate, Apply>,
    start: InstallCodeState,
    steps: Seq<InstallCodeStep>,
    limits: Seq<RoundLimits>,
    state: InstallCodeState,
    step: InstallCodeStep,
    original: OriginalContext,
    round_limits: RoundLimits,
    end: InstallCodeState,
)
    requires
        round.can_reach(start, steps, original, limits, state),
        round.is_ready(state, step, original),
        round.may_perform(
            state,
            step,
            original,
            round_limits,
            end,
            Ok::<(), CanisterManagerError>(()),
        ),
    ensures
        round.can_reach(start, steps.push(step), original, limits.push(round_limits), end),
    decreases steps.len(),
{
    let longer = steps.push(step);
    let longer_limits = limits.push(round_limits);
    if steps.len() == 0 {
        assert(longer[0] == step);
        assert(longer_limits[0] == round_limits);
        assert(longer.drop_first().len() == 0);
        assert(round.can_reach(
            end,
            longer.drop_first(),
            original,
            longer_limits.drop_first(),
            end,
        ));
    } else {
        let after = choose|after: InstallCodeState|
            {
                &&& #[trigger] round.may_perform(
                    start,
                    steps[0],
                    original,
                    limits[0],
                    after,
                    Ok::<(), CanisterManagerError>(()),
                )
                &&& round.can_reach(
                    after,
                    steps.drop_first(),
                    original,
                    limits.drop_first(),
                    state,
                )
            };
        law_runs_go_on(
            round,
            after,
            steps.drop_first(),
            limits.drop_first(),
            state,
            step,
            original,
            round_limits,
            end,
        );
        assert(longer[0] == steps[0]);
        assert(longer_limits[0] == limits[0]);
        assert(longer.drop_first() =~= steps.drop_first().push(step));
        assert(longer_limits.drop_first() =~= limits.drop_first().push(round_limits));
        assert(round.may_perform(
            start,
            longer[0],
            original,
            longer_limits[0],
            after,
            Ok::<(), CanisterManagerError>(()),
        ));
    }
}

/// A run leaves its steps behind in their order, and the instruction limit as it was.
pub proof fn law_runs_note_their_steps<
    Validate: Fn(SettingsRequest) -> Result<(), CanisterManagerError>,
    Apply: Fn(&SystemState, SystemStateChanges, Time) -> AppliedChanges,
>(
    round: RoundContext<Validate, Apply>,
    start: InstallCodeState,
    steps: Seq<InstallCodeStep>,
    original: OriginalContext,
    limits: Seq<RoundLimits>,
    end: InstallCodeState,
)
    requires
        round.can_reach(start, steps, original, limits, end),
    ensures
        end.steps == start.steps + steps,
        end.message_instruction_limit == start.message_instruction_limit,
    decreases steps.len(),
{
    if steps.len() > 0 {
        let after = choose|after: InstallCodeState|
            {
                &&& #[trigger] round.may_perform(
                    start,
                    steps[0],
                    original,
                    limits[0],
                    after,
                    Ok::<(), CanisterManagerError>(()),
                )
                &&& round.can_reach(
                    after,
                    steps.drop_first(),
                    original,
                    limits.drop_first(),
                    end,
                )
            };
        law_steps_are_noted(round, start, steps[0], original, limits[0], after, Ok(()));
        law_runs_note_their_steps(
            round,
            after,
            steps.drop_first(),
            original,
            limits.drop_first(),
            end,
        );
        assert(start.steps.push(steps[0]) + steps.drop_first() =~= start.steps + steps);
    } else {
        assert(start.steps + steps =~= start.steps);
    }
}

/// Where a step succeeds twice on one state, it has the same effect both times, whatever
/// the limits of the round. It does succeed again unless settings are objected to now, and
/// under the same limits they are not.
proof fn lemma_steps_are_deterministic<
    Validate: Fn(SettingsRequest) -> Result<(), CanisterManagerError>,
    Apply: Fn(&SystemState, SystemStateChanges, Time) -> AppliedChanges,
>(
    round: RoundContext<Validate, Apply>,
    state: InstallCodeState,
    step: InstallCodeStep,
    original: OriginalContext,
    round_limits: RoundLimits,
    later_limits: RoundLimits,
    after: InstallCodeState,
    other: InstallCodeState,
    result: Result<(), CanisterManagerError>,
)
    requires
        round.is_deterministic(),
        round.may_perform(
            state,
            step,
            original,
            round_limits,
            after,
            Ok::<(), CanisterManagerError>(()),
        ),
        round.may_perform(state, step, original, later_limits, other, result),
    ensures
        result is Ok ==> other == after,
        round.accepts_settings(state, step, original, later_limits) ==> result is Ok,
{
}

/// Where a validation succeeds, settings are not objected to under the same limits.
proof fn lemma_same_limits_accept_settings<
    Validate: Fn(SettingsRequest) -> Result<(), CanisterManagerError>,
    Apply: Fn(&SystemState, SystemStateChanges, Time) -> AppliedChanges,
>(
    round: RoundContext<Validate, Apply>,
    state: InstallCodeState,
    step: InstallCodeStep,
    original: OriginalContext,
    round_limits: RoundLimits,
    after: InstallCodeState,
)
    requires
        round.is_deterministic(),
        round.may_perform(
            state,
            step,
            original,
            round_limits,
            after,
            Ok::<(), CanisterManagerError>(()),
        ),
    ensures
        round.accepts_settings(state, step, original, round_limits),
{
}

/// A run can be replayed from its start in any later round. If the replay succeeds, it ends
/// in the very state in which the run ended. It does succeed under limits under which settings
/// are not objected to, and the limits of a run that had the same all along are such.
proof fn lemma_runs_can_be_replayed<
    Validate: Fn(SettingsRequest) -> Result<(), CanisterManagerError>,
    Apply: Fn(&SystemState, SystemStateChanges, Time) -> AppliedChanges,
>(
    round: RoundContext<Validate, Apply>,
    start: InstallCodeState,
    steps: Seq<InstallCodeStep>,
    original: OriginalContext,
    limits: Seq<RoundLimits>,
    later_limits: RoundLimits,
    end: InstallCodeState,
)
    requires
        round.is_deterministic(),
        round.can_reach(start, steps, original, limits, end),
    ensures
        round.is_ready_to_replay(start, steps, original, later_limits, end.instructions_left()),
        forall|other: InstallCodeState, result: Result<(), CanisterManagerError>|
            #[trigger] round.may_replay(start, steps, original, later_limits, other, result) ==> {
                &&& result is Ok ==> other == end
                &&& round.accepts_settings_throughout(start, steps, original, later_limits)
                    ==> result is Ok
            },
        (forall|i: int| 0 <= i < limits.len() ==> #[trigger] limits[i] == later_limits)
            ==> round.accepts_settings_throughout(start, steps, original, later_limits),
    decreases steps.len(),
{
    if steps.len() > 0 {
        let rest = steps.drop_first();
        let after = choose|after: InstallCodeState|
            {
                &&& #[trigger] round.may_perform(
                    start,
                    steps[0],
                    original,
                    limits[0],
                    after,
                    Ok::<(), CanisterManagerError>(()),
                )
                &&& round.can_reach(after, rest, original, limits.drop_first(), end)
            };
        lemma_runs_can_be_replayed(
            round,
            after,
            rest,
            original,
            limits.drop_first(),
            later_limits,
            end,
        );
        assert forall|next: InstallCodeState, outcome: Result<(), CanisterManagerError>|
            #[trigger] round.may_perform(
                start,
                steps[0],
                original,
                later_limits,
                next,
                outcome,
            ) implies (outcome is Ok ==> next == after) && (round.accepts_settings(
            start,
            steps[0],
            original,
            later_limits,
        ) ==> outcome is Ok) by {
            lemma_steps_are_deterministic(
                round,
                start,
                steps[0],
                original,
                limits[0],
                later_limits,
                after,
                next,
                outcome,
            );
        }
        assert forall|other: InstallCodeState, result: Result<(), CanisterManagerError>|
            #[trigger] round.may_replay(
                start,
                steps,
                original,
                later_limits,
                other,
                result,
            ) implies (result is Ok ==> other == end) && (round.accepts_settings_throughout(
            start,
            steps,
            original,
            later_limits,
        ) ==> result is Ok) by {
            let (next, outcome) = choose|
                next: InstallCodeState,
                outcome: Result<(), CanisterManagerError>,
            |
                {
                    &&& #[trigger] round.may_perform(
                        start,
                        steps[0],
                        original,
                        later_limits,
                        next,
                        outcome,
                    )
                    &&& outcome is Err ==> other == next && result == outcome
                    &&& outcome is Ok ==> round.may_replay(
                        next,
                        rest,
                        original,
                        later_limits,
                        other,
                        result,
                    )
                };
            assert(outcome is Ok ==> next == after);
            if outcome is Ok {
                assert(round.may_perform(
                    start,
                    steps[0],
                    original,
                    later_limits,
                    next,
                    Ok::<(), CanisterManagerError>(()),
                ));
            }
        }
        if forall|i: int| 0 <= i < limits.len() ==> #[trigger] limits[i] == later_limits {
            lemma_same_limits_accept_settings(
                round,
                start,
                steps[0],
                original,
                limits[0],
                after,
            );
            assert forall|i: int| 0 <= i < limits.drop_first().len() implies #[trigger]
                limits.drop_first()[i] == later_limits by {
                assert(limits.drop_first()[i] == limits[i + 1]);
            }
        }
    }
}

/// A paused execution can be resumed in any later round, whatever the limits of the rounds in
/// which its steps were performed. If the steps succeed once more, the execution is then in
/// the very state in which it was paused. They do succeed under all limits under which the
/// validations among them do not object to the requested settings; and under the limits under
/// which all steps were performed, if those were the same, they do not. This is said of
/// executions whose canister was changed by steps alone, and of services that answer alike
/// when asked alike.
pub proof fn law_resuming_restores_the_paused_state<
    Validate: Fn(SettingsRequest) -> Result<(), CanisterManagerError>,
    Apply: Fn(&SystemState, SystemStateChanges, Time) -> AppliedChanges,
>(
    round: RoundContext<Validate, Apply>,
    clean_canister: CanisterStateView,
    original: OriginalContext,
    limits: Seq<RoundLimits>,
    later_limits: RoundLimits,
    paused: InstallCodeState,
)
    requires
        round.is_deterministic(),
        round.can_reach(
            InstallCodeState::initial(clean_canister, original),
            paused.steps,
            original,
            limits,
            paused,
        ),
    ensures
        round.is_ready_to_replay(
            InstallCodeState::initial(clean_canister, original),
            paused.steps,
            original,
            later_limits,
            paused.instructions_left(),
        ),
        forall|resumed: InstallCodeState, result: Result<(), CanisterManagerError>|
            #[trigger] round.may_replay(
                InstallCodeState::initial(clean_canister, original),
                paused.steps,
                original,
                later_limits,
                resumed,
                result,
            ) ==> {
                &&& result is Ok ==> resumed == paused
                &&& round.accepts_settings_throughout(
                    InstallCodeState::initial(clean_canister, original),
                    paused.steps,
                    original,
                    later_limits,
                ) ==> result is Ok
            },
        (forall|i: int| 0 <= i < limits.len() ==> #[trigger] limits[i] == later_limits)
            ==> round.accepts_settings_throughout(
            InstallCodeState::initial(clean_canister, original),
            paused.steps,
            original,
            later_limits,
        ),
{
    lemma_runs_can_be_replayed(
        round,
        InstallCodeState::initial(clean_canister, original),
        paused.steps,
        original,
        limits,
        later_limits,
        paused,
    );
}

/// The instructions that `steps` leave of `left`: a replacement uses up those of its
/// compilation, and a Wasm execution says itself how many it left.
pub open spec fn instructions_left_after(
    left: NumInstructions,
    steps: Seq<InstallCodeStep>,
) -> NumInstructions
    decreases steps.len(),
{
    if steps.len() == 0 {
        left
    } else {
        let next = match steps[0] {
            InstallCodeStep::ValidateInput => left,
            InstallCodeStep::ReplaceExecutionStateAndAllocations {
                instructions_from_compilation,
                maybe_execution_state: _,
                stable_memory_handling: _,
            } => if instructions_from_compilation <= left {
                (left - instructions_from_compilation) as u64
            } else {
                0
            },
            InstallCodeStep::HandleWasmExecution {
                canister_state_changes: _,
                output,
            } => output.num_instructions_left,
        };
        instructions_left_after(next, steps.drop_first())
    }
}

/// How many instructions a run leaves is known from its steps alone, whatever the services
/// answered.
pub proof fn law_steps_determine_the_instructions_left<
    Validate: Fn(SettingsRequest) -> Result<(), CanisterManagerError>,
    Apply: Fn(&SystemState, SystemStateChanges, Time) -> AppliedChanges,
>(
    round: RoundContext<Validate, Apply>,
    start: InstallCodeState,
    steps: Seq<InstallCodeStep>,
    original: OriginalContext,
    limits: Seq<RoundLimits>,
    end: InstallCodeState,
)
    requires
        round.can_reach(start, steps, original, limits, end),
    ensures
        end.instructions_left() == instructions_left_after(start.instructions_left(), steps),
    decreases steps.len(),
{
    if steps.len() > 0 {
        let after = choose|after: InstallCodeState|
            {
                &&& #[trigger] round.may_perform(
                    start,
                    steps[0],
                    original,
                    limits[0],
                    after,
                    Ok::<(), CanisterManagerError>(()),
                )
                &&& round.can_reach(
                    after,
                    steps.drop_first(),
                    original,
                    limits.drop_first(),
                    end,
                )
            };
        law_steps_determine_the_instructions_left(
            round,
            after,
            steps.drop_first(),
            original,
            limits.drop_first(),
            end,
        );
    }
}

/// What a run has booked of custom sections, allocated less deallocated, is by how much the
/// custom sections of the canister have grown over the run.
pub proof fn law_custom_sections_are_booked<
    Validate: Fn(SettingsRequest) -> Result<(), CanisterManagerError>,
    Apply: Fn(&SystemState, SystemStateChanges, Time) -> AppliedChanges,
>(
    round: RoundContext<Validate, Apply>,
    start: InstallCodeState,
    steps: Seq<InstallCodeStep>,
    original: OriginalContext,
    limits: Seq<RoundLimits>,
    end: InstallCodeState,
)
    requires
        round.can_reach(start, steps, original, limits, end),
    ensures
        (end.allocated_wasm_custom_sections_bytes - start.allocated_wasm_custom_sections_bytes) - (
        end.deallocated_wasm_custom_sections_bytes - start.deallocated_wasm_custom_sections_bytes)
            == end.canister.custom_section_bytes() - start.canister.custom_section_bytes(),
    decreases steps.len(),
{
    if steps.len() > 0 {
        let after = choose|after: InstallCodeState|
            {
                &&& #[trigger] round.may_perform(
                    start,
                    steps[0],
                    original,
                    limits[0],
                    after,
                    Ok::<(), CanisterManagerError>(()),
                )
                &&& round.can_reach(
                    after,
                    steps.drop_first(),
                    original,
                    limits.drop_first(),
                    end,
                )
            };
        lemma_step_books_custom_sections(
            round,
            start,
            steps[0],
            original,
            limits[0],
            after,
        );
        law_custom_sections_are_booked(
            round,
            after,
            steps.drop_first(),
            original,
            limits.drop_first(),
            end,
        );
    }
}

proof fn lemma_step_books_custom_sections<
    Validate: Fn(SettingsRequest) -> Result<(), CanisterManagerError>,
    Apply: Fn(&SystemState, SystemStateChanges, Time) -> AppliedChanges,
>(
    round: RoundContext<Validate, Apply>,
    state: InstallCodeState,
    step: InstallCodeStep,
    original: OriginalContext,
    round_limits: RoundLimits,
    after: InstallCodeState,
)
    requires
        round.is_ready(state, step, original),
        round.may_perform(
            state,
            step,
            original,
            round_limits,
            after,
            Ok::<(), CanisterManagerError>(()),
        ),
    ensures
        (after.allocated_wasm_custom_sections_bytes - state.allocated_wasm_custom_sections_bytes)
            - (after.deallocated_wasm_custom_sections_bytes
            - state.deallocated_wasm_custom_sections_bytes) == after.canister.custom_section_bytes()
            - state.canister.custom_section_bytes(),
{
}

/// What a replacement that succeeds books, allocated less deallocated, is by how much the
/// memory that the canister holds of its subnet has grown: its reservation, or what it uses
/// if that is more.
pub proof fn law_replacements_book_what_they_take(
    state: InstallCodeState,
    instructions_from_compilation: NumInstructions,
    maybe_execution_state: HypervisorResult<ExecutionState>,
    stable_memory_handling: StableMemoryHandling,
    original: OriginalContext,
)
    requires
        state.can_replace(maybe_execution_state, stable_memory_handling, original),
    ensures
        ({
            let (after, result) = state.replacing(
                instructions_from_compilation,
                maybe_execution_state,
                stable_memory_handling,
                original,
            );
            result is Ok ==> (after.allocated_bytes - state.allocated_bytes) - (
            after.deallocated_bytes - state.deallocated_bytes) == crate::install_model::bytes_held(
                after.canister.system_state.memory_allocation,
                after.canister.bytes_used(),
            ) - crate::install_model::bytes_held(
                state.canister.system_state.memory_allocation,
                state.canister.bytes_used(),
            )
        }),
{
}

/// After a replacement that succeeds the canister uses no more memory than it may, and no
/// more than its reservation if it has one. The allocations of the canister and of the
/// execution parameters agree. What is not requested stays as it was.
pub proof fn law_replacements_respect_allocations(
    state: InstallCodeState,
    instructions_from_compilation: NumInstructions,
    maybe_execution_state: HypervisorResult<ExecutionState>,
    stable_memory_handling: StableMemoryHandling,
    original: OriginalContext,
)
    ensures
        ({
            let (after, result) = state.replacing(
                instructions_from_compilation,
                maybe_execution_state,
                stable_memory_handling,
                original,
            );
            result is Ok ==> {
                &&& after.is_within_memory_limit()
                &&& after.canister.system_state.memory_allocation matches MemoryAllocation::Reserved(
                    bytes,
                ) ==> after.canister.bytes_used() <= bytes
                &&& after.execution_parameters.memory_allocation
                    == after.canister.system_state.memory_allocation
                &&& after.execution_parameters.compute_allocation
                    == after.canister.scheduler_state.compute_allocation
                &&& original.requested_memory_allocation is None
                    ==> after.canister.system_state.memory_allocation
                    == state.canister.system_state.memory_allocation
                &&& original.requested_compute_allocation is None
                    ==> after.canister.scheduler_state.compute_allocation
                    == state.canister.scheduler_state.compute_allocation
            }
        }),
{
}

/// A replacement never takes a reservation away from a canister.
pub proof fn law_reservations_are_not_given_up(
    state: InstallCodeState,
    instructions_from_compilation: NumInstructions,
    maybe_execution_state: HypervisorResult<ExecutionState>,
    stable_memory_handling: StableMemoryHandling,
    original: OriginalContext,
)
    requires
        state.can_replace(maybe_execution_state, stable_memory_handling, original),
        state.canister.system_state.memory_allocation is Reserved,
    ensures
        state.replacing(
            instructions_from_compilation,
            maybe_execution_state,
            stable_memory_handling,
            original,
        ).0.canister.system_state.memory_allocation is Reserved,
{
}

/// A replacement that keeps the stable memory of a canister with code leaves it untouched;
/// otherwise the stable memory is that of the new code.
pub proof fn law_stable_memory_is_kept_or_replaced(
    state: InstallCodeState,
    instructions_from_compilation: NumInstructions,
    execution_state: ExecutionState,
    stable_memory_handling: StableMemoryHandling,
    original: OriginalContext,
)
    ensures
        ({
            let after = state.replacing(
                instructions_from_compilation,
                Ok(execution_state),
                stable_memory_handling,
                original,
            ).0;
            &&& after.canister.execution_state is Some
            &&& after.canister.execution_state->0.stable_memory == if stable_memory_handling
                == StableMemoryHandling::Keep && state.canister.execution_state is Some {
                state.canister.execution_state->0.stable_memory
            } else {
                execution_state.stable_memory
            }
        }),
{
}

/// A Wasm execution under a reservation books no allocated bytes.
pub proof fn law_reserved_memory_is_not_booked_again<
    Validate: Fn(SettingsRequest) -> Result<(), CanisterManagerError>,
    Apply: Fn(&SystemState, SystemStateChanges, Time) -> AppliedChanges,
>(
    round: RoundContext<Validate, Apply>,
    state: InstallCodeState,
    changes: Option<crate::install_model::CanisterStateChanges>,
    output: crate::install_model::WasmExecutionOutput,
    original: OriginalContext,
    after: InstallCodeState,
    result: Result<(), CanisterManagerError>,
)
    requires
        round.may_handle(state, changes, output, original, after, result),
        after.canister.system_state.memory_allocation is Reserved,
    ensures
        after.allocated_bytes == state.allocated_bytes,
        after.allocated_message_bytes == state.allocated_message_bytes,
{
}

/// An execution that ends with an error leaves the limits of the round as they were, and the
/// canister with the code, the compute allocation and the debit that it had. Its system state
/// is what the accounts make of it when they refund what was not used, and nothing else.
/// One that succeeds leaves the code and the compute allocation that it installed.
pub proof fn law_failed_installations_change_nothing_else<
    Increment: Fn(SubnetAvailableMemory, NumBytes, NumBytes, NumBytes) -> SubnetAvailableMemory,
    TryDecrement: Fn(SubnetAvailableMemory, NumBytes, NumBytes, NumBytes) -> Result<
        SubnetAvailableMemory,
        SubnetAvailableMemoryError,
    >,
    Debit: Fn(&SystemState, CanisterId) -> SystemState,
    Refund: Fn(&SystemState, NumInstructions, NumInstructions, Cycles, usize) -> SystemState,
>(
    accounts: RoundAccounts<Increment, TryDecrement, Debit, Refund>,
    state: InstallCodeState,
    clean_canister: CanisterStateView,
    original: OriginalContext,
    round_limits: RoundLimits,
    limits_after: RoundLimits,
    outcome: DtsInstallCodeResult,
)
    requires
        accounts.may_finish(
            state,
            clean_canister,
            original,
            round_limits,
            limits_after,
            outcome,
        ),
    ensures
        match outcome {
            DtsInstallCodeResult::Finished {
                canister,
                message,
                instructions_used: _,
                result,
            } => {
                &&& message == original.message
                &&& result is Err ==> {
                    &&& limits_after == round_limits
                    &&& canister.execution_state == clean_canister.execution_state
                    &&& canister.scheduler_state == clean_canister.scheduler_state
                    &&& accounts.refunds(
                        clean_canister.system_state,
                        state.instructions_left(),
                        original.execution_parameters.instruction_limits.message,
                        original.prepaid_execution_cycles,
                        original.subnet_size,
                        canister.system_state@,
                    )
                }
                &&& result is Ok ==> {
                    &&& canister.execution_state == state.canister.execution_state
                    &&& canister.scheduler_state.compute_allocation
                        == state.canister.scheduler_state.compute_allocation
                }
            },
        },
{
}

/// With accounts that touch only cycles, an execution that ends with an error returns the
/// clean canister with another balance at the most, and with other outstanding costs only if
/// refunds change them: its controllers, certified data, timer, version, history and
/// allocations are those that it had.
pub proof fn law_failed_installations_touch_only_cycles<
    Increment: Fn(SubnetAvailableMemory, NumBytes, NumBytes, NumBytes) -> SubnetAvailableMemory,
    TryDecrement: Fn(SubnetAvailableMemory, NumBytes, NumBytes, NumBytes) -> Result<
        SubnetAvailableMemory,
        SubnetAvailableMemoryError,
    >,
    Debit: Fn(&SystemState, CanisterId) -> SystemState,
    Refund: Fn(&SystemState, NumInstructions, NumInstructions, Cycles, usize) -> SystemState,
>(
    accounts: RoundAccounts<Increment, TryDecrement, Debit, Refund>,
    state: InstallCodeState,
    clean_canister: CanisterStateView,
    original: OriginalContext,
    round_limits: RoundLimits,
    limits_after: RoundLimits,
    outcome: DtsInstallCodeResult,
)
    requires
        accounts.touch_only_cycles(),
        accounts.may_finish(
            state,
            clean_canister,
            original,
            round_limits,
            limits_after,
            outcome,
        ),
    ensures
        match outcome {
            DtsInstallCodeResult::Finished {
                canister,
                message: _,
                instructions_used: _,
                result,
            } => result is Err ==> {
                &&& canister@ == CanisterStateView {
                    system_state: SystemStateView {
                        cycles_balance: canister.system_state.cycles_balance,
                        ingress_induction_cycles_debit:
                            canister.system_state.ingress_induction_cycles_debit,
                        ..clean_canister.system_state
                    },
                    ..clean_canister
                }
                &&& accounts.refund_no_outstanding_costs()
                    ==> canister.system_state.ingress_induction_cycles_debit
                    == clean_canister.system_state.ingress_induction_cycles_debit
            },
        },
{
    law_failed_installations_change_nothing_else(
        accounts,
        state,
        clean_canister,
        original,
        round_limits,
        limits_after,
        outcome,
    );
}

/// An execution succeeds if the subnet has the memory for it and if its canister either asks
/// for no more compute than it had or for no more than is available.
pub proof fn law_installations_that_fit_succeed<
    Increment: Fn(SubnetAvailableMemory, NumBytes, NumBytes, NumBytes) -> SubnetAvailableMemory,
    TryDecrement: Fn(SubnetAvailableMemory, NumBytes, NumBytes, NumBytes) -> Result<
        SubnetAvailableMemory,
        SubnetAvailableMemoryError,
    >,
    Debit: Fn(&SystemState, CanisterId) -> SystemState,
    Refund: Fn(&SystemState, NumInstructions, NumInstructions, Cycles, usize) -> SystemState,
>(
    accounts: RoundAccounts<Increment, TryDecrement, Debit, Refund>,
    state: InstallCodeState,
    clean_canister: CanisterStateView,
    original: OriginalContext,
    round_limits: RoundLimits,
    limits_after: RoundLimits,
    outcome: DtsInstallCodeResult,
)
    requires
        accounts.may_finish(
            state,
            clean_canister,
            original,
            round_limits,
            limits_after,
            outcome,
        ),
        forall|memory: Result<SubnetAvailableMemory, SubnetAvailableMemoryError>| #[trigger]
            accounts.may_take_memory(state, round_limits, memory) ==> memory is Ok,
        state.canister.scheduler_state.compute_allocation.percent
            <= clean_canister.scheduler_state.compute_allocation.percent
            || state.canister.scheduler_state.compute_allocation.percent
            <= crate::settlement::compute_available(
            original.config.compute_capacity,
            crate::settlement::used_by_others(
                round_limits.compute_allocation_used,
                clean_canister.scheduler_state.compute_allocation,
            ),
        ),
    ensures
        match outcome {
            DtsInstallCodeResult::Finished {
                canister: _,
                message: _,
                instructions_used: _,
                result,
            } => result is Ok,
        },
        accounts.may_take_memory(
            state,
            round_limits,
            Ok::<SubnetAvailableMemory, SubnetAvailableMemoryError>(
                limits_after.subnet_available_memory,
            ),
        ),
{
    let memory = choose|memory: Result<SubnetAvailableMemory, SubnetAvailableMemoryError>|
        {
            &&& #[trigger] accounts.may_take_memory(state, round_limits, memory)
            &&& match crate::settlement::settled(
                clean_canister,
                state.canister,
                original.config,
                round_limits,
                memory,
            ) {
                Ok(limits) => {
                    &&& limits_after == limits
                    &&& accounts.may_finish_well(state, clean_canister, original, outcome)
                },
                Err(error) => {
                    &&& limits_after == round_limits
                    &&& accounts.may_finish_early(
                        clean_canister,
                        state.instructions_left(),
                        original,
                        error,
                        outcome,
                    )
                },
            }
        };
    assert(memory == Ok::<SubnetAvailableMemory, SubnetAvailableMemoryError>(
        limits_after.subnet_available_memory,
    ));
}

/// With accounts that count memory exactly, an execution that succeeds takes from the memory
/// of the subnet what it booked as allocated, less what it booked as deallocated.
pub proof fn law_memory_is_taken_as_booked<
    Increment: Fn(SubnetAvailableMemory, NumBytes, NumBytes, NumBytes) -> SubnetAvailableMemory,
    TryDecrement: Fn(SubnetAvailableMemory, NumBytes, NumBytes, NumBytes) -> Result<
        SubnetAvailableMemory,
        SubnetAvailableMemoryError,
    >,
    Debit: Fn(&SystemState, CanisterId) -> SystemState,
    Refund: Fn(&SystemState, NumInstructions, NumInstructions, Cycles, usize) -> SystemState,
>(
    accounts: RoundAccounts<Increment, TryDecrement, Debit, Refund>,
    state: InstallCodeState,
    clean_canister: CanisterStateView,
    original: OriginalContext,
    round_limits: RoundLimits,
    limits_after: RoundLimits,
    outcome: DtsInstallCodeResult,
)
    requires
        accounts.count_memory_exactly(),
        round_limits.subnet_available_memory.execution_memory + state.deallocated_bytes
            <= i64::MAX,
        round_limits.subnet_available_memory.wasm_custom_sections_memory
            + state.deallocated_wasm_custom_sections_bytes <= i64::MAX,
        accounts.may_finish(
            state,
            clean_canister,
            original,
            round_limits,
            limits_after,
            outcome,
        ),
    ensures
        match outcome {
            DtsInstallCodeResult::Finished {
                canister: _,
                message: _,
                instructions_used: _,
                result,
            } => {
                let before = round_limits.subnet_available_memory;
                let after = limits_after.subnet_available_memory;
                &&& result is Ok ==> {
                    &&& after.execution_memory == before.execution_memory
                        + state.deallocated_bytes - state.allocated_bytes
                    &&& after.message_memory == before.message_memory
                        - state.allocated_message_bytes
                    &&& after.wasm_custom_sections_memory == before.wasm_custom_sections_memory
                        + state.deallocated_wasm_custom_sections_bytes
                        - state.allocated_wasm_custom_sections_bytes
                }
                &&& result is Err ==> after == before
            },
        },
{
}

/// A canister whose compute allocation grows leaves at least one percent of the capacity
/// free; and the account of the subnet moves by as much as the allocation of the canister,
/// as long as it covered that allocation before.
pub proof fn law_compute_is_not_oversubscribed(
    old_own: ComputeAllocation,
    new_own: ComputeAllocation,
    compute_allocation_used: u64,
    compute_capacity: u64,
)
    requires
        new_own.percent > old_own.percent ==> crate::settlement::used_by_others(
            compute_allocation_used,
            old_own,
        ) < u64::MAX,
    ensures
        crate::settlement::settled_compute(
            old_own,
            new_own,
            compute_allocation_used,
            compute_capacity,
        ) matches Ok(used) ==> {
            &&& new_own.percent > old_own.percent ==> used < compute_capacity
            &&& compute_allocation_used >= old_own.percent ==> used - compute_allocation_used
                == new_own.percent - old_own.percent
        },
{
}

/// With rate limiting, an execution that succeeds adds the instructions that it reports as
/// used to the debit of its canister. This is said of executions that started with the limit
/// of their message and left no more than that.
pub proof fn law_the_debit_grows_by_the_instructions_used<
    Increment: Fn(SubnetAvailableMemory, NumBytes, NumBytes, NumBytes) -> SubnetAvailableMemory,
    TryDecrement: Fn(SubnetAvailableMemory, NumBytes, NumBytes, NumBytes) -> Result<
        SubnetAvailableMemory,
        SubnetAvailableMemoryError,
    >,
    Debit: Fn(&SystemState, CanisterId) -> SystemState,
    Refund: Fn(&SystemState, NumInstructions, NumInstructions, Cycles, usize) -> SystemState,
>(
    accounts: RoundAccounts<Increment, TryDecrement, Debit, Refund>,
    state: InstallCodeState,
    clean_canister: CanisterStateView,
    original: OriginalContext,
    round_limits: RoundLimits,
    limits_after: RoundLimits,
    outcome: DtsInstallCodeResult,
)
    requires
        original.config.rate_limiting_of_instructions == FlagStatus::Enabled,
        state.message_instruction_limit
            == original.execution_parameters.instruction_limits.message,
        state.instructions_left() <= state.message_instruction_limit,
        accounts.is_ready_to_finish(state, clean_canister, original, round_limits),
        accounts.may_finish(
            state,
            clean_canister,
            original,
            round_limits,
            limits_after,
            outcome,
        ),
    ensures
        match outcome {
            DtsInstallCodeResult::Finished {
                canister,
                message: _,
                instructions_used,
                result,
            } => result is Ok ==> canister.scheduler_state.install_code_debit
                == state.canister.scheduler_state.install_code_debit + instructions_used,
        },
{
}

/// With rate limiting, no installation passes validation on a canister that a successful one
/// has just left, if that one consumed instructions or its canister was in debit before: even
/// where nothing else is objected to, it is rate limited.
pub proof fn law_the_next_installation_is_rate_limited<
    Increment: Fn(SubnetAvailableMemory, NumBytes, NumBytes, NumBytes) -> SubnetAvailableMemory,
    TryDecrement: Fn(SubnetAvailableMemory, NumBytes, NumBytes, NumBytes) -> Result<
        SubnetAvailableMemory,
        SubnetAvailableMemoryError,
    >,
    Debit: Fn(&SystemState, CanisterId) -> SystemState,
    Refund: Fn(&SystemState, NumInstructions, NumInstructions, Cycles, usize) -> SystemState,
>(
    accounts: RoundAccounts<Increment, TryDecrement, Debit, Refund>,
    state: InstallCodeState,
    clean_canister: CanisterStateView,
    original: OriginalContext,
    round_limits: RoundLimits,
    limits_after: RoundLimits,
    outcome: DtsInstallCodeResult,
    next: InstallCodeState,
    next_original: OriginalContext,
    settings: Result<(), CanisterManagerError>,
    verdict: Result<(), CanisterManagerError>,
)
    requires
        original.config.rate_limiting_of_instructions == FlagStatus::Enabled,
        state.canister.scheduler_state.install_code_debit > 0 || state.instructions_left()
            < state.message_instruction_limit,
        accounts.is_ready_to_finish(state, clean_canister, original, round_limits),
        accounts.may_finish(
            state,
            clean_canister,
            original,
            round_limits,
            limits_after,
            outcome,
        ),
        outcome matches DtsInstallCodeResult::Finished { canister, result, .. } && result is Ok
            && next.canister == canister@,
        next_original.config.rate_limiting_of_instructions == FlagStatus::Enabled,
        next.is_verdict(next_original, settings, verdict),
    ensures
        verdict is Err,
        next.canister.is_controlled_by(next_original.sender) && settings is Ok && !(
        next_original.mode == CanisterInstallMode::Install && next.canister.execution_state is Some)
            ==> verdict == Err::<(), CanisterManagerError>(
            CanisterManagerError::InstallCodeRateLimited(next.canister.system_state.canister_id),
        ),
{
}

} // verus!
