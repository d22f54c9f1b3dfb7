//! What each step of `install_code` does to an execution, amount by amount and field by field.

use vstd::prelude::*;

use crate::canister::{
    CanisterState, CanisterStateView, ExecutionState, SystemState, SystemStateView,
};
use crate::context::{
    AppliedChanges, InstructionLimits, OriginalContext, RoundContext, RoundLimits, SettingsRequest,
    SystemStateChanges,
};
use crate::errors::{CanisterManagerError, HypervisorError, HypervisorResult};
use crate::install_model::{
    CanisterStateChanges, InstallCodeState, InstallCodeStep, WasmExecutionOutput,
};
use crate::types::{
    MemoryAllocation, NumBytes, NumInstructions, PrincipalId, StableMemoryHandling, Time,
    PAGE_SIZE,
};

verus! {

// Amounts.

/// The larger of two numbers.
pub open spec fn larger(one: int, other: int) -> int {
    if one > other {
        one
    } else {
        other
    }
}

/// What the parts of a canister are charged for, added up.
pub open spec fn weight(canister: CanisterStateView) -> int {
    canister.system_state.memory_usage + (match canister.execution_state {
        None => 0int,
        Some(code) => code.wasm_binary.memory_usage + code.wasm_memory.memory_usage
            + code.stable_memory.memory_usage + code.exported_globals.memory_usage,
    })
}

/// What a canister takes of the memory of its subnet: its weight, but its reservation at the
/// least.
pub open spec fn holding(canister: CanisterStateView) -> int {
    match canister.system_state.memory_allocation {
        MemoryAllocation::Reserved(bytes) => larger(bytes as int, weight(canister)),
        MemoryAllocation::BestEffort => weight(canister),
    }
}

/// The bytes of the custom sections of a canister.
pub open spec fn sections(canister: CanisterStateView) -> int {
    match canister.execution_state {
        None => 0,
        Some(code) => code.metadata.memory_usage as int,
    }
}

/// A canister uses what its parts are charged for, and may use its reservation or, without
/// one, what others may.
pub proof fn law_canisters_are_charged_for_their_parts(
    canister: CanisterStateView,
    default_limit: NumBytes,
)
    ensures
        canister.bytes_used() == weight(canister),
        canister.is_measurable() <==> weight(canister) <= u64::MAX,
        canister.custom_section_bytes() == sections(canister),
        canister.system_state.memory_allocation matches MemoryAllocation::Reserved(bytes)
            ==> canister.limit_or(default_limit) == bytes,
        canister.system_state.memory_allocation is BestEffort ==> canister.limit_or(default_limit)
            == default_limit,
{
}

/// An allocation guarantees what it reserves, and nothing if it reserves nothing.
pub proof fn law_allocations_guarantee_what_they_reserve(bytes: NumBytes)
    ensures
        MemoryAllocation::Reserved(bytes).reserved() == bytes,
        MemoryAllocation::BestEffort.reserved() == 0,
{
}

/// To use up instructions lowers the limit of the message by that many, as far as there are
/// so many, and leaves the limit of the slice alone.
pub proof fn law_instructions_are_used_up(limits: InstructionLimits, instructions: NumInstructions)
    ensures
        limits.reduced_by(instructions).message == larger(0, limits.message - instructions),
        limits.reduced_by(instructions).max_slice == limits.max_slice,
{
}

// Contents.

/// The view of a canister leaves nothing out: two canisters with the same view agree in every
/// field.
pub proof fn law_views_leave_nothing_out(one: CanisterState, other: CanisterState)
    requires
        one@ == other@,
    ensures
        one.execution_state == other.execution_state,
        one.scheduler_state == other.scheduler_state,
        one.system_state.canister_id == other.system_state.canister_id,
        one.system_state.controllers@ == other.system_state.controllers@,
        one.system_state.canister_version == other.system_state.canister_version,
        one.system_state.global_timer == other.system_state.global_timer,
        one.system_state.certified_data@ == other.system_state.certified_data@,
        one.system_state.memory_allocation == other.system_state.memory_allocation,
        one.system_state.cycles_balance == other.system_state.cycles_balance,
        one.system_state.ingress_induction_cycles_debit
            == other.system_state.ingress_induction_cycles_debit,
        one.system_state.canister_history@ == other.system_state.canister_history@,
        one.system_state.memory_usage == other.system_state.memory_usage,
{
    assert(one.system_state@ == other.system_state@);
}

/// The view of a canister shows each of its fields as it is.
pub proof fn law_views_show_the_fields(canister: CanisterState)
    ensures
        canister@.execution_state == canister.execution_state,
        canister@.scheduler_state == canister.scheduler_state,
        canister@.system_state == canister.system_state@,
        canister@.system_state.canister_id == canister.system_state.canister_id,
        canister@.system_state.controllers == canister.system_state.controllers@,
        canister@.system_state.canister_version == canister.system_state.canister_version,
        canister@.system_state.global_timer == canister.system_state.global_timer,
        canister@.system_state.certified_data == canister.system_state.certified_data@,
        canister@.system_state.memory_allocation == canister.system_state.memory_allocation,
        canister@.system_state.cycles_balance == canister.system_state.cycles_balance,
        canister@.system_state.ingress_induction_cycles_debit
            == canister.system_state.ingress_induction_cycles_debit,
        canister@.system_state.canister_history == canister.system_state.canister_history@,
        canister@.system_state.memory_usage == canister.system_state.memory_usage,
{
}

/// An execution starts with the clean canister and the parameters that it was given, with no
/// step performed and nothing booked.
pub proof fn law_executions_start_clean(clean_canister: CanisterStateView, original: OriginalContext)
    ensures
        ({
            let start = InstallCodeState::initial(clean_canister, original);
            &&& start.canister == clean_canister
            &&& start.steps.len() == 0
            &&& start.message_instruction_limit
                == original.execution_parameters.instruction_limits.message
            &&& start.execution_parameters == original.execution_parameters
            &&& start.allocated_bytes == 0
            &&& start.allocated_message_bytes == 0
            &&& start.allocated_wasm_custom_sections_bytes == 0
            &&& start.deallocated_bytes == 0
            &&& start.deallocated_wasm_custom_sections_bytes == 0
            &&& start.total_heap_delta == 0
        }),
{
}

/// Where the books of two executions agree.
pub open spec fn same_books(one: InstallCodeState, other: InstallCodeState) -> bool {
    &&& one.allocated_bytes == other.allocated_bytes
    &&& one.allocated_message_bytes == other.allocated_message_bytes
    &&& one.allocated_wasm_custom_sections_bytes == other.allocated_wasm_custom_sections_bytes
    &&& one.deallocated_bytes == other.deallocated_bytes
    &&& one.deallocated_wasm_custom_sections_bytes
        == other.deallocated_wasm_custom_sections_bytes
    &&& one.total_heap_delta == other.total_heap_delta
}

// Validation.

/// Only a controller may change a canister, and who is none learns who is.
pub proof fn law_only_controllers_are_let_through(
    canister: CanisterStateView,
    controller: PrincipalId,
    result: Result<(), CanisterManagerError>,
)
    ensures
        canister.is_controlled_by(controller) <==> exists|i: int|
            0 <= i < canister.system_state.controllers.len()
                && #[trigger] canister.system_state.controllers[i] == controller,
        canister.rejects_controller(controller, result) ==> {
            &&& result matches Err(CanisterManagerError::CanisterInvalidController {
                canister_id,
                controllers_expected,
                controller_provided,
            })
            &&& canister_id == canister.system_state.canister_id
            &&& controllers_expected@ == canister.system_state.controllers
            &&& controller_provided == controller
        },
{
}

/// An installation passes validation just if its sender is a controller, the settings are
/// accepted, it is not to go over existing code in mode `Install`, and its canister is not in
/// debit while installations are rate limited.
pub proof fn law_what_passes_validation(
    state: InstallCodeState,
    original: OriginalContext,
    settings: Result<(), CanisterManagerError>,
    verdict: Result<(), CanisterManagerError>,
)
    requires
        state.is_verdict(original, settings, verdict),
    ensures
        verdict is Ok <==> {
            &&& state.canister.system_state.controllers.contains(original.sender)
            &&& settings is Ok
            &&& original.mode is Install ==> state.canister.execution_state is None
            &&& original.config.rate_limiting_of_instructions is Enabled
                ==> state.canister.scheduler_state.install_code_debit == 0
        },
{
}

/// In mode `Install` no canister with code passes validation, whatever the configuration; and
/// if the sender is a controller and the settings are accepted, this is the objection.
pub proof fn law_install_never_goes_over_code(
    state: InstallCodeState,
    original: OriginalContext,
    settings: Result<(), CanisterManagerError>,
    verdict: Result<(), CanisterManagerError>,
)
    requires
        state.is_verdict(original, settings, verdict),
        original.mode is Install,
        state.canister.execution_state is Some,
    ensures
        verdict is Err,
        state.canister.system_state.controllers.contains(original.sender) && settings is Ok
            ==> verdict == Err::<(), CanisterManagerError>(
            CanisterManagerError::CanisterNonEmpty(state.canister.system_state.canister_id),
        ),
{
}

/// Of several objections the first counts: a sender without control, then the settings, then
/// existing code, then the rate limit.
pub proof fn law_the_first_objection_counts(
    state: InstallCodeState,
    original: OriginalContext,
    settings: Result<(), CanisterManagerError>,
    verdict: Result<(), CanisterManagerError>,
)
    requires
        state.is_verdict(original, settings, verdict),
        verdict is Err,
    ensures
        !state.canister.system_state.controllers.contains(original.sender) ==> {
            &&& verdict matches Err(CanisterManagerError::CanisterInvalidController {
                canister_id,
                controllers_expected,
                controller_provided,
            })
            &&& canister_id == state.canister.system_state.canister_id
            &&& controllers_expected@ == state.canister.system_state.controllers
            &&& controller_provided == original.sender
        },
        state.canister.system_state.controllers.contains(original.sender) && settings is Err
            ==> verdict == settings,
        state.canister.system_state.controllers.contains(original.sender) && settings is Ok
            && original.mode is Install && state.canister.execution_state is Some ==> verdict
            == Err::<(), CanisterManagerError>(
            CanisterManagerError::CanisterNonEmpty(state.canister.system_state.canister_id),
        ),
        state.canister.system_state.controllers.contains(original.sender) && settings is Ok && !(
        original.mode is Install && state.canister.execution_state is Some) ==> verdict == Err::<
            (),
            CanisterManagerError,
        >(
            CanisterManagerError::InstallCodeRateLimited(
                state.canister.system_state.canister_id,
            ),
        ),
{
}

/// What is asked about settings are the requested allocations and no other setting, beside
/// what the canister has and uses and what the subnet has left.
pub proof fn law_what_is_asked_about_settings(
    state: InstallCodeState,
    original: OriginalContext,
    round_limits: RoundLimits,
)
    requires
        weight(state.canister) <= u64::MAX,
    ensures
        ({
            let request = state.settings_request(original, round_limits);
            &&& request.settings.controller is None
            &&& request.settings.controllers is None
            &&& request.settings.compute_allocation == original.requested_compute_allocation
            &&& request.settings.memory_allocation == original.requested_memory_allocation
            &&& request.settings.freezing_threshold is None
            &&& request.canister_memory_usage == weight(state.canister)
            &&& request.canister_memory_allocation == state.canister.system_state.memory_allocation
            &&& request.canister_compute_allocation
                == state.canister.scheduler_state.compute_allocation
            &&& request.subnet_available_memory == round_limits.subnet_available_memory
            &&& request.subnet_compute_allocation_used == round_limits.compute_allocation_used
            &&& request.subnet_compute_capacity == original.config.compute_capacity
            &&& request.max_controllers == original.config.max_controllers
        }),
{
}

/// A validation that is up to the settings, because the sender is a controller, asks for a
/// verdict on them and heeds the answer: it fails with every objection, and passes just if
/// there is none, none to existing code and none for the debit. It changes nothing but the list
/// of steps.
pub proof fn law_validations_heed_the_verdict_on_settings<
    Validate: Fn(SettingsRequest) -> Result<(), CanisterManagerError>,
    Apply: Fn(&SystemState, SystemStateChanges, Time) -> AppliedChanges,
>(
    round: RoundContext<Validate, Apply>,
    state: InstallCodeState,
    original: OriginalContext,
    round_limits: RoundLimits,
    after: InstallCodeState,
    result: Result<(), CanisterManagerError>,
)
    requires
        round.may_validate(state, original, round_limits, after, result),
    ensures
        state.canister.system_state.controllers.contains(original.sender) ==> exists|
            settings: Result<(), CanisterManagerError>,
        |
            {
                &&& #[trigger] call_ensures(
                    round.validate_canister_settings,
                    (state.settings_request(original, round_limits),),
                    settings,
                )
                &&& settings is Err ==> result == settings
                &&& result is Ok <==> {
                    &&& settings is Ok
                    &&& original.mode is Install ==> state.canister.execution_state is None
                    &&& original.config.rate_limiting_of_instructions is Enabled
                        ==> state.canister.scheduler_state.install_code_debit == 0
                }
                &&& settings is Ok && original.mode is Install
                    && state.canister.execution_state is Some ==> result == Err::<
                    (),
                    CanisterManagerError,
                >(CanisterManagerError::CanisterNonEmpty(state.canister.system_state.canister_id))
                &&& settings is Ok && result is Err && !(original.mode is Install
                    && state.canister.execution_state is Some) ==> result == Err::<
                    (),
                    CanisterManagerError,
                >(
                    CanisterManagerError::InstallCodeRateLimited(
                        state.canister.system_state.canister_id,
                    ),
                )
            },
        !state.canister.system_state.controllers.contains(original.sender) ==> {
            &&& result matches Err(CanisterManagerError::CanisterInvalidController {
                canister_id,
                controllers_expected,
                controller_provided,
            })
            &&& canister_id == state.canister.system_state.canister_id
            &&& controllers_expected@ == state.canister.system_state.controllers
            &&& controller_provided == original.sender
        },
        after.steps == state.steps.push(InstallCodeStep::ValidateInput),
        after.canister == state.canister,
        after.execution_parameters == state.execution_parameters,
        after.message_instruction_limit == state.message_instruction_limit,
        same_books(after, state),
{
    let settings = choose|settings: Result<(), CanisterManagerError>|
        {
            &&& #[trigger] round.may_judge(state, original, round_limits, settings)
            &&& after == state.noting(InstallCodeStep::ValidateInput)
            &&& state.is_verdict(original, settings, result)
        };
    if state.canister.system_state.controllers.contains(original.sender) {
        assert(call_ensures(
            round.validate_canister_settings,
            (state.settings_request(original, round_limits),),
            settings,
        ));
    }
}

// Replacement.

/// After a replacement the code of the canister is the given one in everything but the stable
/// memory: module, Wasm memory, globals and custom sections are those of the new code, whatever
/// becomes of the stable memory.
pub proof fn law_replacements_bring_the_new_code(
    state: InstallCodeState,
    instructions_from_compilation: NumInstructions,
    execution_state: ExecutionState,
    stable_memory_handling: StableMemoryHandling,
    original: OriginalContext,
)
    ensures
        ({
            let after = state.replacing(
                instructions_from_compilation,
                Ok(execution_state),
                stable_memory_handling,
                original,
            ).0;
            &&& after.canister.execution_state matches Some(code)
            &&& code.wasm_binary == execution_state.wasm_binary
            &&& code.wasm_memory == execution_state.wasm_memory
            &&& code.exported_globals == execution_state.exported_globals
            &&& code.metadata == execution_state.metadata
            &&& stable_memory_handling is Replace ==> code.stable_memory
                == execution_state.stable_memory
            &&& stable_memory_handling is Keep ==> code.stable_memory == (
            match state.canister.execution_state {
                Some(replaced) => replaced.stable_memory,
                None => execution_state.stable_memory,
            })
        }),
{
}

/// A replacement uses up the instructions of the compilation and is listed with the steps,
/// whether it succeeds or not. It leaves alone what it is not about: the system state but for
/// the memory allocation, the debit, the limit of the slice and of the message at the start,
/// the booked message bytes and the heap delta.
pub proof fn law_replacements_leave_the_rest_alone(
    state: InstallCodeState,
    instructions_from_compilation: NumInstructions,
    maybe_execution_state: HypervisorResult<ExecutionState>,
    stable_memory_handling: StableMemoryHandling,
    original: OriginalContext,
)
    ensures
        ({
            let after = state.replacing(
                instructions_from_compilation,
                maybe_execution_state,
                stable_memory_handling,
                original,
            ).0;
            &&& after.steps == state.steps.push(
                InstallCodeStep::ReplaceExecutionStateAndAllocations {
                    instructions_from_compilation,
                    maybe_execution_state,
                    stable_memory_handling,
                },
            )
            &&& after.execution_parameters.instruction_limits.message == larger(
                0,
                state.execution_parameters.instruction_limits.message
                    - instructions_from_compilation,
            )
            &&& after.execution_parameters.instruction_limits.max_slice
                == state.execution_parameters.instruction_limits.max_slice
            &&& after.message_instruction_limit == state.message_instruction_limit
            &&& after.allocated_message_bytes == state.allocated_message_bytes
            &&& after.total_heap_delta == state.total_heap_delta
            &&& after.canister.scheduler_state.install_code_debit
                == state.canister.scheduler_state.install_code_debit
            &&& after.canister.system_state == SystemStateView {
                memory_allocation: after.canister.system_state.memory_allocation,
                ..state.canister.system_state
            }
        }),
{
}

/// A replacement for which there is no code fails with the reason for that, and changes
/// neither the canister nor the books nor the allocations.
pub proof fn law_replacements_without_code_change_nothing(
    state: InstallCodeState,
    instructions_from_compilation: NumInstructions,
    error: HypervisorError,
    stable_memory_handling: StableMemoryHandling,
    original: OriginalContext,
)
    ensures
        ({
            let (after, result) = state.replacing(
                instructions_from_compilation,
                Err(error),
                stable_memory_handling,
                original,
            );
            &&& result == Err::<(), CanisterManagerError>(
                CanisterManagerError::Hypervisor(state.canister.system_state.canister_id, error),
            )
            &&& after.canister == state.canister
            &&& same_books(after, state)
            &&& after.execution_parameters.canister_memory_limit
                == state.execution_parameters.canister_memory_limit
            &&& after.execution_parameters.compute_allocation
                == state.execution_parameters.compute_allocation
            &&& after.execution_parameters.memory_allocation
                == state.execution_parameters.memory_allocation
        }),
{
}

/// A replacement with code puts the requested allocations in place, or keeps those of the
/// canister where nothing is requested; and the execution goes by them from then on.
pub proof fn law_replacements_bring_the_requested_allocations(
    state: InstallCodeState,
    instructions_from_compilation: NumInstructions,
    execution_state: ExecutionState,
    stable_memory_handling: StableMemoryHandling,
    original: OriginalContext,
)
    ensures
        ({
            let after = state.replacing(
                instructions_from_compilation,
                Ok(execution_state),
                stable_memory_handling,
                original,
            ).0;
            let compute = after.canister.scheduler_state.compute_allocation;
            let memory = after.canister.system_state.memory_allocation;
            &&& original.requested_compute_allocation matches Some(requested) ==> compute
                == requested
            &&& original.requested_compute_allocation is None ==> compute
                == state.canister.scheduler_state.compute_allocation
            &&& original.requested_memory_allocation matches Some(requested) ==> memory
                == requested
            &&& original.requested_memory_allocation is None ==> memory
                == state.canister.system_state.memory_allocation
            &&& after.execution_parameters.compute_allocation == compute
            &&& after.execution_parameters.memory_allocation == memory
            &&& memory matches MemoryAllocation::Reserved(bytes)
                ==> after.execution_parameters.canister_memory_limit == bytes
            &&& memory is BestEffort ==> after.execution_parameters.canister_memory_limit
                == state.execution_parameters.canister_memory_limit
        }),
{
}

/// A replacement with code succeeds just if the canister then weighs no more than its
/// reservation, or than the limit of the execution if it has none. If it weighs more, this is
/// what the error says, and nothing is booked.
pub proof fn law_replacements_succeed_within_the_limit(
    state: InstallCodeState,
    instructions_from_compilation: NumInstructions,
    execution_state: ExecutionState,
    stable_memory_handling: StableMemoryHandling,
    original: OriginalContext,
)
    ensures
        ({
            let (after, result) = state.replacing(
                instructions_from_compilation,
                Ok(execution_state),
                stable_memory_handling,
                original,
            );
            let limit: int = match after.canister.system_state.memory_allocation {
                MemoryAllocation::Reserved(bytes) => bytes as int,
                MemoryAllocation::BestEffort =>
                    state.execution_parameters.canister_memory_limit as int,
            };
            &&& result is Ok <==> weight(after.canister) <= limit
            &&& result is Err ==> same_books(after, state)
            &&& result is Err && weight(after.canister) <= u64::MAX ==> {
                &&& result matches Err(CanisterManagerError::NotEnoughMemoryAllocationGiven {
                    memory_allocation_given,
                    memory_usage_needed,
                })
                &&& memory_allocation_given == after.canister.system_state.memory_allocation
                &&& memory_usage_needed == weight(after.canister)
            }
        }),
{
}

/// A replacement that succeeds books by how much the canister takes more of the memory of its
/// subnet as allocated, and by how much it takes less as deallocated; and the same of custom
/// sections. This is said where the books can hold it.
pub proof fn law_replacements_book_growth_and_shrinkage(
    state: InstallCodeState,
    instructions_from_compilation: NumInstructions,
    execution_state: ExecutionState,
    stable_memory_handling: StableMemoryHandling,
    original: OriginalContext,
)
    ensures
        ({
            let (after, result) = state.replacing(
                instructions_from_compilation,
                Ok(execution_state),
                stable_memory_handling,
                original,
            );
            let taken = larger(0, holding(after.canister) - holding(state.canister));
            let given = larger(0, holding(state.canister) - holding(after.canister));
            let sections_taken = larger(0, sections(after.canister) - sections(state.canister));
            let sections_given = larger(0, sections(state.canister) - sections(after.canister));
            result is Ok ==> {
                &&& state.allocated_bytes + taken <= u64::MAX ==> after.allocated_bytes
                    == state.allocated_bytes + taken
                &&& state.deallocated_bytes + given <= u64::MAX ==> after.deallocated_bytes
                    == state.deallocated_bytes + given
                &&& state.allocated_wasm_custom_sections_bytes + sections_taken <= u64::MAX
                    ==> after.allocated_wasm_custom_sections_bytes
                    == state.allocated_wasm_custom_sections_bytes + sections_taken
                &&& state.deallocated_wasm_custom_sections_bytes + sections_given <= u64::MAX
                    ==> after.deallocated_wasm_custom_sections_bytes
                    == state.deallocated_wasm_custom_sections_bytes + sections_given
            }
        }),
{
}

/// A replacement can be carried out wherever the canister can be weighed before and after it,
/// no reservation is given up, and the books have room for both holdings.
pub proof fn law_ordinary_replacements_are_possible(
    state: InstallCodeState,
    instructions_from_compilation: NumInstructions,
    maybe_execution_state: HypervisorResult<ExecutionState>,
    stable_memory_handling: StableMemoryHandling,
    original: OriginalContext,
)
    requires
        weight(state.canister) <= u64::MAX,
        maybe_execution_state is Ok ==> {
            let after = state.replacing(
                instructions_from_compilation,
                maybe_execution_state,
                stable_memory_handling,
                original,
            ).0;
            &&& weight(after.canister) <= u64::MAX
            &&& original.requested_memory_allocation == Some(MemoryAllocation::BestEffort)
                ==> state.canister.system_state.memory_allocation is BestEffort
            &&& state.allocated_bytes + holding(after.canister) <= u64::MAX
            &&& state.deallocated_bytes + holding(state.canister) <= u64::MAX
            &&& state.allocated_wasm_custom_sections_bytes + sections(after.canister) <= u64::MAX
            &&& state.deallocated_wasm_custom_sections_bytes + sections(state.canister)
                <= u64::MAX
        },
    ensures
        state.can_replace(maybe_execution_state, stable_memory_handling, original),
{
}

// Wasm executions.

/// The changes of an execution are due to be taken over: there are some, and the execution
/// ended without an error and without a response.
pub open spec fn has_changes(
    changes: Option<CanisterStateChanges>,
    output: WasmExecutionOutput,
) -> bool {
    &&& changes is Some
    &&& output.wasm_result matches Ok(response)
    &&& response is None
}

/// The handling of an execution takes over how many instructions it left and is listed with
/// the steps, whether it succeeds or not. It leaves the scheduler's state, the other execution
/// parameters, what was booked as deallocated and what was booked of custom sections alone.
pub proof fn law_executions_leave_the_rest_alone<
    Validate: Fn(SettingsRequest) -> Result<(), CanisterManagerError>,
    Apply: Fn(&SystemState, SystemStateChanges, Time) -> AppliedChanges,
>(
    round: RoundContext<Validate, Apply>,
    state: InstallCodeState,
    changes: Option<CanisterStateChanges>,
    output: WasmExecutionOutput,
    original: OriginalContext,
    after: InstallCodeState,
    result: Result<(), CanisterManagerError>,
)
    requires
        round.may_handle(state, changes, output, original, after, result),
    ensures
        after.steps == state.steps.push(
            InstallCodeStep::HandleWasmExecution { canister_state_changes: changes, output },
        ),
        after.execution_parameters.instruction_limits.message == output.num_instructions_left,
        after.execution_parameters.instruction_limits.max_slice
            == state.execution_parameters.instruction_limits.max_slice,
        after.execution_parameters.canister_memory_limit
            == state.execution_parameters.canister_memory_limit,
        after.execution_parameters.compute_allocation
            == state.execution_parameters.compute_allocation,
        after.execution_parameters.memory_allocation
            == state.execution_parameters.memory_allocation,
        after.message_instruction_limit == state.message_instruction_limit,
        after.canister.scheduler_state == state.canister.scheduler_state,
        after.deallocated_bytes == state.deallocated_bytes,
        after.deallocated_wasm_custom_sections_bytes
            == state.deallocated_wasm_custom_sections_bytes,
        after.allocated_wasm_custom_sections_bytes == state.allocated_wasm_custom_sections_bytes,
{
}

/// An execution that failed ends the handling with its error, and one that left no changes is
/// handled successfully; neither changes the canister or the books.
pub proof fn law_executions_without_changes_change_nothing<
    Validate: Fn(SettingsRequest) -> Result<(), CanisterManagerError>,
    Apply: Fn(&SystemState, SystemStateChanges, Time) -> AppliedChanges,
>(
    round: RoundContext<Validate, Apply>,
    state: InstallCodeState,
    changes: Option<CanisterStateChanges>,
    output: WasmExecutionOutput,
    original: OriginalContext,
    after: InstallCodeState,
    result: Result<(), CanisterManagerError>,
)
    requires
        round.may_handle(state, changes, output, original, after, result),
        !has_changes(changes, output),
    ensures
        after.canister == state.canister,
        same_books(after, state),
        output.wasm_result matches Err(error) ==> result == Err::<(), CanisterManagerError>(
            CanisterManagerError::Hypervisor(state.canister.system_state.canister_id, error),
        ),
        output.wasm_result is Ok ==> result is Ok,
{
}

/// The changes of an execution to the system state are applied to that of the canister, at the
/// time of the installation, and what comes of that is the new system state. If they can be
/// applied, memories and globals are taken over too, and the module and its custom sections
/// stay; if not, the handling fails with the reason, and neither code nor books change.
pub proof fn law_changes_are_taken_over<
    Validate: Fn(SettingsRequest) -> Result<(), CanisterManagerError>,
    Apply: Fn(&SystemState, SystemStateChanges, Time) -> AppliedChanges,
>(
    round: RoundContext<Validate, Apply>,
    state: InstallCodeState,
    changes: CanisterStateChanges,
    output: WasmExecutionOutput,
    original: OriginalContext,
    after: InstallCodeState,
    result: Result<(), CanisterManagerError>,
)
    requires
        round.may_handle(state, Some(changes), output, original, after, result),
        has_changes(Some(changes), output),
        state.canister.execution_state is Some,
    ensures
        exists|asked: SystemState, answer: AppliedChanges|
            {
                &&& asked@ == state.canister.system_state
                &&& #[trigger] call_ensures(
                    round.apply_changes,
                    (&asked, changes.system_state_changes, original.time),
                    answer,
                )
                &&& after.canister.system_state == answer.0@
                &&& answer.1 matches Err(error) ==> {
                    &&& result == Err::<(), CanisterManagerError>(
                        CanisterManagerError::Hypervisor(answer.0.canister_id, error),
                    )
                    &&& after.canister.execution_state == state.canister.execution_state
                    &&& same_books(after, state)
                }
                &&& answer.1 is Ok ==> {
                    let old = state.canister.execution_state->0;
                    &&& result is Ok
                    &&& after.canister.execution_state matches Some(code)
                    &&& code.wasm_memory == changes.wasm_memory
                    &&& code.stable_memory == changes.stable_memory
                    &&& code.exported_globals == changes.globals
                    &&& code.wasm_binary == old.wasm_binary
                    &&& code.metadata == old.metadata
                }
            },
{
    let applied = choose|applied: crate::context::AppliedChangesView|
        {
            &&& #[trigger] round.may_apply(state, Some(changes), output, original, applied)
            &&& (after, result) == state.handling(Some(changes), output, applied)
        };
    assert(round.applies(
        state.canister.system_state,
        changes.system_state_changes,
        original.time,
        applied,
    ));
    let (asked, answer) = choose|asked: SystemState, answer: AppliedChanges|
        {
            &&& asked@ == state.canister.system_state
            &&& crate::context::view_of_applied(answer) == applied
            &&& #[trigger] call_ensures(
                round.apply_changes,
                (&asked, changes.system_state_changes, original.time),
                answer,
            )
        };
    assert(call_ensures(
        round.apply_changes,
        (&asked, changes.system_state_changes, original.time),
        answer,
    ));
    assert(answer.0@ == applied.0);
}

/// An execution whose changes are taken over in a canister without a reservation raises what
/// is booked as allocated by what it allocated, of memory and of messages; in a canister with
/// a reservation it does not. Either way the heap delta grows by the pages that it wrote to.
pub proof fn law_executions_book_what_they_allocate<
    Validate: Fn(SettingsRequest) -> Result<(), CanisterManagerError>,
    Apply: Fn(&SystemState, SystemStateChanges, Time) -> AppliedChanges,
>(
    round: RoundContext<Validate, Apply>,
    state: InstallCodeState,
    changes: Option<CanisterStateChanges>,
    output: WasmExecutionOutput,
    original: OriginalContext,
    after: InstallCodeState,
    result: Result<(), CanisterManagerError>,
)
    requires
        round.may_handle(state, changes, output, original, after, result),
        has_changes(changes, output),
        result is Ok,
    ensures
        after.canister.system_state.memory_allocation is BestEffort && state.allocated_bytes
            + output.allocated_bytes <= u64::MAX ==> after.allocated_bytes - state.allocated_bytes
            == output.allocated_bytes,
        after.canister.system_state.memory_allocation is BestEffort
            && state.allocated_message_bytes + output.allocated_message_bytes <= u64::MAX
            ==> after.allocated_message_bytes - state.allocated_message_bytes
            == output.allocated_message_bytes,
        after.canister.system_state.memory_allocation is Reserved ==> after.allocated_bytes
            == state.allocated_bytes && after.allocated_message_bytes
            == state.allocated_message_bytes,
        state.total_heap_delta + output.instance_stats.dirty_pages * PAGE_SIZE <= u64::MAX
            ==> after.total_heap_delta - state.total_heap_delta
            == output.instance_stats.dirty_pages * PAGE_SIZE,
{
}

/// An execution without a response can be handled wherever there is code to change and the
/// books have room for what it allocated; and one that left no changes, in any case.
pub proof fn law_ordinary_executions_can_be_handled<
    Validate: Fn(SettingsRequest) -> Result<(), CanisterManagerError>,
    Apply: Fn(&SystemState, SystemStateChanges, Time) -> AppliedChanges,
>(
    round: RoundContext<Validate, Apply>,
    state: InstallCodeState,
    changes: Option<CanisterStateChanges>,
    output: WasmExecutionOutput,
    original: OriginalContext,
)
    requires
        !(output.wasm_result matches Ok(response) && response is Some),
        has_changes(changes, output) ==> {
            &&& state.canister.execution_state is Some
            &&& state.allocated_bytes + output.allocated_bytes <= u64::MAX
            &&& state.allocated_message_bytes + output.allocated_message_bytes <= u64::MAX
            &&& output.instance_stats.dirty_pages * PAGE_SIZE <= usize::MAX
            &&& state.total_heap_delta + output.instance_stats.dirty_pages * PAGE_SIZE <= u64::MAX
        },
    ensures
        round.is_ready_to_handle(state, changes, output, original),
{
}

// Runs.

/// To replay a step is to perform it anew, with the services and limits of the round.
pub proof fn law_steps_are_performed_anew<
    Validate: Fn(SettingsRequest) -> Result<(), CanisterManagerError>,
    Apply: Fn(&SystemState, SystemStateChanges, Time) -> AppliedChanges,
>(
    round: RoundContext<Validate, Apply>,
    state: InstallCodeState,
    original: OriginalContext,
    round_limits: RoundLimits,
    after: InstallCodeState,
    result: Result<(), CanisterManagerError>,
    instructions_from_compilation: NumInstructions,
    maybe_execution_state: HypervisorResult<ExecutionState>,
    stable_memory_handling: StableMemoryHandling,
    canister_state_changes: Option<CanisterStateChanges>,
    output: WasmExecutionOutput,
)
    ensures
        round.may_perform(
            state,
            InstallCodeStep::ValidateInput,
            original,
            round_limits,
            after,
            result,
        ) <==> round.may_validate(state, original, round_limits, after, result),
        round.may_perform(
            state,
            InstallCodeStep::ReplaceExecutionStateAndAllocations {
                instructions_from_compilation,
                maybe_execution_state,
                stable_memory_handling,
            },
            original,
            round_limits,
            after,
            result,
        ) <==> (after, result) == state.replacing(
            instructions_from_compilation,
            maybe_execution_state,
            stable_memory_handling,
            original,
        ),
        round.may_perform(
            state,
            InstallCodeStep::HandleWasmExecution { canister_state_changes, output },
            original,
            round_limits,
            after,
            result,
        ) <==> round.may_handle(state, canister_state_changes, output, original, after, result),
{
}

/// The first of `states` is `start`, and each of `steps` in its turn takes one of them to the
/// next successfully, under its own of the `limits`.
pub open spec fn goes_through<
    Validate: Fn(SettingsRequest) -> Result<(), CanisterManagerError>,
    Apply: Fn(&SystemState, SystemStateChanges, Time) -> AppliedChanges,
>(
    round: RoundContext<Validate, Apply>,
    states: Seq<InstallCodeState>,
    steps: Seq<InstallCodeStep>,
    original: OriginalContext,
    limits: Seq<RoundLimits>,
) -> bool {
    &&& states.len() == steps.len() + 1
    &&& limits.len() == steps.len()
    &&& forall|i: int|
        0 <= i < steps.len() ==> round.may_perform(
            states[i],
            #[trigger] steps[i],
            original,
            limits[i],
            states[i + 1],
            Ok::<(), CanisterManagerError>(()),
        )
}

/// The same limits, so many times.
pub open spec fn throughout(round_limits: RoundLimits, times: nat) -> Seq<RoundLimits> {
    Seq::new(times, |i: int| round_limits)
}

/// A replay that succeeds has performed every step, each on what the one before it left and
/// each successfully; and one that fails has done so up to the step that failed, whose error it
/// reports.
pub proof fn law_replays_end_at_the_first_failure<
    Validate: Fn(SettingsRequest) -> Result<(), CanisterManagerError>,
    Apply: Fn(&SystemState, SystemStateChanges, Time) -> AppliedChanges,
>(
    round: RoundContext<Validate, Apply>,
    start: InstallCodeState,
    steps: Seq<InstallCodeStep>,
    original: OriginalContext,
    round_limits: RoundLimits,
    end: InstallCodeState,
    result: Result<(), CanisterManagerError>,
)
    requires
        round.may_replay(start, steps, original, round_limits, end, result),
    ensures
        result is Ok ==> exists|states: Seq<InstallCodeState>|
            {
                &&& #[trigger] goes_through(
                    round,
                    states,
                    steps,
                    original,
                    throughout(round_limits, steps.len()),
                )
                &&& states[0] == start
                &&& states.last() == end
            },
        result is Err ==> exists|states: Seq<InstallCodeState>, failing: int|
            {
                &&& 0 <= failing < steps.len()
                &&& #[trigger] goes_through(
                    round,
                    states,
                    steps.take(failing),
                    original,
                    throughout(round_limits, failing as nat),
                )
                &&& states[0] == start
                &&& round.may_perform(
                    states.last(),
                    steps[failing],
                    original,
                    round_limits,
                    end,
                    result,
                )
            },
    decreases steps.len(),
{
    if steps.len() == 0 {
        let states = seq![start];
        assert(goes_through(
            round,
            states,
            steps,
            original,
            throughout(round_limits, steps.len()),
        ));
    } else {
        let rest = steps.drop_first();
        let (after, outcome) = choose|
            after: InstallCodeState,
            outcome: Result<(), CanisterManagerError>,
        |
            {
                &&& #[trigger] round.may_perform(
                    start,
                    steps[0],
                    original,
                    round_limits,
                    after,
                    outcome,
                )
                &&& outcome is Err ==> end == after && result == outcome
                &&& outcome is Ok ==> round.may_replay(
                    after,
                    rest,
                    original,
                    round_limits,
                    end,
                    result,
                )
            };
        if outcome is Err {
            let states = seq![start];
            let failing: int = 0;
            assert(goes_through(
                round,
                states,
                steps.take(failing),
                original,
                throughout(round_limits, failing as nat),
            ));
        } else {
            assert(outcome is Ok && outcome->Ok_0 == ());
            assert(outcome == Ok::<(), CanisterManagerError>(()));
            law_replays_end_at_the_first_failure(
                round,
                after,
                rest,
                original,
                round_limits,
                end,
                result,
            );
            if result is Ok {
                let later = choose|states: Seq<InstallCodeState>|
                    {
                        &&& #[trigger] goes_through(
                            round,
                            states,
                            rest,
                            original,
                            throughout(round_limits, rest.len()),
                        )
                        &&& states[0] == after
                        &&& states.last() == end
                    };
                lemma_goes_through_from_before(
                    round,
                    start,
                    steps[0],
                    later,
                    rest,
                    original,
                    round_limits,
                );
                assert(seq![steps[0]] + rest =~= steps);
                let states = seq![start] + later;
                assert(goes_through(
                    round,
                    states,
                    steps,
                    original,
                    throughout(round_limits, steps.len()),
                ));
            } else {
                let (later, failing) = choose|states: Seq<InstallCodeState>, failing: int|
                    {
                        &&& 0 <= failing < rest.len()
                        &&& #[trigger] goes_through(
                            round,
                            states,
                            rest.take(failing),
                            original,
                            throughout(round_limits, failing as nat),
                        )
                        &&& states[0] == after
                        &&& round.may_perform(
                            states.last(),
                            rest[failing],
                            original,
                            round_limits,
                            end,
                            result,
                        )
                    };
                lemma_goes_through_from_before(
                    round,
                    start,
                    steps[0],
                    later,
                    rest.take(failing),
                    original,
                    round_limits,
                );
                assert(seq![steps[0]] + rest.take(failing) =~= steps.take(failing + 1));
                let states = seq![start] + later;
                assert(states.last() == later.last());
                assert(goes_through(
                    round,
                    states,
                    steps.take(failing + 1),
                    original,
                    throughout(round_limits, (failing + 1) as nat),
                ));
            }
        }
    }
}

proof fn lemma_goes_through_from_before<
    Validate: Fn(SettingsRequest) -> Result<(), CanisterManagerError>,
    Apply: Fn(&SystemState, SystemStateChanges, Time) -> AppliedChanges,
>(
    round: RoundContext<Validate, Apply>,
    start: InstallCodeState,
    step: InstallCodeStep,
    states: Seq<InstallCodeState>,
    steps: Seq<InstallCodeStep>,
    original: OriginalContext,
    round_limits: RoundLimits,
)
    requires
        goes_through(
            round,
            states,
            steps,
            original,
            throughout(round_limits, steps.len()),
        ),
        round.may_perform(
            start,
            step,
            original,
            round_limits,
            states[0],
            Ok::<(), CanisterManagerError>(()),
        ),
    ensures
        goes_through(
            round,
            seq![start] + states,
            seq![step] + steps,
            original,
            throughout(round_limits, steps.len() + 1),
        ),
{
    let all_states = seq![start] + states;
    let all_steps = seq![step] + steps;
    assert forall|i: int| 0 <= i < all_steps.len() implies round.may_perform(
        all_states[i],
        #[trigger] all_steps[i],
        original,
        throughout(round_limits, steps.len() + 1)[i],
        all_states[i + 1],
        Ok::<(), CanisterManagerError>(()),
    ) by {
        if i > 0 {
            assert(all_steps[i] == steps[i - 1]);
            assert(all_states[i] == states[i - 1]);
            assert(all_states[i + 1] == states[i - 1 + 1]);
        }
    }
}

/// What a successful step books as allocated memory.
pub open spec fn memory_booked_by(
    before: InstallCodeState,
    step: InstallCodeStep,
    after: InstallCodeState,
) -> int {
    match step {
        InstallCodeStep::ValidateInput => 0,
        InstallCodeStep::ReplaceExecutionStateAndAllocations { .. } => larger(
            0,
            holding(after.canister) - holding(before.canister),
        ),
        InstallCodeStep::HandleWasmExecution { canister_state_changes, output } => if has_changes(
            canister_state_changes,
            output,
        ) && after.canister.system_state.memory_allocation is BestEffort {
            output.allocated_bytes as int
        } else {
            0
        },
    }
}

/// What a successful step books as allocated for messages.
pub open spec fn message_memory_booked_by(
    step: InstallCodeStep,
    after: InstallCodeState,
) -> int {
    match step {
        InstallCodeStep::HandleWasmExecution { canister_state_changes, output } => if has_changes(
            canister_state_changes,
            output,
        ) && after.canister.system_state.memory_allocation is BestEffort {
            output.allocated_message_bytes as int
        } else {
            0
        },
        _ => 0,
    }
}

/// What a successful step adds to the heap delta.
pub open spec fn heap_delta_of(step: InstallCodeStep) -> int {
    match step {
        InstallCodeStep::HandleWasmExecution { canister_state_changes, output } => if has_changes(
            canister_state_changes,
            output,
        ) {
            output.instance_stats.dirty_pages * PAGE_SIZE
        } else {
            0
        },
        _ => 0,
    }
}

/// All of the numbers together.
pub open spec fn total(numbers: Seq<int>) -> int
    decreases numbers.len(),
{
    if numbers.len() == 0 {
        0
    } else {
        total(numbers.drop_last()) + numbers.last()
    }
}

/// Over a run of steps that were ready to be performed, what is booked as allocated is the sum
/// of what the steps allocated, and so are the message bytes and the heap delta: no step
/// forgets what an earlier one booked.
pub proof fn law_runs_book_the_sum_of_their_steps<
    Validate: Fn(SettingsRequest) -> Result<(), CanisterManagerError>,
    Apply: Fn(&SystemState, SystemStateChanges, Time) -> AppliedChanges,
>(
    round: RoundContext<Validate, Apply>,
    states: Seq<InstallCodeState>,
    steps: Seq<InstallCodeStep>,
    original: OriginalContext,
    limits: Seq<RoundLimits>,
)
    requires
        goes_through(round, states, steps, original, limits),
        forall|i: int|
            0 <= i < steps.len() ==> round.is_ready(states[i], #[trigger] steps[i], original),
    ensures
        states.last().allocated_bytes == states[0].allocated_bytes + total(
            Seq::new(
                steps.len(),
                |i: int| memory_booked_by(states[i], steps[i], states[i + 1]),
            ),
        ),
        states.last().allocated_message_bytes == states[0].allocated_message_bytes + total(
            Seq::new(steps.len(), |i: int| message_memory_booked_by(steps[i], states[i + 1])),
        ),
        states.last().total_heap_delta == states[0].total_heap_delta + total(
            Seq::new(steps.len(), |i: int| heap_delta_of(steps[i])),
        ),
    decreases steps.len(),
{
    if steps.len() > 0 {
        let last = steps.len() - 1;
        let earlier = states.drop_last();
        let earlier_steps = steps.drop_last();
        assert forall|i: int| 0 <= i < earlier_steps.len() implies round.may_perform(
            earlier[i],
            #[trigger] earlier_steps[i],
            original,
            limits.drop_last()[i],
            earlier[i + 1],
            Ok::<(), CanisterManagerError>(()),
        ) && round.is_ready(earlier[i], earlier_steps[i], original) by {
            assert(earlier_steps[i] == steps[i]);
        }
        law_runs_book_the_sum_of_their_steps(
            round,
            earlier,
            earlier_steps,
            original,
            limits.drop_last(),
        );
        let memory = Seq::new(
            steps.len(),
            |i: int| memory_booked_by(states[i], steps[i], states[i + 1]),
        );
        let messages = Seq::new(
            steps.len(),
            |i: int| message_memory_booked_by(steps[i], states[i + 1]),
        );
        let heap = Seq::new(steps.len(), |i: int| heap_delta_of(steps[i]));
        assert(memory.drop_last() =~= Seq::new(
            earlier_steps.len(),
            |i: int| memory_booked_by(earlier[i], earlier_steps[i], earlier[i + 1]),
        ));
        assert(messages.drop_last() =~= Seq::new(
            earlier_steps.len(),
            |i: int| message_memory_booked_by(earlier_steps[i], earlier[i + 1]),
        ));
        assert(heap.drop_last() =~= Seq::new(
            earlier_steps.len(),
            |i: int| heap_delta_of(earlier_steps[i]),
        ));
        assert(states.last() == states[last + 1]);
        assert(earlier.last() == states[last]);
        assert(round.may_perform(
            states[last],
            steps[last],
            original,
            limits[last],
            states[last + 1],
            Ok::<(), CanisterManagerError>(()),
        ));
        assert(round.is_ready(states[last], steps[last], original));
        lemma_step_books(
            round,
            states[last],
            steps[last],
            original,
            limits[last],
            states[last + 1],
        );
    }
}

proof fn lemma_step_books<
    Validate: Fn(SettingsRequest) -> Result<(), CanisterManagerError>,
    Apply: Fn(&SystemState, SystemStateChanges, Time) -> AppliedChanges,
>(
    round: RoundContext<Validate, Apply>,
    state: InstallCodeState,
    step: InstallCodeStep,
    original: OriginalContext,
    round_limits: RoundLimits,
    after: InstallCodeState,
)
    requires
        round.is_ready(state, step, original),
        round.may_perform(
            state,
            step,
            original,
            round_limits,
            after,
            Ok::<(), CanisterManagerError>(()),
        ),
    ensures
        after.allocated_bytes == state.allocated_bytes + memory_booked_by(state, step, after),
        after.allocated_message_bytes == state.allocated_message_bytes + message_memory_booked_by(
            step,
            after,
        ),
        after.total_heap_delta == state.total_heap_delta + heap_delta_of(step),
{
}

} // verus!
