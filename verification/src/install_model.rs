//! What the steps of `install_code` do, as functions and relations on states.

use vstd::prelude::*;

use crate::canister::{
    CanisterStateView, ExecutionState, Globals, Memory, SystemState, SystemStateView,
};
use crate::context::{
    AppliedChanges, AppliedChangesView, ExecutionParameters, OriginalContext, RoundContext,
    RoundLimits, SettingsRequest, SystemStateChanges,
};
use crate::errors::{CanisterManagerError, HypervisorError, HypervisorResult};
use crate::types::{
    CanisterInstallMode, CanisterSettings, FlagStatus, MemoryAllocation, NumBytes,
    NumInstructions, StableMemoryHandling, Time, PAGE_SIZE,
};

verus! {

/// A reply or a reject of a Wasm execution, by its number.
#[derive(Clone, Copy, Debug, PartialEq, Eq)]
pub struct WasmResult {
    pub id: u64,
}

/// Counters of a Wasm execution.
#[derive(Clone, Copy, Debug, PartialEq, Eq)]
pub struct InstanceStats {
    /// The pages that the execution wrote to.
    pub dirty_pages: usize,
}

/// What a Wasm execution hands back.
#[derive(Clone, Copy, Debug, PartialEq, Eq)]
pub struct WasmExecutionOutput {
    pub wasm_result: Result<Option<WasmResult>, HypervisorError>,
    pub num_instructions_left: NumInstructions,
    pub allocated_bytes: NumBytes,
    pub allocated_message_bytes: NumBytes,
    pub instance_stats: InstanceStats,
}

/// The changes that a Wasm execution made to its canister.
#[derive(Clone, Copy, Debug, PartialEq, Eq)]
pub struct CanisterStateChanges {
    pub globals: Globals,
    pub wasm_memory: Memory,
    pub stable_memory: Memory,
    pub system_state_changes: SystemStateChanges,
}

/// The main steps of `install_code` execution that may fail with an error or
/// change the canister state.
#[derive(Clone, Copy, Debug, PartialEq, Eq)]
pub enum InstallCodeStep {
    ValidateInput,
    ReplaceExecutionStateAndAllocations {
        instructions_from_compilation: NumInstructions,
        maybe_execution_state: HypervisorResult<ExecutionState>,
        stable_memory_handling: StableMemoryHandling,
    },
    HandleWasmExecution {
        canister_state_changes: Option<CanisterStateChanges>,
        output: WasmExecutionOutput,
    },
}

/// By how much `new` exceeds `old`, or zero.
pub open spec fn growth(old_bytes: int, new_bytes: int) -> int {
    if new_bytes > old_bytes {
        new_bytes - old_bytes
    } else {
        0
    }
}

/// The bytes that a canister holds of the memory of its subnet: its reservation, or what
/// it uses if that is more.
pub open spec fn bytes_held(memory_allocation: MemoryAllocation, memory_usage: int) -> int {
    if memory_allocation.reserved() > memory_usage {
        memory_allocation.reserved() as int
    } else {
        memory_usage
    }
}

/// `requested`, or `current` where nothing is requested.
pub open spec fn requested_or<T>(requested: Option<T>, current: T) -> T {
    match requested {
        Some(value) => value,
        None => current,
    }
}

/// Whether the changes of an execution are due to be applied: it left some, and it ended
/// without an error and without a response.
pub open spec fn changes_are_due(
    changes: Option<CanisterStateChanges>,
    output: WasmExecutionOutput,
) -> bool {
    changes is Some && output.wasm_result == Ok::<Option<WasmResult>, HypervisorError>(None)
}

/// The state of an `install_code` execution.
#[verifier::ext_equal]
pub struct InstallCodeState {
    /// The current canister state.
    pub canister: CanisterStateView,
    /// All steps that were performed on the current canister state.
    pub steps: Seq<InstallCodeStep>,
    /// The instruction limit at the start.
    pub message_instruction_limit: NumInstructions,
    /// The current execution parameters that change after steps.
    pub execution_parameters: ExecutionParameters,
    /// Bytes allocated and deallocated by the steps.
    pub allocated_bytes: NumBytes,
    pub allocated_message_bytes: NumBytes,
    pub allocated_wasm_custom_sections_bytes: NumBytes,
    pub deallocated_bytes: NumBytes,
    pub deallocated_wasm_custom_sections_bytes: NumBytes,
    /// The total heap delta of all steps.
    pub total_heap_delta: NumBytes,
}

impl InstallCodeState {
    /// No step performed yet on `clean_canister`.
    pub open spec fn initial(clean_canister: CanisterStateView, original: OriginalContext) -> Self {
        InstallCodeState {
            canister: clean_canister,
            steps: Seq::empty(),
            message_instruction_limit: original.execution_parameters.instruction_limits.message,
            execution_parameters: original.execution_parameters,
            allocated_bytes: 0,
            allocated_message_bytes: 0,
            allocated_wasm_custom_sections_bytes: 0,
            deallocated_bytes: 0,
            deallocated_wasm_custom_sections_bytes: 0,
            total_heap_delta: 0,
        }
    }

    pub open spec fn instructions_left(self) -> NumInstructions {
        self.execution_parameters.instruction_limits.message
    }

    /// The state with `step` noted as performed.
    pub open spec fn noting(self, step: InstallCodeStep) -> Self {
        InstallCodeState { steps: self.steps.push(step), ..self }
    }

    // Validation of the input.

    /// What the validation of the requested settings is asked.
    pub open spec fn settings_request(
        self,
        original: OriginalContext,
        round_limits: RoundLimits,
    ) -> SettingsRequest {
        SettingsRequest {
            settings: CanisterSettings {
                controller: None,
                controllers: None,
                compute_allocation: original.requested_compute_allocation,
                memory_allocation: original.requested_memory_allocation,
                freezing_threshold: None,
            },
            canister_memory_usage: self.canister.bytes_used() as u64,
            canister_memory_allocation: self.canister.system_state.memory_allocation,
            subnet_available_memory: round_limits.subnet_available_memory,
            canister_compute_allocation: self.canister.scheduler_state.compute_allocation,
            subnet_compute_allocation_used: round_limits.compute_allocation_used,
            subnet_compute_capacity: original.config.compute_capacity,
            max_controllers: original.config.max_controllers,
        }
    }

    /// `result` is the verdict on the input, where `settings` is the verdict on the requested
    /// settings. Of several objections the first one counts.
    pub open spec fn is_verdict(
        self,
        original: OriginalContext,
        settings: Result<(), CanisterManagerError>,
        result: Result<(), CanisterManagerError>,
    ) -> bool {
        let id = self.canister.system_state.canister_id;
        if !self.canister.is_controlled_by(original.sender) {
            self.canister.rejects_controller(original.sender, result)
        } else if settings is Err {
            result == settings
        } else if original.mode == CanisterInstallMode::Install
            && self.canister.execution_state is Some {
            result == Err::<(), CanisterManagerError>(CanisterManagerError::CanisterNonEmpty(id))
        } else if self.canister.scheduler_state.install_code_debit > 0
            && original.config.rate_limiting_of_instructions == FlagStatus::Enabled {
            result == Err::<(), CanisterManagerError>(
                CanisterManagerError::InstallCodeRateLimited(id),
            )
        } else {
            result is Ok
        }
    }

    // Replacement of the execution state.

    /// The state with `execution_state` and the requested allocations in place.
    pub open spec fn with_code(
        self,
        execution_state: ExecutionState,
        stable_memory_handling: StableMemoryHandling,
        original: OriginalContext,
    ) -> Self {
        let stable_memory = match (stable_memory_handling, self.canister.execution_state) {
            (StableMemoryHandling::Keep, Some(replaced)) => replaced.stable_memory,
            _ => execution_state.stable_memory,
        };
        let compute_allocation = requested_or(
            original.requested_compute_allocation,
            self.canister.scheduler_state.compute_allocation,
        );
        let memory_allocation = requested_or(
            original.requested_memory_allocation,
            self.canister.system_state.memory_allocation,
        );
        let canister = CanisterStateView {
            system_state: SystemStateView { memory_allocation, ..self.canister.system_state },
            execution_state: Some(ExecutionState { stable_memory, ..execution_state }),
            scheduler_state: crate::canister::SchedulerState {
                compute_allocation,
                ..self.canister.scheduler_state
            },
        };
        InstallCodeState {
            canister,
            execution_parameters: ExecutionParameters {
                compute_allocation,
                memory_allocation,
                canister_memory_limit: canister.limit_or(
                    self.execution_parameters.canister_memory_limit,
                ),
                ..self.execution_parameters
            },
            ..self
        }
    }

    /// The canister uses no more memory than it may.
    pub open spec fn is_within_memory_limit(self) -> bool {
        self.canister.bytes_used() <= self.execution_parameters.canister_memory_limit
    }

    /// The state with the difference between the memory that `before` held and the memory
    /// that the canister holds now in the books.
    pub open spec fn booked_since(self, before: CanisterStateView) -> Self {
        let old_bytes = bytes_held(before.system_state.memory_allocation, before.bytes_used());
        let new_bytes = bytes_held(
            self.canister.system_state.memory_allocation,
            self.canister.bytes_used(),
        );
        self.booked(
            old_bytes,
            new_bytes,
            before.custom_section_bytes() as int,
            self.canister.custom_section_bytes() as int,
        )
    }

    /// The state with a change of the canister's memory from `old_bytes` to `new_bytes`,
    /// and of its custom sections from `old_sections` to `new_sections`, in the books.
    pub open spec fn booked(
        self,
        old_bytes: int,
        new_bytes: int,
        old_sections: int,
        new_sections: int,
    ) -> Self {
        InstallCodeState {
            allocated_bytes: (self.allocated_bytes + growth(old_bytes, new_bytes)) as u64,
            deallocated_bytes: (self.deallocated_bytes + growth(new_bytes, old_bytes)) as u64,
            allocated_wasm_custom_sections_bytes: (self.allocated_wasm_custom_sections_bytes
                + growth(old_sections, new_sections)) as u64,
            deallocated_wasm_custom_sections_bytes: (self.deallocated_wasm_custom_sections_bytes
                + growth(new_sections, old_sections)) as u64,
            ..self
        }
    }

    /// The books can hold that change.
    pub open spec fn can_book(
        self,
        old_bytes: int,
        new_bytes: int,
        old_sections: int,
        new_sections: int,
    ) -> bool {
        &&& self.allocated_bytes + growth(old_bytes, new_bytes) <= u64::MAX
        &&& self.deallocated_bytes + growth(new_bytes, old_bytes) <= u64::MAX
        &&& self.allocated_wasm_custom_sections_bytes + growth(old_sections, new_sections)
            <= u64::MAX
        &&& self.deallocated_wasm_custom_sections_bytes + growth(new_sections, old_sections)
            <= u64::MAX
    }

    /// The books can hold the difference between `before` and the canister now.
    pub open spec fn can_book_since(self, before: CanisterStateView) -> bool {
        self.can_book(
            bytes_held(before.system_state.memory_allocation, before.bytes_used()),
            bytes_held(self.canister.system_state.memory_allocation, self.canister.bytes_used()),
            before.custom_section_bytes() as int,
            self.canister.custom_section_bytes() as int,
        )
    }

    /// The state with the instructions of the compilation used up.
    pub open spec fn charged(self, instructions: NumInstructions) -> Self {
        InstallCodeState {
            execution_parameters: ExecutionParameters {
                instruction_limits: self.execution_parameters.instruction_limits.reduced_by(
                    instructions,
                ),
                ..self.execution_parameters
            },
            ..self
        }
    }

    /// The replacement can be carried out: every amount in it is a number of bytes, and no
    /// reservation is given up for a best-effort allocation.
    pub open spec fn can_replace(
        self,
        maybe_execution_state: HypervisorResult<ExecutionState>,
        stable_memory_handling: StableMemoryHandling,
        original: OriginalContext,
    ) -> bool {
        &&& self.canister.is_measurable()
        &&& maybe_execution_state matches Ok(execution_state) ==> {
            let replaced = self.with_code(execution_state, stable_memory_handling, original);
            &&& original.requested_memory_allocation == Some(MemoryAllocation::BestEffort)
                ==> self.canister.system_state.memory_allocation == MemoryAllocation::BestEffort
            &&& replaced.canister.is_measurable()
            &&& replaced.is_within_memory_limit() ==> replaced.can_book_since(self.canister)
        }
    }

    /// The state after a replacement, and whether it succeeded.
    pub open spec fn replacing(
        self,
        instructions_from_compilation: NumInstructions,
        maybe_execution_state: HypervisorResult<ExecutionState>,
        stable_memory_handling: StableMemoryHandling,
        original: OriginalContext,
    ) -> (Self, Result<(), CanisterManagerError>) {
        let step = InstallCodeStep::ReplaceExecutionStateAndAllocations {
            instructions_from_compilation,
            maybe_execution_state,
            stable_memory_handling,
        };
        let started = self.noting(step).charged(instructions_from_compilation);
        match maybe_execution_state {
            Err(error) => (
                started,
                Err(
                    CanisterManagerError::Hypervisor(
                        self.canister.system_state.canister_id,
                        error,
                    ),
                ),
            ),
            Ok(execution_state) => {
                let replaced = started.with_code(execution_state, stable_memory_handling, original);
                if replaced.is_within_memory_limit() {
                    (replaced.booked_since(self.canister), Ok(()))
                } else {
                    (
                        replaced,
                        Err(
                            CanisterManagerError::NotEnoughMemoryAllocationGiven {
                                memory_allocation_given:
                                    replaced.canister.system_state.memory_allocation,
                                memory_usage_needed: replaced.canister.bytes_used() as u64,
                            },
                        ),
                    )
                }
            },
        }
    }

    // Handling of a Wasm execution.

    /// The state with the code's memories and globals as `changes` has them, and with what
    /// the execution allocated in the books. Under a reservation an execution allocates
    /// nothing anew.
    pub open spec fn with_changes(
        self,
        changes: CanisterStateChanges,
        output: WasmExecutionOutput,
    ) -> Self {
        let best_effort = self.canister.system_state.memory_allocation
            == MemoryAllocation::BestEffort;
        InstallCodeState {
            canister: CanisterStateView {
                execution_state: Some(
                    ExecutionState {
                        wasm_memory: changes.wasm_memory,
                        stable_memory: changes.stable_memory,
                        exported_globals: changes.globals,
                        ..self.canister.execution_state->0
                    },
                ),
                ..self.canister
            },
            allocated_bytes: if best_effort {
                (self.allocated_bytes + output.allocated_bytes) as u64
            } else {
                self.allocated_bytes
            },
            allocated_message_bytes: if best_effort {
                (self.allocated_message_bytes + output.allocated_message_bytes) as u64
            } else {
                self.allocated_message_bytes
            },
            total_heap_delta: (self.total_heap_delta + output.instance_stats.dirty_pages
                * PAGE_SIZE) as u64,
            ..self
        }
    }

    /// There is code to change, and the books can hold what the execution allocated.
    pub open spec fn can_take_changes(self, output: WasmExecutionOutput) -> bool {
        &&& self.canister.execution_state is Some
        &&& self.canister.system_state.memory_allocation == MemoryAllocation::BestEffort ==> {
            &&& self.allocated_bytes + output.allocated_bytes <= u64::MAX
            &&& self.allocated_message_bytes + output.allocated_message_bytes <= u64::MAX
        }
        &&& output.instance_stats.dirty_pages * PAGE_SIZE <= usize::MAX
        &&& self.total_heap_delta + output.instance_stats.dirty_pages * PAGE_SIZE <= u64::MAX
    }

    /// The state with `system_state` in place.
    pub open spec fn with_system_state(self, system_state: SystemStateView) -> Self {
        InstallCodeState {
            canister: CanisterStateView { system_state, ..self.canister },
            ..self
        }
    }

    /// The execution can be handled, where `applied` comes of applying its changes: it has
    /// no response, and what succeeded can be taken over.
    pub open spec fn can_handle(
        self,
        changes: Option<CanisterStateChanges>,
        output: WasmExecutionOutput,
        applied: AppliedChangesView,
    ) -> bool {
        &&& !(output.wasm_result matches Ok(Some(_)))
        &&& changes_are_due(changes, output) && applied.1 is Ok ==> self.with_system_state(
            applied.0,
        ).can_take_changes(output)
    }

    /// The state after an execution was handled, and whether that succeeded; `applied` comes
    /// of applying the changes of the execution, and counts where they are due.
    pub open spec fn handling(
        self,
        changes: Option<CanisterStateChanges>,
        output: WasmExecutionOutput,
        applied: AppliedChangesView,
    ) -> (Self, Result<(), CanisterManagerError>) {
        let step = InstallCodeStep::HandleWasmExecution { canister_state_changes: changes, output };
        let noted = self.noting(step);
        let started = InstallCodeState {
            execution_parameters: ExecutionParameters {
                instruction_limits: crate::context::InstructionLimits {
                    message: output.num_instructions_left,
                    ..self.execution_parameters.instruction_limits
                },
                ..self.execution_parameters
            },
            ..noted
        };
        if let Err(error) = output.wasm_result {
            (
                started,
                Err(
                    CanisterManagerError::Hypervisor(
                        self.canister.system_state.canister_id,
                        error,
                    ),
                ),
            )
        } else if !changes_are_due(changes, output) {
            (started, Ok(()))
        } else {
            let changed = started.with_system_state(applied.0);
            match applied.1 {
                Err(error) => (
                    changed,
                    Err(CanisterManagerError::Hypervisor(applied.0.canister_id, error)),
                ),
                Ok(()) => (changed.with_changes(changes->0, output), Ok(())),
            }
        }
    }
}

impl<
    Validate: Fn(SettingsRequest) -> Result<(), CanisterManagerError>,
    Apply: Fn(&SystemState, SystemStateChanges, Time) -> AppliedChanges,
> RoundContext<Validate, Apply> {
    /// `settings` may be the verdict on the settings requested for the canister of `state`.
    /// The verdict is asked for only if the sender controls the canister.
    pub open spec fn may_judge(
        &self,
        state: InstallCodeState,
        original: OriginalContext,
        round_limits: RoundLimits,
        settings: Result<(), CanisterManagerError>,
    ) -> bool {
        state.canister.is_controlled_by(original.sender) ==> self.validates(
            state.settings_request(original, round_limits),
            settings,
        )
    }

    /// `applied` may come of applying the changes of an execution to the canister of
    /// `state`. They are applied only if they are due.
    pub open spec fn may_apply(
        &self,
        state: InstallCodeState,
        changes: Option<CanisterStateChanges>,
        output: WasmExecutionOutput,
        original: OriginalContext,
        applied: AppliedChangesView,
    ) -> bool {
        changes_are_due(changes, output) ==> self.applies(
            state.canister.system_state,
            changes->0.system_state_changes,
            original.time,
            applied,
        )
    }

    /// The validation of the input may take `state` to `after` with `result`.
    pub open spec fn may_validate(
        &self,
        state: InstallCodeState,
        original: OriginalContext,
        round_limits: RoundLimits,
        after: InstallCodeState,
        result: Result<(), CanisterManagerError>,
    ) -> bool {
        exists|settings: Result<(), CanisterManagerError>|
            {
                &&& #[trigger] self.may_judge(state, original, round_limits, settings)
                &&& after == state.noting(InstallCodeStep::ValidateInput)
                &&& state.is_verdict(original, settings, result)
            }
    }

    /// The handling of a Wasm execution may take `state` to `after` with `result`.
    pub open spec fn may_handle(
        &self,
        state: InstallCodeState,
        changes: Option<CanisterStateChanges>,
        output: WasmExecutionOutput,
        original: OriginalContext,
        after: InstallCodeState,
        result: Result<(), CanisterManagerError>,
    ) -> bool {
        exists|applied: AppliedChangesView|
            {
                &&& #[trigger] self.may_apply(state, changes, output, original, applied)
                &&& (after, result) == state.handling(changes, output, applied)
            }
    }

    /// The execution can be handled, whatever comes of applying its changes.
    pub open spec fn is_ready_to_handle(
        &self,
        state: InstallCodeState,
        changes: Option<CanisterStateChanges>,
        output: WasmExecutionOutput,
        original: OriginalContext,
    ) -> bool {
        &&& !(output.wasm_result matches Ok(Some(_)))
        &&& forall|applied: AppliedChangesView| #[trigger]
            self.may_apply(state, changes, output, original, applied) ==> state.can_handle(
                changes,
                output,
                applied,
            )
    }

    /// `step` can be performed on `state`, whatever the services answer.
    pub open spec fn is_ready(
        &self,
        state: InstallCodeState,
        step: InstallCodeStep,
        original: OriginalContext,
    ) -> bool {
        match step {
            InstallCodeStep::ValidateInput => state.canister.is_controlled_by(original.sender)
                ==> state.canister.is_measurable(),
            InstallCodeStep::ReplaceExecutionStateAndAllocations {
                instructions_from_compilation: _,
                maybe_execution_state,
                stable_memory_handling,
            } => state.can_replace(maybe_execution_state, stable_memory_handling, original),
            InstallCodeStep::HandleWasmExecution {
                canister_state_changes,
                output,
            } => self.is_ready_to_handle(state, canister_state_changes, output, original),
        }
    }

    /// `step` may take `state` to `after` with `result`.
    pub open spec fn may_perform(
        &self,
        state: InstallCodeState,
        step: InstallCodeStep,
        original: OriginalContext,
        round_limits: RoundLimits,
        after: InstallCodeState,
        result: Result<(), CanisterManagerError>,
    ) -> bool {
        match step {
            InstallCodeStep::ValidateInput => self.may_validate(
                state,
                original,
                round_limits,
                after,
                result,
            ),
            InstallCodeStep::ReplaceExecutionStateAndAllocations {
                instructions_from_compilation,
                maybe_execution_state,
                stable_memory_handling,
            } => (after, result) == state.replacing(
                instructions_from_compilation,
                maybe_execution_state,
                stable_memory_handling,
                original,
            ),
            InstallCodeStep::HandleWasmExecution {
                canister_state_changes,
                output,
            } => self.may_handle(state, canister_state_changes, output, original, after, result),
        }
    }

    /// Performing `steps` on `state` one after the other, up to the first that fails, may
    /// end in `end` with `result`.
    pub open spec fn may_replay(
        &self,
        state: InstallCodeState,
        steps: Seq<InstallCodeStep>,
        original: OriginalContext,
        round_limits: RoundLimits,
        end: InstallCodeState,
        result: Result<(), CanisterManagerError>,
    ) -> bool
        decreases steps.len(),
    {
        if steps.len() == 0 {
            end == state && result is Ok
        } else {
            exists|after: InstallCodeState, outcome: Result<(), CanisterManagerError>|
                {
                    &&& #[trigger] self.may_perform(
                        state,
                        steps[0],
                        original,
                        round_limits,
                        after,
                        outcome,
                    )
                    &&& outcome is Err ==> end == after && result == outcome
                    &&& outcome is Ok ==> self.may_replay(
                        after,
                        steps.drop_first(),
                        original,
                        round_limits,
                        end,
                        result,
                    )
                }
        }
    }

    /// `steps` may take `state` to `end` one after the other, each of them ready to be
    /// performed and successful. Each has its own of the `limits`, as steps may be performed
    /// in different rounds.
    pub open spec fn can_reach(
        &self,
        state: InstallCodeState,
        steps: Seq<InstallCodeStep>,
        original: OriginalContext,
        limits: Seq<RoundLimits>,
        end: InstallCodeState,
    ) -> bool
        decreases steps.len(),
    {
        &&& limits.len() == steps.len()
        &&& if steps.len() == 0 {
            end == state
        } else {
            &&& self.is_ready(state, steps[0], original)
            &&& exists|after: InstallCodeState|
                {
                    &&& #[trigger] self.may_perform(
                        state,
                        steps[0],
                        original,
                        limits[0],
                        after,
                        Ok::<(), CanisterManagerError>(()),
                    )
                    &&& self.can_reach(
                        after,
                        steps.drop_first(),
                        original,
                        limits.drop_first(),
                        end,
                    )
                }
        }
    }

    /// If `step` is a validation, the settings requested for the canister of `state` are not
    /// objected to under `round_limits`.
    pub open spec fn accepts_settings(
        &self,
        state: InstallCodeState,
        step: InstallCodeStep,
        original: OriginalContext,
        round_limits: RoundLimits,
    ) -> bool {
        step == InstallCodeStep::ValidateInput ==> forall|
            settings: Result<(), CanisterManagerError>,
        | #[trigger]
            self.validates(state.settings_request(original, round_limits), settings)
                ==> settings is Ok
    }

    /// In the validations among `steps`, performed on `state` one after the other, the
    /// requested settings are not objected to under `round_limits`.
    pub open spec fn accepts_settings_throughout(
        &self,
        state: InstallCodeState,
        steps: Seq<InstallCodeStep>,
        original: OriginalContext,
        round_limits: RoundLimits,
    ) -> bool
        decreases steps.len(),
    {
        if steps.len() == 0 {
            true
        } else {
            &&& self.accepts_settings(state, steps[0], original, round_limits)
            &&& forall|after: InstallCodeState| #[trigger]
                self.may_perform(
                    state,
                    steps[0],
                    original,
                    round_limits,
                    after,
                    Ok::<(), CanisterManagerError>(()),
                ) ==> self.accepts_settings_throughout(
                    after,
                    steps.drop_first(),
                    original,
                    round_limits,
                )
        }
    }

    /// `steps` can be performed on `state` one after the other, whatever the services
    /// answer, and if all succeed they leave `instructions_left` instructions.
    pub open spec fn is_ready_to_replay(
        &self,
        state: InstallCodeState,
        steps: Seq<InstallCodeStep>,
        original: OriginalContext,
        round_limits: RoundLimits,
        instructions_left: NumInstructions,
    ) -> bool
        decreases steps.len(),
    {
        if steps.len() == 0 {
            state.instructions_left() == instructions_left
        } else {
            &&& self.is_ready(state, steps[0], original)
            &&& forall|after: InstallCodeState| #[trigger]
                self.may_perform(
                    state,
                    steps[0],
                    original,
                    round_limits,
                    after,
                    Ok::<(), CanisterManagerError>(()),
                ) ==> self.is_ready_to_replay(
                    after,
                    steps.drop_first(),
                    original,
                    round_limits,
                    instructions_left,
                )
        }
    }
}

} // verus!
