//! Types and functions common between canister installation and upgrades.

use vstd::prelude::*;

use crate::canister::{
    copied, CanisterState, ExecutionState, SystemState, SystemStateView,
};
use crate::context::{
    view_of_applied, AppliedChanges, AppliedChangesView, ExecutionParameters, OriginalContext,
    RoundAccounts, RoundContext, RoundLimits, SettingsRequest, SubnetAvailableMemory,
    SystemStateChanges,
};
use crate::errors::{CanisterManagerError, HypervisorResult, SubnetAvailableMemoryError};
use crate::install_model::{
    bytes_held, changes_are_due, CanisterStateChanges, InstallCodeState, InstallCodeStep,
    WasmExecutionOutput,
};
use crate::settlement::{
    module_hash, settle, DtsInstallCodeResult, InstallCodeResult,
};
use crate::types::{
    CanisterChangeDetails, CanisterChangeOrigin, CanisterId, CanisterInstallMode,
    CanisterSettings, CanisterTimer, Cycles, FlagStatus, MemoryAllocation, NumBytes,
    NumInstructions, PrincipalId, StableMemoryHandling, Time, WasmHash, PAGE_SIZE,
};

verus! {

/// Contains fields of `InstallCodeHelper` that are necessary for resuming
/// `install_code` execution.
#[derive(Debug)]
pub struct PausedInstallCodeHelper {
    steps: Vec<InstallCodeStep>,
    instructions_left: NumInstructions,
}

impl PausedInstallCodeHelper {
    /// The steps to replay.
    pub closed spec fn steps(&self) -> Seq<InstallCodeStep> {
        self.steps@
    }

    /// The instructions that were left at the pause.
    pub closed spec fn instructions_left(&self) -> NumInstructions {
        self.instructions_left
    }
}

/// A helper that implements and keeps track of `install_code` steps.
/// It is used to safely pause and resume `install_code` execution.
#[derive(Debug)]
pub struct InstallCodeHelper {
    // The current canister state.
    canister: CanisterState,
    // All steps that were performed on the current canister state.
    steps: Vec<InstallCodeStep>,
    // The instruction limit at the start.
    message_instruction_limit: NumInstructions,
    // The current execution parameters that change after steps.
    execution_parameters: ExecutionParameters,
    // Bytes allocated and deallocated by the steps.
    allocated_bytes: NumBytes,
    allocated_message_bytes: NumBytes,
    allocated_wasm_custom_sections_bytes: NumBytes,
    deallocated_bytes: NumBytes,
    deallocated_wasm_custom_sections_bytes: NumBytes,
    // The total heap delta of all steps.
    total_heap_delta: NumBytes,
}

impl View for InstallCodeHelper {
    type V = InstallCodeState;

    closed spec fn view(&self) -> InstallCodeState {
        InstallCodeState {
            canister: self.canister@,
            steps: self.steps@,
            message_instruction_limit: self.message_instruction_limit,
            execution_parameters: self.execution_parameters,
            allocated_bytes: self.allocated_bytes,
            allocated_message_bytes: self.allocated_message_bytes,
            allocated_wasm_custom_sections_bytes: self.allocated_wasm_custom_sections_bytes,
            deallocated_bytes: self.deallocated_bytes,
            deallocated_wasm_custom_sections_bytes: self.deallocated_wasm_custom_sections_bytes,
            total_heap_delta: self.total_heap_delta,
        }
    }
}

impl InstallCodeHelper {
    pub fn new(clean_canister: &CanisterState, original: &OriginalContext) -> (helper: Self)
        ensures
            helper@ == InstallCodeState::initial(clean_canister@, *original),
    {
        InstallCodeHelper {
            canister: clean_canister.clone(),
            steps: Vec::new(),
            message_instruction_limit: original.execution_parameters.instruction_limits.message(),
            execution_parameters: original.execution_parameters,
            allocated_bytes: 0,
            allocated_message_bytes: 0,
            allocated_wasm_custom_sections_bytes: 0,
            deallocated_bytes: 0,
            deallocated_wasm_custom_sections_bytes: 0,
            total_heap_delta: 0,
        }
    }

    pub fn canister(&self) -> (canister: &CanisterState)
        ensures
            canister@ == self@.canister,
    {
        &self.canister
    }

    pub fn execution_parameters(&self) -> (parameters: &ExecutionParameters)
        ensures
            *parameters == self@.execution_parameters,
    {
        &self.execution_parameters
    }

    pub fn instructions_left(&self) -> (instructions: NumInstructions)
        ensures
            instructions == self@.instructions_left(),
    {
        self.execution_parameters.instruction_limits.message()
    }

    /// Replaces the execution state of the current canister with the freshly
    /// created execution state. The stable memory is conditionally replaced
    /// based on the given `stable_memory_handling`.
    ///
    /// It also updates the compute and memory allocations with the requested
    /// values in `original` context.
    pub fn replace_execution_state_and_allocations(
        &mut self,
        instructions_from_compilation: NumInstructions,
        maybe_execution_state: HypervisorResult<ExecutionState>,
        stable_memory_handling: StableMemoryHandling,
        original: &OriginalContext,
    ) -> (result: Result<(), CanisterManagerError>)
        requires
            old(self)@.can_replace(maybe_execution_state, stable_memory_handling, *original),
        ensures
            (final(self)@, result) == old(self)@.replacing(
                instructions_from_compilation,
                maybe_execution_state,
                stable_memory_handling,
                *original,
            ),
    {
        self.steps.push(
            InstallCodeStep::ReplaceExecutionStateAndAllocations {
                instructions_from_compilation,
                maybe_execution_state,
                stable_memory_handling,
            },
        );

        self.execution_parameters.instruction_limits.reduce_by(instructions_from_compilation);

        let old_memory_usage: NumBytes = self.canister.memory_usage();
        let old_memory_allocation = self.canister.system_state.memory_allocation;
        let old_compute_allocation = self.canister.scheduler_state.compute_allocation;
        let old_wasm_custom_sections_memory_used: NumBytes = match &self.canister.execution_state {
            Some(execution_state) => execution_state.metadata.memory_usage,
            None => 0,
        };

        // Replace the execution state and maybe the stable memory.
        let mut execution_state = match maybe_execution_state {
            Ok(execution_state) => execution_state,
            Err(error) => {
                return Err(CanisterManagerError::Hypervisor(self.canister.canister_id(), error));
            },
        };

        let new_wasm_custom_sections_memory_used: NumBytes = execution_state.metadata.memory_usage;

        match (stable_memory_handling, self.canister.execution_state) {
            (StableMemoryHandling::Keep, Some(replaced)) => {
                execution_state.stable_memory = replaced.stable_memory;
            },
            (StableMemoryHandling::Keep, None) | (StableMemoryHandling::Replace, _) => {},
        }
        self.canister.execution_state = Some(execution_state);

        // Update the compute allocation.
        let new_compute_allocation = match original.requested_compute_allocation {
            Some(requested) => requested,
            None => old_compute_allocation,
        };
        self.canister.scheduler_state.compute_allocation = new_compute_allocation;
        self.execution_parameters.compute_allocation = new_compute_allocation;

        // Update the memory allocation.
        let new_memory_allocation = match original.requested_memory_allocation {
            Some(requested) => requested,
            None => old_memory_allocation,
        };
        self.canister.system_state.memory_allocation = new_memory_allocation;
        self.execution_parameters.memory_allocation = new_memory_allocation;

        // It is impossible to go from `MemoryAllocation::Reserved` to
        // `MemoryAllocation::BestEffort` because to request nothing is interpreted
        // as keeping the old memory allocation.
        // This means that we can use the existing canister memory limit as the
        // best effort memory limit.
        assert(old_memory_allocation == new_memory_allocation || new_memory_allocation
            != MemoryAllocation::BestEffort);
        let best_effort_limit: NumBytes = self.execution_parameters.canister_memory_limit;
        self.execution_parameters.canister_memory_limit =
            self.canister.memory_limit(best_effort_limit);

        let new_memory_usage: NumBytes = self.canister.memory_usage();
        if new_memory_usage > self.execution_parameters.canister_memory_limit {
            return Err(
                CanisterManagerError::NotEnoughMemoryAllocationGiven {
                    memory_allocation_given: new_memory_allocation,
                    memory_usage_needed: new_memory_usage,
                },
            );
        }
        self.update_allocated_bytes(
            old_memory_usage,
            old_memory_allocation,
            old_wasm_custom_sections_memory_used,
            new_memory_usage,
            new_memory_allocation,
            new_wasm_custom_sections_memory_used,
        );
        Ok(())
    }

    // A helper method to keep track of allocated and deallocated memory bytes.
    fn update_allocated_bytes(
        &mut self,
        old_memory_usage: NumBytes,
        old_memory_allocation: MemoryAllocation,
        old_wasm_custom_sections_memory_used: NumBytes,
        new_memory_usage: NumBytes,
        new_memory_allocation: MemoryAllocation,
        new_wasm_custom_sections_memory_used: NumBytes,
    )
        requires
            old(self)@.can_book(
                bytes_held(old_memory_allocation, old_memory_usage as int),
                bytes_held(new_memory_allocation, new_memory_usage as int),
                old_wasm_custom_sections_memory_used as int,
                new_wasm_custom_sections_memory_used as int,
            ),
        ensures
            final(self)@ == old(self)@.booked(
                bytes_held(old_memory_allocation, old_memory_usage as int),
                bytes_held(new_memory_allocation, new_memory_usage as int),
                old_wasm_custom_sections_memory_used as int,
                new_wasm_custom_sections_memory_used as int,
            ),
    {
        let old_bytes: NumBytes = held(old_memory_allocation, old_memory_usage);
        let new_bytes: NumBytes = held(new_memory_allocation, new_memory_usage);
        if old_bytes <= new_bytes {
            self.allocated_bytes = self.allocated_bytes + (new_bytes - old_bytes);
        } else {
            self.deallocated_bytes = self.deallocated_bytes + (old_bytes - new_bytes);
        }
        if new_wasm_custom_sections_memory_used >= old_wasm_custom_sections_memory_used {
            self.allocated_wasm_custom_sections_bytes = self.allocated_wasm_custom_sections_bytes
                + (new_wasm_custom_sections_memory_used - old_wasm_custom_sections_memory_used);
        } else {
            self.deallocated_wasm_custom_sections_bytes =
            self.deallocated_wasm_custom_sections_bytes + (old_wasm_custom_sections_memory_used
                - new_wasm_custom_sections_memory_used);
        }
    }

    /// Checks the result of Wasm execution and applies the state changes.
    pub fn handle_wasm_execution<
        Validate: Fn(SettingsRequest) -> Result<(), CanisterManagerError>,
        Apply: Fn(&SystemState, SystemStateChanges, Time) -> AppliedChanges,
    >(
        &mut self,
        canister_state_changes: Option<CanisterStateChanges>,
        output: WasmExecutionOutput,
        original: &OriginalContext,
        round: &RoundContext<Validate, Apply>,
    ) -> (result: Result<(), CanisterManagerError>)
        requires
            round.is_total(),
            round.is_ready_to_handle(old(self)@, canister_state_changes, output, *original),
        ensures
            round.may_handle(
                old(self)@,
                canister_state_changes,
                output,
                *original,
                final(self)@,
                result,
            ),
    {
        match (canister_state_changes, output.wasm_result) {
            (Some(changes), Ok(None)) => {
                let applied = (round.apply_changes)(
                    &self.canister.system_state,
                    changes.system_state_changes,
                    original.time,
                );
                assert(round.may_apply(
                    self@,
                    canister_state_changes,
                    output,
                    *original,
                    view_of_applied(applied),
                ));
                self.commit_wasm_execution(canister_state_changes, output, Some(applied))
            },
            _ => {
                // Nothing is applied, so that any outcome of doing so stands for it.
                let ghost unapplied: AppliedChangesView = (self.canister.system_state@, Ok(()));
                assert(round.may_apply(
                    self@,
                    canister_state_changes,
                    output,
                    *original,
                    unapplied,
                ));
                self.commit_wasm_execution(canister_state_changes, output, None)
            },
        }
    }

    /// Takes over what a Wasm execution did, where `applied` comes of applying its changes
    /// of the system state. There is no `applied` if they were not due to be applied.
    pub fn commit_wasm_execution(
        &mut self,
        canister_state_changes: Option<CanisterStateChanges>,
        output: WasmExecutionOutput,
        applied: Option<AppliedChanges>,
    ) -> (result: Result<(), CanisterManagerError>)
        requires
            changes_are_due(canister_state_changes, output) ==> applied is Some,
            old(self)@.can_handle(
                canister_state_changes,
                output,
                view_of_applied(applied->0),
            ),
        ensures
            (final(self)@, result) == old(self)@.handling(
                canister_state_changes,
                output,
                view_of_applied(applied->0),
            ),
    {
        self.steps.push(InstallCodeStep::HandleWasmExecution { canister_state_changes, output });

        self.execution_parameters.instruction_limits.update(output.num_instructions_left);

        if let Err(error) = output.wasm_result {
            return Err(CanisterManagerError::Hypervisor(self.canister.canister_id(), error));
        }
        if let Some(changes) = canister_state_changes {
            let (system_state, outcome) = applied.unwrap();
            self.canister.system_state = system_state;
            if let Err(error) = outcome {
                return Err(CanisterManagerError::Hypervisor(self.canister.canister_id(), error));
            }
            let mut execution_state = self.canister.execution_state.unwrap();
            execution_state.wasm_memory = changes.wasm_memory;
            execution_state.stable_memory = changes.stable_memory;
            execution_state.exported_globals = changes.globals;
            self.canister.execution_state = Some(execution_state);
            match self.canister.system_state.memory_allocation {
                MemoryAllocation::Reserved(_) => {},
                MemoryAllocation::BestEffort => {
                    self.allocated_bytes = self.allocated_bytes + output.allocated_bytes;
                    self.allocated_message_bytes = self.allocated_message_bytes
                        + output.allocated_message_bytes;
                },
            }
            self.total_heap_delta = self.total_heap_delta + (output.instance_stats.dirty_pages
                * PAGE_SIZE) as u64;
        }
        Ok(())
    }

    /// Validates the input context of `install_code`.
    pub fn validate_input<
        Validate: Fn(SettingsRequest) -> Result<(), CanisterManagerError>,
        Apply: Fn(&SystemState, SystemStateChanges, Time) -> AppliedChanges,
    >(
        &mut self,
        original: &OriginalContext,
        round: &RoundContext<Validate, Apply>,
        round_limits: &RoundLimits,
    ) -> (result: Result<(), CanisterManagerError>)
        requires
            round.is_total(),
            old(self)@.canister.is_controlled_by(original.sender)
                ==> old(self)@.canister.is_measurable(),
        ensures
            round.may_validate(old(self)@, *original, *round_limits, final(self)@, result),
    {
        let settings = match validate_controller(&self.canister, &original.sender) {
            Ok(()) => {
                let request = self.settings_request(original, round_limits);
                (round.validate_canister_settings)(request)
            },
            // The verdict is the same for every answer.
            Err(error) => Err(error),
        };
        assert(round.may_judge(self@, *original, *round_limits, settings));
        self.conclude_validation(original, settings)
    }

    /// What the validation of the requested settings is asked.
    pub fn settings_request(&self, original: &OriginalContext, round_limits: &RoundLimits) -> (
        request: SettingsRequest)
        requires
            self@.canister.is_measurable(),
        ensures
            request == self@.settings_request(*original, *round_limits),
    {
        SettingsRequest {
            settings: CanisterSettings {
                controller: None,
                controllers: None,
                compute_allocation: original.requested_compute_allocation,
                memory_allocation: original.requested_memory_allocation,
                freezing_threshold: None,
            },
            canister_memory_usage: self.canister.memory_usage(),
            canister_memory_allocation: self.canister.memory_allocation(),
            subnet_available_memory: round_limits.subnet_available_memory,
            canister_compute_allocation: self.canister.compute_allocation(),
            subnet_compute_allocation_used: round_limits.compute_allocation_used,
            subnet_compute_capacity: original.config.compute_capacity,
            max_controllers: original.config.max_controllers,
        }
    }

    /// Validates the input context of `install_code`, where `settings` is the verdict on
    /// the requested settings.
    pub fn conclude_validation(
        &mut self,
        original: &OriginalContext,
        settings: Result<(), CanisterManagerError>,
    ) -> (result: Result<(), CanisterManagerError>)
        ensures
            final(self)@ == old(self)@.noting(InstallCodeStep::ValidateInput),
            old(self)@.is_verdict(*original, settings, result),
    {
        self.steps.push(InstallCodeStep::ValidateInput);

        let id = self.canister.system_state.canister_id;

        if let Err(error) = validate_controller(&self.canister, &original.sender) {
            return Err(error);
        }
        if let Err(error) = settings {
            return Err(error);
        }
        match original.mode {
            CanisterInstallMode::Install => {
                if self.canister.execution_state.is_some() {
                    return Err(CanisterManagerError::CanisterNonEmpty(id));
                }
            },
            CanisterInstallMode::Reinstall | CanisterInstallMode::Upgrade => {},
        }
        if self.canister.scheduler_state.install_code_debit > 0
            && original.config.rate_limiting_of_instructions == FlagStatus::Enabled {
            return Err(CanisterManagerError::InstallCodeRateLimited(id));
        }
        Ok(())
    }

    /// Returns a struct with all the necessary information to replay the
    /// performed `install_code` steps in subsequent rounds.
    pub fn pause(self) -> (paused: PausedInstallCodeHelper)
        ensures
            paused.steps() == self@.steps,
            paused.instructions_left() == self@.instructions_left(),
    {
        PausedInstallCodeHelper {
            instructions_left: self.instructions_left(),
            steps: self.steps,
        }
    }

    /// Replays the previous `install_code` steps on the given clean canister.
    /// Returns an error if any step fails. Otherwise, it returns an instance of
    /// the helper that can be used to continue the `install_code` execution.
    pub fn resume<
        Validate: Fn(SettingsRequest) -> Result<(), CanisterManagerError>,
        Apply: Fn(&SystemState, SystemStateChanges, Time) -> AppliedChanges,
    >(
        clean_canister: &CanisterState,
        paused: PausedInstallCodeHelper,
        original: &OriginalContext,
        round: &RoundContext<Validate, Apply>,
        round_limits: &RoundLimits,
    ) -> (result: Result<Self, (CanisterManagerError, NumInstructions)>)
        requires
            round.is_total(),
            round.is_ready_to_replay(
                InstallCodeState::initial(clean_canister@, *original),
                paused.steps(),
                *original,
                *round_limits,
                paused.instructions_left(),
            ),
        ensures
            match result {
                Ok(helper) => {
                    &&& round.may_replay(
                        InstallCodeState::initial(clean_canister@, *original),
                        paused.steps(),
                        *original,
                        *round_limits,
                        helper@,
                        Ok(()),
                    )
                    &&& helper@.instructions_left() == paused.instructions_left()
                },
                Err((error, instructions_left)) => {
                    &&& instructions_left == paused.instructions_left()
                    &&& exists|end: InstallCodeState| #[trigger]
                        round.may_replay(
                            InstallCodeState::initial(clean_canister@, *original),
                            paused.steps(),
                            *original,
                            *round_limits,
                            end,
                            Err(error),
                        )
                },
            },
    {
        let mut helper = Self::new(clean_canister, original);
        let paused_instructions_left: NumInstructions = paused.instructions_left;
        let ghost start = helper@;
        let ghost steps = paused.steps@;
        let mut index: usize = 0;
        assert(steps.skip(0) == steps);
        while index < paused.steps.len()
            invariant
                index <= paused.steps.len(),
                start == InstallCodeState::initial(clean_canister@, *original),
                steps == paused.steps@,
                paused_instructions_left == paused.instructions_left,
                round.is_total(),
                round.is_ready_to_replay(
                    helper@,
                    steps.skip(index as int),
                    *original,
                    *round_limits,
                    paused_instructions_left,
                ),
                forall|end: InstallCodeState, result: Result<(), CanisterManagerError>|
                    round.may_replay(
                        helper@,
                        steps.skip(index as int),
                        *original,
                        *round_limits,
                        end,
                        result,
                    ) ==> #[trigger] round.may_replay(
                        start,
                        steps,
                        *original,
                        *round_limits,
                        end,
                        result,
                    ),
            decreases paused.steps.len() - index,
        {
            let ghost before = helper@;
            let ghost rest = steps.skip(index as int);
            assert(rest[0] == steps[index as int]);
            assert(rest.drop_first() == steps.skip(index + 1));
            let outcome = helper.replay_step(
                paused.steps[index],
                original,
                round,
                round_limits,
            );
            if let Err(error) = outcome {
                assert(round.may_replay(
                    before,
                    rest,
                    *original,
                    *round_limits,
                    helper@,
                    Err(error),
                ));
                let ghost end = helper@;
                assert(round.may_replay(
                    InstallCodeState::initial(clean_canister@, *original),
                    paused.steps(),
                    *original,
                    *round_limits,
                    end,
                    Err(error),
                ));
                return Err((error, paused_instructions_left));
            }
            assert(round.may_perform(
                before,
                rest[0],
                *original,
                *round_limits,
                helper@,
                Ok::<(), CanisterManagerError>(()),
            ));
            index = index + 1;
        }
        assert(steps.skip(index as int).len() == 0);
        assert(round.may_replay(
            helper@,
            steps.skip(index as int),
            *original,
            *round_limits,
            helper@,
            Ok(()),
        ));
        Ok(helper)
    }

    // A helper method to replay the given step.
    fn replay_step<
        Validate: Fn(SettingsRequest) -> Result<(), CanisterManagerError>,
        Apply: Fn(&SystemState, SystemStateChanges, Time) -> AppliedChanges,
    >(
        &mut self,
        step: InstallCodeStep,
        original: &OriginalContext,
        round: &RoundContext<Validate, Apply>,
        round_limits: &RoundLimits,
    ) -> (result: Result<(), CanisterManagerError>)
        requires
            round.is_total(),
            round.is_ready(old(self)@, step, *original),
        ensures
            round.may_perform(
                old(self)@,
                step,
                *original,
                *round_limits,
                final(self)@,
                result,
            ),
    {
        match step {
            InstallCodeStep::ValidateInput => self.validate_input(original, round, round_limits),
            InstallCodeStep::ReplaceExecutionStateAndAllocations {
                instructions_from_compilation,
                maybe_execution_state,
                stable_memory_handling,
            } => self.replace_execution_state_and_allocations(
                instructions_from_compilation,
                maybe_execution_state,
                stable_memory_handling,
                original,
            ),
            InstallCodeStep::HandleWasmExecution {
                canister_state_changes,
                output,
            } => self.handle_wasm_execution(canister_state_changes, output, original, round),
        }
    }

    pub fn clear_certified_data(&mut self)
        ensures
            final(self)@ == old(self)@.with_system_state(
                SystemStateView {
                    certified_data: Seq::empty(),
                    ..old(self)@.canister.system_state
                },
            ),
    {
        self.canister.system_state.certified_data = Vec::new();
    }

    pub fn deactivate_global_timer(&mut self)
        ensures
            final(self)@ == old(self)@.with_system_state(
                SystemStateView {
                    global_timer: CanisterTimer::Inactive,
                    ..old(self)@.canister.system_state
                },
            ),
    {
        self.canister.system_state.global_timer = CanisterTimer::Inactive;
    }

    pub fn bump_canister_version(&mut self)
        requires
            old(self)@.canister.system_state.canister_version < u64::MAX,
        ensures
            final(self)@ == old(self)@.with_system_state(
                SystemStateView {
                    canister_version: (old(self)@.canister.system_state.canister_version
                        + 1) as u64,
                    ..old(self)@.canister.system_state
                },
            ),
    {
        self.canister.system_state.canister_version = self.canister.system_state.canister_version
            + 1;
    }

    /// Enters the deployment of a module in the history of the canister, which `add_change`
    /// keeps.
    pub fn add_canister_change<
        AddChange: Fn(
            &SystemState,
            Time,
            CanisterChangeOrigin,
            CanisterChangeDetails,
        ) -> SystemState,
    >(
        &mut self,
        timestamp_nanos: Time,
        origin: CanisterChangeOrigin,
        mode: CanisterInstallMode,
        module_hash: WasmHash,
        add_change: &AddChange,
    )
        requires
            forall|system_state: &SystemState, details: CanisterChangeDetails| #[trigger]
                call_requires(add_change, (system_state, timestamp_nanos, origin, details)),
        ensures
            exists|asked: SystemState, answer: SystemState|
                {
                    &&& asked@ == old(self)@.canister.system_state
                    &&& answer@ == final(self)@.canister.system_state
                    &&& #[trigger] call_ensures(
                        add_change,
                        (
                            &asked,
                            timestamp_nanos,
                            origin,
                            CanisterChangeDetails::CodeDeployment { mode, module_hash },
                        ),
                        answer,
                    )
                },
            final(self)@ == old(self)@.with_system_state(final(self)@.canister.system_state),
    {
        let details = CanisterChangeDetails::code_deployment(mode, module_hash);
        self.canister.system_state = add_change(
            &self.canister.system_state,
            timestamp_nanos,
            origin,
            details,
        );
    }

    pub fn instructions_consumed(&self) -> (instructions: NumInstructions)
        requires
            self@.instructions_left() <= self@.message_instruction_limit,
        ensures
            instructions == self@.message_instruction_limit - self@.instructions_left(),
    {
        self.message_instruction_limit - self.instructions_left()
    }

    pub fn canister_memory_usage(&self) -> (bytes: NumBytes)
        requires
            self@.canister.is_measurable(),
        ensures
            bytes == self@.canister.bytes_used(),
    {
        self.canister.memory_usage()
    }

    /// Finishes an `install_code` execution that could have run multiple rounds
    /// due to deterministic time slicing. It updates the subnet available memory
    /// and compute allocation in the given `round_limits`, which may cause the
    /// execution to fail with errors.
    pub fn finish<
        Increment: Fn(SubnetAvailableMemory, NumBytes, NumBytes, NumBytes) -> SubnetAvailableMemory,
        TryDecrement: Fn(SubnetAvailableMemory, NumBytes, NumBytes, NumBytes) -> Result<
            SubnetAvailableMemory,
            SubnetAvailableMemoryError,
        >,
        Debit: Fn(&SystemState, CanisterId) -> SystemState,
        Refund: Fn(&SystemState, NumInstructions, NumInstructions, Cycles, usize) -> SystemState,
    >(
        self,
        clean_canister: CanisterState,
        original: OriginalContext,
        accounts: &RoundAccounts<Increment, TryDecrement, Debit, Refund>,
        round_limits: &mut RoundLimits,
    ) -> (outcome: DtsInstallCodeResult)
        requires
            accounts.is_total(),
            accounts.is_ready_to_finish(self@, clean_canister@, original, *old(round_limits)),
        ensures
            accounts.may_finish(
                self@,
                clean_canister@,
                original,
                *old(round_limits),
                *final(round_limits),
                outcome,
            ),
    {
        let message_instruction_limit: NumInstructions =
            original.execution_parameters.instruction_limits.message();
        let instructions_left: NumInstructions = self.instructions_left();

        // The balance should not change because `install_code` cannot accept or
        // send cycles. The execution cycles have already been accounted for in
        // the clean canister state.
        assert(clean_canister.system_state.cycles_balance
            == self.canister.system_state.cycles_balance);

        let debited = (accounts.apply_ingress_induction_cycles_debit)(
            &self.canister.system_state,
            self.canister.canister_id(),
        );
        assert(accounts.debits(
            self@.canister.system_state,
            self@.canister.system_state.canister_id,
            debited@,
        ));

        let grown = (accounts.increment)(
            round_limits.subnet_available_memory,
            self.deallocated_bytes,
            0,
            self.deallocated_wasm_custom_sections_bytes,
        );
        assert(accounts.increments(
            round_limits.subnet_available_memory,
            self@.deallocated_bytes,
            0,
            self@.deallocated_wasm_custom_sections_bytes,
            grown,
        ));
        let memory = (accounts.try_decrement)(
            grown,
            self.allocated_bytes,
            self.allocated_message_bytes,
            self.allocated_wasm_custom_sections_bytes,
        );
        assert(accounts.may_take_memory(self@, *round_limits, memory));

        match settle(
            &clean_canister,
            &self.canister,
            &original.config,
            round_limits,
            memory,
        ) {
            Ok(limits) => {
                *round_limits = limits;
            },
            Err(error) => {
                return finish_err(clean_canister, instructions_left, original, accounts, error);
            },
        }

        // After this point `install_code` is guaranteed to succeed.
        // Commit all the remaining state changes.

        let system_state = (accounts.refund_unused_execution_cycles)(
            &debited,
            instructions_left,
            message_instruction_limit,
            original.prepaid_execution_cycles,
            original.subnet_size,
        );
        assert(accounts.may_settle_cycles(
            self@.canister.system_state,
            instructions_left,
            original,
            system_state@,
        ));

        let mut scheduler_state = self.canister.scheduler_state;
        if original.config.rate_limiting_of_instructions == FlagStatus::Enabled {
            scheduler_state.install_code_debit = scheduler_state.install_code_debit
                + self.instructions_consumed();
        }

        let instructions_used: NumInstructions = message_instruction_limit.saturating_sub(
            instructions_left,
        );

        let old_wasm_hash = get_wasm_hash(&clean_canister);
        let new_wasm_hash = get_wasm_hash(&self.canister);
        DtsInstallCodeResult::Finished {
            canister: CanisterState {
                system_state,
                execution_state: self.canister.execution_state,
                scheduler_state,
            },
            message: original.message,
            instructions_used,
            result: Ok(
                InstallCodeResult {
                    heap_delta: self.total_heap_delta,
                    old_wasm_hash,
                    new_wasm_hash,
                },
            ),
        }
    }
}

/// Finishes an `install_code` execution early due to an error. The only state
/// change that is applied to the clean canister state is refunding the prepaid
/// execution cycles.
pub fn finish_err<
    Increment: Fn(SubnetAvailableMemory, NumBytes, NumBytes, NumBytes) -> SubnetAvailableMemory,
    TryDecrement: Fn(SubnetAvailableMemory, NumBytes, NumBytes, NumBytes) -> Result<
        SubnetAvailableMemory,
        SubnetAvailableMemoryError,
    >,
    Debit: Fn(&SystemState, CanisterId) -> SystemState,
    Refund: Fn(&SystemState, NumInstructions, NumInstructions, Cycles, usize) -> SystemState,
>(
    clean_canister: CanisterState,
    instructions_left: NumInstructions,
    original: OriginalContext,
    accounts: &RoundAccounts<Increment, TryDecrement, Debit, Refund>,
    err: CanisterManagerError,
) -> (outcome: DtsInstallCodeResult)
    requires
        accounts.is_total(),
    ensures
        accounts.may_finish_early(clean_canister@, instructions_left, original, err, outcome),
{
    let message_instruction_limit: NumInstructions =
        original.execution_parameters.instruction_limits.message();
    let system_state = (accounts.refund_unused_execution_cycles)(
        &clean_canister.system_state,
        instructions_left,
        message_instruction_limit,
        original.prepaid_execution_cycles,
        original.subnet_size,
    );
    assert(accounts.refunds(
        clean_canister.system_state@,
        instructions_left,
        message_instruction_limit,
        original.prepaid_execution_cycles,
        original.subnet_size,
        system_state@,
    ));

    let instructions_used: NumInstructions = message_instruction_limit.saturating_sub(
        instructions_left,
    );

    DtsInstallCodeResult::Finished {
        canister: CanisterState {
            system_state,
            execution_state: clean_canister.execution_state,
            scheduler_state: clean_canister.scheduler_state,
        },
        message: original.message,
        instructions_used,
        result: Err(err),
    }
}

/// The hash of the canister's module, if it has one.
pub fn get_wasm_hash(canister: &CanisterState) -> (hash: Option<WasmHash>)
    ensures
        hash == module_hash(canister@),
{
    match &canister.execution_state {
        Some(execution_state) => Some(execution_state.wasm_binary.module_hash),
        None => None,
    }
}

/// Checks that `controller` may change the canister.
pub fn validate_controller(canister: &CanisterState, controller: &PrincipalId) -> (result: Result<
    (),
    CanisterManagerError,
>)
    ensures
        if canister@.is_controlled_by(*controller) {
            result is Ok
        } else {
            canister@.rejects_controller(*controller, result)
        },
{
    let controllers = canister.controllers();
    let mut index: usize = 0;
    while index < controllers.len()
        invariant
            *controllers == canister.system_state.controllers,
            index <= controllers.len(),
            forall|i: int| 0 <= i < index ==> controllers[i] != *controller,
        decreases controllers.len() - index,
    {
        if controllers[index] == *controller {
            assert(controllers@.contains(*controller));
            return Ok(());
        }
        index = index + 1;
    }
    Err(
        CanisterManagerError::CanisterInvalidController {
            canister_id: canister.canister_id(),
            controllers_expected: copied(&canister.system_state.controllers),
            controller_provided: *controller,
        },
    )
}

/// The larger of a reservation and of what is used.
fn held(memory_allocation: MemoryAllocation, memory_usage: NumBytes) -> (bytes: NumBytes)
    ensures
        bytes == bytes_held(memory_allocation, memory_usage as int),
{
    let reserved: NumBytes = memory_allocation.bytes();
    if reserved > memory_usage {
        reserved
    } else {
        memory_usage
    }
}

} // verus!
