use std::cell::{Cell, RefCell};

use replica_steps::canister::{
    CanisterState, ExecutionState, Globals, Memory, SchedulerState, SystemState, WasmBinary,
    WasmMetadata,
};
use replica_steps::context::{
    AppliedChanges, CanisterCall, CanisterMgrConfig, CompilationCostHandling,
    ExecutionParameters, InstructionLimits, OriginalContext, RoundContext, RoundLimits,
    SettingsRequest, SubnetAvailableMemory, SystemStateChanges,
};
use replica_steps::errors::{CanisterManagerError, HypervisorError};
use replica_steps::install_code::{get_wasm_hash, validate_controller, InstallCodeHelper};
use replica_steps::install_model::{
    CanisterStateChanges, InstanceStats, WasmExecutionOutput, WasmResult,
};
use replica_steps::severity::Severity;
use replica_steps::types::{
    CanisterChange, CanisterChangeDetails, CanisterChangeOrigin, CanisterId, CanisterInstallMode,
    CanisterSettings, CanisterTimer, ComputeAllocation, FlagStatus, MemoryAllocation, PrincipalId,
    StableMemoryHandling, Time, PAGE_SIZE,
};

fn principal(low: u128) -> PrincipalId {
    PrincipalId { high: 0, low }
}

fn percent(percent: u64) -> ComputeAllocation {
    ComputeAllocation { percent }
}

/// Code that is charged 10 + `wasm_bytes` + `stable_bytes` + 8 bytes.
fn code(id: u8, wasm_bytes: u64, stable_bytes: u64, section_bytes: u64) -> ExecutionState {
    ExecutionState {
        wasm_binary: WasmBinary { module_hash: [id; 32], memory_usage: 10 },
        wasm_memory: Memory { page_map: 1000 + id as u64, memory_usage: wasm_bytes },
        stable_memory: Memory { page_map: 2000 + id as u64, memory_usage: stable_bytes },
        exported_globals: Globals { values: 3000 + id as u64, memory_usage: 8 },
        metadata: WasmMetadata { custom_sections: id as u64, memory_usage: section_bytes },
    }
}

/// A canister whose system state is charged 2 bytes.
fn canister(execution_state: Option<ExecutionState>) -> CanisterState {
    CanisterState {
        system_state: SystemState {
            canister_id: CanisterId(principal(77)),
            controllers: vec![principal(1), principal(2)],
            canister_version: 4,
            global_timer: CanisterTimer::Active(9),
            certified_data: vec![1, 2, 3],
            memory_allocation: MemoryAllocation::BestEffort,
            cycles_balance: 5_000,
            ingress_induction_cycles_debit: 100,
            canister_history: vec![],
            memory_usage: 2,
        },
        execution_state,
        scheduler_state: SchedulerState {
            compute_allocation: percent(10),
            install_code_debit: 0,
        },
    }
}

fn context(mode: CanisterInstallMode) -> OriginalContext {
    OriginalContext {
        execution_parameters: ExecutionParameters {
            instruction_limits: InstructionLimits { message: 1_000, max_slice: 500 },
            canister_memory_limit: 10_000,
            compute_allocation: percent(10),
            memory_allocation: MemoryAllocation::BestEffort,
        },
        mode,
        canister_layout_path: String::from("/state/77"),
        config: CanisterMgrConfig {
            rate_limiting_of_instructions: FlagStatus::Enabled,
            compute_capacity: 100,
            max_controllers: 10,
        },
        message: CanisterCall { id: 42 },
        prepaid_execution_cycles: 800,
        time: 123,
        compilation_cost_handling: CompilationCostHandling::CountReducedAmount,
        subnet_size: 13,
        requested_compute_allocation: None,
        requested_memory_allocation: None,
        sender: principal(2),
        canister_id: CanisterId(principal(77)),
    }
}

fn limits() -> RoundLimits {
    RoundLimits {
        subnet_available_memory: SubnetAvailableMemory {
            execution_memory: 1_000,
            message_memory: 200,
            wasm_custom_sections_memory: 50,
        },
        compute_allocation_used: 30,
    }
}

fn accept(_request: SettingsRequest) -> Result<(), CanisterManagerError> {
    Ok(())
}

/// Certifies the number of the changes, and fails after that if it is 13.
fn apply(state: &SystemState, changes: SystemStateChanges, _time: Time) -> AppliedChanges {
    let mut state = state.clone();
    state.certified_data = vec![changes.id as u8];
    if changes.id == 13 {
        (state, Err(HypervisorError::OutOfMemory))
    } else {
        (state, Ok(()))
    }
}

fn output(left: u64) -> WasmExecutionOutput {
    WasmExecutionOutput {
        wasm_result: Ok(None),
        num_instructions_left: left,
        allocated_bytes: 60,
        allocated_message_bytes: 6,
        instance_stats: InstanceStats { dirty_pages: 3 },
    }
}

fn changes(id: u64) -> CanisterStateChanges {
    CanisterStateChanges {
        globals: Globals { values: 31, memory_usage: 8 },
        wasm_memory: Memory { page_map: 11, memory_usage: 160 },
        stable_memory: Memory { page_map: 21, memory_usage: 70 },
        system_state_changes: SystemStateChanges { id },
    }
}

#[test]
fn a_new_helper_has_the_clean_canister_and_all_instructions() {
    let clean = canister(Some(code(1, 100, 50, 5)));
    let original = context(CanisterInstallMode::Install);
    let helper = InstallCodeHelper::new(&clean, &original);
    assert_eq!(*helper.canister(), clean);
    assert_eq!(*helper.execution_parameters(), original.execution_parameters);
    assert_eq!(helper.instructions_left(), 1_000);
    assert_eq!(helper.instructions_consumed(), 0);
    assert_eq!(helper.canister_memory_usage(), 2 + 10 + 100 + 50 + 8);
}

#[test]
fn validation_asks_for_the_requested_settings() {
    let asked = RefCell::new(None);
    let round = RoundContext {
        validate_canister_settings: |request: SettingsRequest| {
            *asked.borrow_mut() = Some(request);
            Ok(())
        },
        apply_changes: apply,
    };
    let mut original = context(CanisterInstallMode::Upgrade);
    original.requested_compute_allocation = Some(percent(20));
    original.requested_memory_allocation = Some(MemoryAllocation::Reserved(500));
    let clean = canister(Some(code(1, 100, 50, 5)));
    let mut helper = InstallCodeHelper::new(&clean, &original);
    assert_eq!(helper.validate_input(&original, &round, &limits()), Ok(()));
    assert_eq!(
        asked.take(),
        Some(SettingsRequest {
            settings: CanisterSettings {
                controller: None,
                controllers: None,
                compute_allocation: Some(percent(20)),
                memory_allocation: Some(MemoryAllocation::Reserved(500)),
                freezing_threshold: None,
            },
            canister_memory_usage: 170,
            canister_memory_allocation: MemoryAllocation::BestEffort,
            subnet_available_memory: limits().subnet_available_memory,
            canister_compute_allocation: percent(10),
            subnet_compute_allocation_used: 30,
            subnet_compute_capacity: 100,
            max_controllers: 10,
        })
    );
}

#[test]
fn validation_refuses_a_sender_who_is_no_controller() {
    let asked = Cell::new(false);
    let round = RoundContext {
        validate_canister_settings: |_request: SettingsRequest| {
            asked.set(true);
            Err(CanisterManagerError::InvalidSettings(7))
        },
        apply_changes: apply,
    };
    let mut original = context(CanisterInstallMode::Install);
    original.sender = principal(3);
    let clean = canister(Some(code(1, 0, 0, 0)));
    let mut helper = InstallCodeHelper::new(&clean, &original);
    assert_eq!(
        helper.validate_input(&original, &round, &limits()),
        Err(CanisterManagerError::CanisterInvalidController {
            canister_id: CanisterId(principal(77)),
            controllers_expected: vec![principal(1), principal(2)],
            controller_provided: principal(3),
        })
    );
    assert!(!asked.get());
}

#[test]
fn validation_refuses_in_a_fixed_order() {
    let refuse = RoundContext {
        validate_canister_settings: |_request: SettingsRequest| {
            Err(CanisterManagerError::InvalidSettings(7))
        },
        apply_changes: apply,
    };
    let round = RoundContext { validate_canister_settings: accept, apply_changes: apply };
    let id = CanisterId(principal(77));
    let original = context(CanisterInstallMode::Install);
    let mut full = canister(Some(code(1, 0, 0, 0)));
    full.scheduler_state.install_code_debit = 1;

    let mut helper = InstallCodeHelper::new(&full, &original);
    assert_eq!(
        helper.validate_input(&original, &refuse, &limits()),
        Err(CanisterManagerError::InvalidSettings(7))
    );
    assert_eq!(
        helper.validate_input(&original, &round, &limits()),
        Err(CanisterManagerError::CanisterNonEmpty(id))
    );
    let mut original = context(CanisterInstallMode::Reinstall);
    assert_eq!(
        helper.validate_input(&original, &round, &limits()),
        Err(CanisterManagerError::InstallCodeRateLimited(id))
    );
    original.config.rate_limiting_of_instructions = FlagStatus::Disabled;
    assert_eq!(helper.validate_input(&original, &round, &limits()), Ok(()));
    assert_eq!(
        helper.conclude_validation(&original, Err(CanisterManagerError::InvalidSettings(8))),
        Err(CanisterManagerError::InvalidSettings(8))
    );
    assert_eq!(helper.conclude_validation(&original, Ok(())), Ok(()));
}

#[test]
fn an_empty_canister_can_be_installed() {
    let round = RoundContext { validate_canister_settings: accept, apply_changes: apply };
    let original = context(CanisterInstallMode::Install);
    let mut helper = InstallCodeHelper::new(&canister(None), &original);
    assert_eq!(helper.validate_input(&original, &round, &limits()), Ok(()));
    assert_eq!(helper.instructions_left(), 1_000);
}

#[test]
fn a_replacement_puts_code_and_allocations_in_place() {
    let mut original = context(CanisterInstallMode::Upgrade);
    original.requested_compute_allocation = Some(percent(25));
    original.requested_memory_allocation = Some(MemoryAllocation::Reserved(400));
    let old = code(1, 100, 50, 5);
    let new = code(2, 200, 0, 9);
    let mut helper = InstallCodeHelper::new(&canister(Some(old)), &original);
    assert_eq!(
        helper.replace_execution_state_and_allocations(
            300,
            Ok(new),
            StableMemoryHandling::Keep,
            &original
        ),
        Ok(())
    );
    let installed = helper.canister().execution_state.unwrap();
    assert_eq!(installed.stable_memory, old.stable_memory);
    assert_eq!(installed.wasm_memory, new.wasm_memory);
    assert_eq!(installed.wasm_binary, new.wasm_binary);
    assert_eq!(helper.canister().compute_allocation(), percent(25));
    assert_eq!(helper.canister().memory_allocation(), MemoryAllocation::Reserved(400));
    assert_eq!(helper.execution_parameters().compute_allocation, percent(25));
    assert_eq!(
        helper.execution_parameters().memory_allocation,
        MemoryAllocation::Reserved(400)
    );
    assert_eq!(helper.execution_parameters().canister_memory_limit, 400);
    assert_eq!(helper.instructions_left(), 700);
    assert_eq!(helper.instructions_consumed(), 300);
    assert_eq!(helper.canister_memory_usage(), 2 + 10 + 200 + 50 + 8);
}

#[test]
fn a_replacement_can_drop_the_stable_memory() {
    let original = context(CanisterInstallMode::Reinstall);
    let new = code(2, 200, 7, 9);
    let mut helper = InstallCodeHelper::new(&canister(Some(code(1, 100, 50, 5))), &original);
    assert_eq!(
        helper.replace_execution_state_and_allocations(
            5_000,
            Ok(new),
            StableMemoryHandling::Replace,
            &original
        ),
        Ok(())
    );
    assert_eq!(helper.canister().execution_state, Some(new));
    assert_eq!(helper.canister().compute_allocation(), percent(10));
    assert_eq!(helper.canister().memory_allocation(), MemoryAllocation::BestEffort);
    assert_eq!(helper.execution_parameters().canister_memory_limit, 10_000);
    // More instructions than there were.
    assert_eq!(helper.instructions_left(), 0);
}

#[test]
fn an_empty_canister_has_no_stable_memory_to_keep() {
    let original = context(CanisterInstallMode::Install);
    let new = code(2, 200, 7, 9);
    let mut helper = InstallCodeHelper::new(&canister(None), &original);
    assert_eq!(
        helper.replace_execution_state_and_allocations(
            0,
            Ok(new),
            StableMemoryHandling::Keep,
            &original
        ),
        Ok(())
    );
    assert_eq!(helper.canister().execution_state, Some(new));
}

#[test]
fn a_replacement_fails_with_the_compilation() {
    let original = context(CanisterInstallMode::Install);
    let clean = canister(Some(code(1, 100, 50, 5)));
    let mut helper = InstallCodeHelper::new(&clean, &original);
    assert_eq!(
        helper.replace_execution_state_and_allocations(
            300,
            Err(HypervisorError::WasmEngineError(5)),
            StableMemoryHandling::Keep,
            &original
        ),
        Err(CanisterManagerError::Hypervisor(
            CanisterId(principal(77)),
            HypervisorError::WasmEngineError(5)
        ))
    );
    assert_eq!(*helper.canister(), clean);
    assert_eq!(helper.instructions_left(), 700);
}

#[test]
fn a_replacement_must_fit_in_the_reservation() {
    let mut original = context(CanisterInstallMode::Install);
    original.requested_memory_allocation = Some(MemoryAllocation::Reserved(219));
    let mut helper = InstallCodeHelper::new(&canister(None), &original);
    // The new canister uses 2 + 10 + 200 + 0 + 8 bytes.
    assert_eq!(
        helper.replace_execution_state_and_allocations(
            0,
            Ok(code(2, 200, 0, 0)),
            StableMemoryHandling::Replace,
            &original
        ),
        Err(CanisterManagerError::NotEnoughMemoryAllocationGiven {
            memory_allocation_given: MemoryAllocation::Reserved(219),
            memory_usage_needed: 220,
        })
    );
    original.requested_memory_allocation = Some(MemoryAllocation::Reserved(220));
    let mut helper = InstallCodeHelper::new(&canister(None), &original);
    assert_eq!(
        helper.replace_execution_state_and_allocations(
            0,
            Ok(code(2, 200, 0, 0)),
            StableMemoryHandling::Replace,
            &original
        ),
        Ok(())
    );
}

#[test]
fn a_reservation_is_not_given_up() {
    let original = context(CanisterInstallMode::Reinstall);
    let mut clean = canister(None);
    clean.system_state.memory_allocation = MemoryAllocation::Reserved(300);
    let mut helper = InstallCodeHelper::new(&clean, &original);
    assert_eq!(
        helper.replace_execution_state_and_allocations(
            0,
            Ok(code(2, 200, 0, 0)),
            StableMemoryHandling::Replace,
            &original
        ),
        Ok(())
    );
    assert_eq!(helper.canister().memory_allocation(), MemoryAllocation::Reserved(300));
    assert_eq!(helper.execution_parameters().canister_memory_limit, 300);
}

#[test]
fn validation_leaves_the_canister_alone() {
    let round = RoundContext { validate_canister_settings: accept, apply_changes: apply };
    let original = context(CanisterInstallMode::Install);
    for clean in [canister(None), canister(Some(code(1, 100, 50, 5)))] {
        let mut helper = InstallCodeHelper::new(&clean, &original);
        let result = helper.validate_input(&original, &round, &limits());
        assert_eq!(result.is_ok(), clean.execution_state.is_none());
        assert_eq!(*helper.canister(), clean);
        assert_eq!(*helper.execution_parameters(), original.execution_parameters);
    }
}

#[test]
fn a_failed_execution_changes_no_code() {
    let round = RoundContext { validate_canister_settings: accept, apply_changes: apply };
    let original = context(CanisterInstallMode::Install);
    let clean = canister(Some(code(1, 100, 50, 5)));
    let mut helper = InstallCodeHelper::new(&clean, &original);
    let error = HypervisorError::SliceOverrun { instructions: 600, limit: 500 };
    let mut failed = output(400);
    failed.wasm_result = Err(error);
    assert_eq!(
        helper.handle_wasm_execution(Some(changes(3)), failed, &original, &round),
        Err(CanisterManagerError::Hypervisor(CanisterId(principal(77)), error))
    );
    assert_eq!(*helper.canister(), clean);
    assert_eq!(helper.instructions_left(), 400);
}

#[test]
fn failures_have_their_severity() {
    let overrun = HypervisorError::SliceOverrun { instructions: 600, limit: 500 };
    assert_eq!(overrun.severity_in_execution(), Some(Severity::Info));
    assert_eq!(overrun.severity_in_application(), Severity::Error);
    assert_eq!(HypervisorError::OutOfMemory.severity_in_execution(), None);
    assert_eq!(HypervisorError::OutOfMemory.severity_in_application(), Severity::Warning);
    for error in [HypervisorError::WasmEngineError(1), HypervisorError::Other(2)] {
        assert_eq!(error.severity_in_execution(), None);
        assert_eq!(error.severity_in_application(), Severity::Error);
    }
}

#[test]
fn an_execution_without_changes_only_uses_instructions() {
    let round = RoundContext { validate_canister_settings: accept, apply_changes: apply };
    let original = context(CanisterInstallMode::Install);
    let clean = canister(Some(code(1, 100, 50, 5)));
    let mut helper = InstallCodeHelper::new(&clean, &original);
    assert_eq!(helper.handle_wasm_execution(None, output(400), &original, &round), Ok(()));
    assert_eq!(*helper.canister(), clean);
    assert_eq!(helper.instructions_left(), 400);
    assert_eq!(helper.instructions_consumed(), 600);
}

#[test]
fn the_changes_of_an_execution_are_taken_over() {
    let round = RoundContext { validate_canister_settings: accept, apply_changes: apply };
    let original = context(CanisterInstallMode::Install);
    let old = code(1, 100, 50, 5);
    let mut helper = InstallCodeHelper::new(&canister(Some(old)), &original);
    assert_eq!(
        helper.handle_wasm_execution(Some(changes(3)), output(400), &original, &round),
        Ok(())
    );
    assert_eq!(
        helper.canister().execution_state,
        Some(ExecutionState {
            wasm_memory: Memory { page_map: 11, memory_usage: 160 },
            stable_memory: Memory { page_map: 21, memory_usage: 70 },
            exported_globals: Globals { values: 31, memory_usage: 8 },
            ..old
        })
    );
    assert_eq!(helper.canister().system_state.certified_data, vec![3]);
}

#[test]
fn changes_that_cannot_be_applied_fail_the_execution() {
    let round = RoundContext { validate_canister_settings: accept, apply_changes: apply };
    let original = context(CanisterInstallMode::Install);
    let old = code(1, 100, 50, 5);
    let mut helper = InstallCodeHelper::new(&canister(Some(old)), &original);
    assert_eq!(
        helper.handle_wasm_execution(Some(changes(13)), output(400), &original, &round),
        Err(CanisterManagerError::Hypervisor(
            CanisterId(principal(77)),
            HypervisorError::OutOfMemory
        ))
    );
    assert_eq!(helper.canister().execution_state, Some(old));
    assert_eq!(helper.canister().system_state.certified_data, vec![13]);
}

#[test]
fn applied_changes_can_be_committed_directly() {
    let original = context(CanisterInstallMode::Install);
    let clean = canister(Some(code(1, 100, 50, 5)));
    let mut helper = InstallCodeHelper::new(&clean, &original);
    let applied = (clean.system_state.clone(), Err(HypervisorError::Other(6)));
    assert_eq!(
        helper.commit_wasm_execution(Some(changes(3)), output(400), Some(applied)),
        Err(CanisterManagerError::Hypervisor(
            CanisterId(principal(77)),
            HypervisorError::Other(6)
        ))
    );
    assert_eq!(helper.commit_wasm_execution(None, output(300), None), Ok(()));
    assert_eq!(helper.instructions_left(), 300);
    let applied = (clean.system_state.clone(), Ok(()));
    assert_eq!(
        helper.commit_wasm_execution(Some(changes(3)), output(200), Some(applied)),
        Ok(())
    );
    assert_eq!(helper.canister().execution_state.unwrap().wasm_memory.page_map, 11);
}

#[test]
fn a_resumed_execution_is_where_it_was_paused() {
    let round = RoundContext { validate_canister_settings: accept, apply_changes: apply };
    let original = context(CanisterInstallMode::Install);
    let clean = canister(None);
    let mut helper = InstallCodeHelper::new(&clean, &original);
    helper.validate_input(&original, &round, &limits()).unwrap();
    helper
        .replace_execution_state_and_allocations(
            300,
            Ok(code(2, 200, 7, 9)),
            StableMemoryHandling::Replace,
            &original,
        )
        .unwrap();
    helper
        .handle_wasm_execution(Some(changes(3)), output(400), &original, &round)
        .unwrap();
    let before = format!("{:?}", helper);

    let paused = helper.pause();
    let resumed =
        InstallCodeHelper::resume(&clean, paused, &original, &round, &limits()).unwrap();
    assert_eq!(format!("{:?}", resumed), before);
    assert_eq!(resumed.instructions_left(), 400);
}

#[test]
fn an_execution_over_several_rounds_resumes_under_other_limits() {
    // Settings are accepted while there is compute left.
    let round = RoundContext {
        validate_canister_settings: |request: SettingsRequest| {
            if request.subnet_compute_allocation_used < 90 {
                Ok(())
            } else {
                Err(CanisterManagerError::InvalidSettings(7))
            }
        },
        apply_changes: apply,
    };
    let under = |used: u64| RoundLimits { compute_allocation_used: used, ..limits() };
    let original = context(CanisterInstallMode::Reinstall);
    let clean = canister(None);
    let mut helper = InstallCodeHelper::new(&clean, &original);
    helper.validate_input(&original, &round, &under(30)).unwrap();
    helper
        .replace_execution_state_and_allocations(
            300,
            Ok(code(2, 200, 7, 9)),
            StableMemoryHandling::Replace,
            &original,
        )
        .unwrap();
    let mut helper =
        InstallCodeHelper::resume(&clean, helper.pause(), &original, &round, &under(50)).unwrap();
    helper.validate_input(&original, &round, &under(50)).unwrap();
    helper
        .handle_wasm_execution(Some(changes(3)), output(400), &original, &round)
        .unwrap();
    let before = format!("{:?}", helper);

    let resumed =
        InstallCodeHelper::resume(&clean, helper.pause(), &original, &round, &under(89)).unwrap();
    assert_eq!(format!("{:?}", resumed), before);

    let failed =
        InstallCodeHelper::resume(&clean, resumed.pause(), &original, &round, &under(90));
    assert_eq!(
        failed.err(),
        Some((CanisterManagerError::InvalidSettings(7), 400))
    );
}

#[test]
fn a_resumed_execution_fails_with_its_steps() {
    let round = RoundContext { validate_canister_settings: accept, apply_changes: apply };
    let original = context(CanisterInstallMode::Install);
    let clean = canister(None);
    let mut helper = InstallCodeHelper::new(&clean, &original);
    helper.validate_input(&original, &round, &limits()).unwrap();
    helper
        .replace_execution_state_and_allocations(
            300,
            Ok(code(2, 200, 7, 9)),
            StableMemoryHandling::Replace,
            &original,
        )
        .unwrap();
    let paused = helper.pause();

    // Meanwhile somebody else took what the settings need.
    let refuse = RoundContext {
        validate_canister_settings: |_request: SettingsRequest| {
            Err(CanisterManagerError::InvalidSettings(7))
        },
        apply_changes: apply,
    };
    let failed = InstallCodeHelper::resume(&clean, paused, &original, &refuse, &limits());
    assert_eq!(
        failed.err(),
        Some((CanisterManagerError::InvalidSettings(7), 700))
    );
}

#[test]
fn a_resumed_execution_forgets_what_was_no_step() {
    let round = RoundContext { validate_canister_settings: accept, apply_changes: apply };
    let original = context(CanisterInstallMode::Install);
    let clean = canister(None);
    let mut helper = InstallCodeHelper::new(&clean, &original);
    helper.bump_canister_version();
    assert_eq!(helper.canister().system_state.canister_version, 5);
    let resumed =
        InstallCodeHelper::resume(&clean, helper.pause(), &original, &round, &limits()).unwrap();
    assert_eq!(resumed.canister().system_state.canister_version, 4);
}

#[test]
fn the_system_state_can_be_touched_up() {
    let original = context(CanisterInstallMode::Install);
    let mut helper = InstallCodeHelper::new(&canister(None), &original);
    helper.clear_certified_data();
    helper.deactivate_global_timer();
    helper.bump_canister_version();
    let state = &helper.canister().system_state;
    assert!(state.certified_data.is_empty());
    assert_eq!(state.global_timer, CanisterTimer::Inactive);
    assert_eq!(state.canister_version, 5);
    assert_eq!(state.cycles_balance, 5_000);
}

#[test]
fn a_deployment_enters_the_history() {
    let original = context(CanisterInstallMode::Install);
    let mut helper = InstallCodeHelper::new(&canister(None), &original);
    let origin = CanisterChangeOrigin::FromUser { user_id: principal(1) };
    let add = |state: &SystemState,
               timestamp_nanos: Time,
               origin: CanisterChangeOrigin,
               details: CanisterChangeDetails| {
        let mut state = state.clone();
        state.canister_history.push(CanisterChange {
            timestamp_nanos,
            canister_version: state.canister_version,
            origin,
            details,
        });
        state
    };
    helper.add_canister_change(55, origin, CanisterInstallMode::Upgrade, [8; 32], &add);
    assert_eq!(
        helper.canister().system_state.canister_history,
        vec![CanisterChange {
            timestamp_nanos: 55,
            canister_version: 4,
            origin,
            details: CanisterChangeDetails::CodeDeployment {
                mode: CanisterInstallMode::Upgrade,
                module_hash: [8; 32],
            },
        }]
    );
}

#[test]
fn controllers_are_told_from_others() {
    let clean = canister(None);
    assert_eq!(validate_controller(&clean, &principal(1)), Ok(()));
    assert_eq!(validate_controller(&clean, &principal(2)), Ok(()));
    let stranger = PrincipalId { high: 1, low: 1 };
    assert_eq!(
        validate_controller(&clean, &stranger),
        Err(CanisterManagerError::CanisterInvalidController {
            canister_id: CanisterId(principal(77)),
            controllers_expected: clean.system_state.controllers.clone(),
            controller_provided: stranger,
        })
    );
}

#[test]
fn only_code_has_a_hash() {
    assert_eq!(get_wasm_hash(&canister(None)), None);
    assert_eq!(get_wasm_hash(&canister(Some(code(6, 0, 0, 0)))), Some([6; 32]));
}

#[test]
fn amounts_are_plain() {
    assert_eq!(PAGE_SIZE, 4096);
    assert_eq!(MemoryAllocation::Reserved(5).bytes(), 5);
    assert_eq!(MemoryAllocation::BestEffort.bytes(), 0);
    let mut limits = InstructionLimits { message: 10, max_slice: 4 };
    limits.reduce_by(3);
    assert_eq!(limits.message(), 7);
    limits.reduce_by(8);
    assert_eq!(limits.message(), 0);
    limits.update(6);
    assert_eq!(limits, InstructionLimits { message: 6, max_slice: 4 });
    assert_eq!(canister(None).memory_limit(9), 9);
    assert_ne!(WasmResult { id: 1 }, WasmResult { id: 2 });
}
