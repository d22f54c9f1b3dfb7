use std::cell::RefCell;

use replica_steps::canister::{
    CanisterState, ExecutionState, Globals, Memory, SchedulerState, SystemState, WasmBinary,
    WasmMetadata,
};
use replica_steps::context::{
    AppliedChanges, CanisterCall, CanisterMgrConfig, CompilationCostHandling,
    ExecutionParameters, InstructionLimits, OriginalContext, RoundAccounts, RoundContext, RoundLimits, SettingsRequest,
    SubnetAvailableMemory, SystemStateChanges,
};
use replica_steps::errors::{CanisterManagerError, SubnetAvailableMemoryError};
use replica_steps::install_code::{finish_err, InstallCodeHelper};
use replica_steps::install_model::{CanisterStateChanges, InstanceStats, WasmExecutionOutput};
use replica_steps::settlement::{
    reject_memory, settle, settle_compute, DtsInstallCodeResult, InstallCodeResult,
};
use replica_steps::types::{
    CanisterId, CanisterInstallMode, CanisterTimer, ComputeAllocation, FlagStatus,
    MemoryAllocation, PrincipalId, StableMemoryHandling, Time,
};

fn percent(percent: u64) -> ComputeAllocation {
    ComputeAllocation { percent }
}

/// Code that is charged `bytes` bytes.
fn code(id: u8, bytes: u64, section_bytes: u64) -> ExecutionState {
    ExecutionState {
        wasm_binary: WasmBinary { module_hash: [id; 32], memory_usage: bytes },
        wasm_memory: Memory { page_map: 1, memory_usage: 0 },
        stable_memory: Memory { page_map: 2, memory_usage: 0 },
        exported_globals: Globals { values: 3, memory_usage: 0 },
        metadata: WasmMetadata { custom_sections: 4, memory_usage: section_bytes },
    }
}

fn canister(execution_state: Option<ExecutionState>) -> CanisterState {
    CanisterState {
        system_state: SystemState {
            canister_id: CanisterId(PrincipalId { high: 0, low: 77 }),
            controllers: vec![PrincipalId { high: 0, low: 1 }],
            canister_version: 4,
            global_timer: CanisterTimer::Inactive,
            certified_data: vec![],
            memory_allocation: MemoryAllocation::BestEffort,
            cycles_balance: 5_000,
            ingress_induction_cycles_debit: 100,
            canister_history: vec![],
            memory_usage: 0,
        },
        execution_state,
        scheduler_state: SchedulerState {
            compute_allocation: percent(10),
            install_code_debit: 7,
        },
    }
}

fn context() -> OriginalContext {
    OriginalContext {
        execution_parameters: ExecutionParameters {
            instruction_limits: InstructionLimits { message: 1_000, max_slice: 500 },
            canister_memory_limit: 10_000,
            compute_allocation: percent(10),
            memory_allocation: MemoryAllocation::BestEffort,
        },
        mode: CanisterInstallMode::Reinstall,
        canister_layout_path: String::from("/state/77"),
        config: CanisterMgrConfig {
            rate_limiting_of_instructions: FlagStatus::Enabled,
            compute_capacity: 100,
            max_controllers: 10,
        },
        message: CanisterCall { id: 42 },
        prepaid_execution_cycles: 800,
        time: 123,
        compilation_cost_handling: CompilationCostHandling::CountFullAmount,
        subnet_size: 13,
        requested_compute_allocation: None,
        requested_memory_allocation: None,
        sender: PrincipalId { high: 0, low: 1 },
        canister_id: CanisterId(PrincipalId { high: 0, low: 77 }),
    }
}

fn memory(execution: i64, messages: i64, sections: i64) -> SubnetAvailableMemory {
    SubnetAvailableMemory {
        execution_memory: execution,
        message_memory: messages,
        wasm_custom_sections_memory: sections,
    }
}

fn limits() -> RoundLimits {
    RoundLimits { subnet_available_memory: memory(1_000, 200, 50), compute_allocation_used: 30 }
}

fn increment(available: SubnetAvailableMemory, a: u64, b: u64, c: u64) -> SubnetAvailableMemory {
    memory(
        available.execution_memory + a as i64,
        available.message_memory + b as i64,
        available.wasm_custom_sections_memory + c as i64,
    )
}

fn try_decrement(
    available: SubnetAvailableMemory,
    a: u64,
    b: u64,
    c: u64,
) -> Result<SubnetAvailableMemory, SubnetAvailableMemoryError> {
    let left = memory(
        available.execution_memory - a as i64,
        available.message_memory - b as i64,
        available.wasm_custom_sections_memory - c as i64,
    );
    if left.execution_memory < 0 || left.message_memory < 0 || left.wasm_custom_sections_memory < 0
    {
        Err(SubnetAvailableMemoryError::InsufficientMemory {
            execution_requested: a,
            message_requested: b,
            wasm_custom_sections_requested: c,
            available_execution: available.execution_memory,
            available_messages: available.message_memory,
            available_wasm_custom_sections: available.wasm_custom_sections_memory,
        })
    } else {
        Ok(left)
    }
}

fn debit(state: &SystemState, _canister_id: CanisterId) -> SystemState {
    let mut state = state.clone();
    state.cycles_balance -= state.ingress_induction_cycles_debit;
    state.ingress_induction_cycles_debit = 0;
    state
}

/// Refunds the prepaid cycles in proportion to the instructions that are left.
fn refund(
    state: &SystemState,
    left: u64,
    limit: u64,
    prepaid: u128,
    _subnet_size: usize,
) -> SystemState {
    let mut state = state.clone();
    state.cycles_balance += prepaid * left as u128 / limit as u128;
    state
}

fn accept(_request: SettingsRequest) -> Result<(), CanisterManagerError> {
    Ok(())
}

fn apply(state: &SystemState, _changes: SystemStateChanges, _time: Time) -> AppliedChanges {
    (state.clone(), Ok(()))
}

fn replaced(
    clean: &CanisterState,
    new: ExecutionState,
    original: &OriginalContext,
) -> InstallCodeHelper {
    let mut helper = InstallCodeHelper::new(clean, original);
    helper
        .replace_execution_state_and_allocations(
            250,
            Ok(new),
            StableMemoryHandling::Replace,
            original,
        )
        .unwrap();
    helper
}

#[test]
fn a_good_installation_is_settled() {
    let accounts = RoundAccounts {
        increment,
        try_decrement,
        apply_ingress_induction_cycles_debit: debit,
        refund_unused_execution_cycles: refund,
    };
    let mut original = context();
    original.requested_compute_allocation = Some(percent(60));
    let clean = canister(Some(code(1, 100, 30)));
    let helper = replaced(&clean, code(2, 400, 10), &original);
    let mut round_limits = limits();
    let outcome = helper.finish(clean, original, &accounts, &mut round_limits);

    // 300 more bytes of memory, 20 fewer of custom sections, 50 more percent.
    assert_eq!(
        round_limits,
        RoundLimits { subnet_available_memory: memory(700, 200, 70), compute_allocation_used: 80 }
    );
    let mut expected = canister(Some(code(2, 400, 10)));
    // 100 cycles of debit, and three quarters of 800 back.
    expected.system_state.cycles_balance = 5_500;
    expected.system_state.ingress_induction_cycles_debit = 0;
    expected.scheduler_state.compute_allocation = percent(60);
    expected.scheduler_state.install_code_debit = 257;
    assert_eq!(
        outcome,
        DtsInstallCodeResult::Finished {
            canister: expected,
            message: CanisterCall { id: 42 },
            instructions_used: 250,
            result: Ok(InstallCodeResult {
                heap_delta: 0,
                old_wasm_hash: Some([1; 32]),
                new_wasm_hash: Some([2; 32]),
            }),
        }
    );
}

#[test]
fn executions_are_settled_with_their_allocations() {
    let taken = RefCell::new(vec![]);
    let accounts = RoundAccounts {
        increment: |available: SubnetAvailableMemory, a: u64, b: u64, c: u64| {
            taken.borrow_mut().push((a, b, c));
            increment(available, a, b, c)
        },
        try_decrement: |available: SubnetAvailableMemory, a: u64, b: u64, c: u64| {
            taken.borrow_mut().push((a, b, c));
            try_decrement(available, a, b, c)
        },
        apply_ingress_induction_cycles_debit: debit,
        refund_unused_execution_cycles: refund,
    };
    let round = RoundContext { validate_canister_settings: accept, apply_changes: apply };
    let output = WasmExecutionOutput {
        wasm_result: Ok(None),
        num_instructions_left: 500,
        allocated_bytes: 60,
        allocated_message_bytes: 6,
        instance_stats: InstanceStats { dirty_pages: 3 },
    };
    let changes = CanisterStateChanges {
        globals: Globals { values: 31, memory_usage: 0 },
        wasm_memory: Memory { page_map: 11, memory_usage: 60 },
        stable_memory: Memory { page_map: 21, memory_usage: 0 },
        system_state_changes: SystemStateChanges { id: 1 },
    };

    let original = context();
    let clean = canister(Some(code(1, 400, 0)));
    let mut helper = replaced(&clean, code(2, 100, 5), &original);
    helper.handle_wasm_execution(Some(changes), output, &original, &round).unwrap();
    let DtsInstallCodeResult::Finished { result, instructions_used, .. } =
        helper.finish(clean.clone(), original, &accounts, &mut limits());
    assert_eq!(taken.take(), vec![(300, 0, 0), (60, 6, 5)]);
    assert_eq!(instructions_used, 500);
    assert_eq!(result.unwrap().heap_delta, 3 * 4096);

    // Under a reservation the execution takes nothing anew.
    let mut original = context();
    original.requested_memory_allocation = Some(MemoryAllocation::Reserved(900));
    let mut helper = replaced(&clean, code(2, 100, 5), &original);
    helper.handle_wasm_execution(Some(changes), output, &original, &round).unwrap();
    helper.finish(clean, original, &accounts, &mut limits());
    assert_eq!(taken.take(), vec![(0, 0, 0), (500, 0, 5)]);
}

#[test]
fn an_installation_without_memory_changes_nothing_else() {
    let accounts = RoundAccounts {
        increment,
        try_decrement,
        apply_ingress_induction_cycles_debit: debit,
        refund_unused_execution_cycles: refund,
    };
    let original = context();
    let clean = canister(Some(code(1, 100, 30)));
    let helper = replaced(&clean, code(2, 2_000, 10), &original);
    let mut round_limits = limits();
    let outcome = helper.finish(clean, original, &accounts, &mut round_limits);
    assert_eq!(round_limits, limits());

    // Three quarters of 800 back, and nothing else.
    let mut expected = canister(Some(code(1, 100, 30)));
    expected.system_state.cycles_balance = 5_600;
    assert_eq!(
        outcome,
        DtsInstallCodeResult::Finished {
            canister: expected,
            message: CanisterCall { id: 42 },
            instructions_used: 250,
            result: Err(CanisterManagerError::SubnetMemoryCapacityOverSubscribed {
                requested: 1_900,
                available: 1_000,
            }),
        }
    );
}

#[test]
fn an_installation_without_compute_changes_nothing_else() {
    let accounts = RoundAccounts {
        increment,
        try_decrement,
        apply_ingress_induction_cycles_debit: debit,
        refund_unused_execution_cycles: refund,
    };
    let mut original = context();
    original.requested_compute_allocation = Some(percent(80));
    let clean = canister(None);
    let helper = replaced(&clean, code(2, 100, 10), &original);
    let mut round_limits = limits();
    let DtsInstallCodeResult::Finished { canister: left, result, .. } =
        helper.finish(clean, original, &accounts, &mut round_limits);
    assert_eq!(round_limits, limits());
    let mut expected = canister(None);
    expected.system_state.cycles_balance = 5_600;
    assert_eq!(left, expected);
    assert_eq!(
        result,
        Err(CanisterManagerError::SubnetComputeCapacityOverSubscribed {
            requested: percent(80),
            available: 79,
        })
    );
}

#[test]
fn an_early_end_refunds_and_changes_nothing_else() {
    let accounts = RoundAccounts {
        increment,
        try_decrement,
        apply_ingress_induction_cycles_debit: debit,
        refund_unused_execution_cycles: refund,
    };
    let error = CanisterManagerError::InstallCodeRateLimited(CanisterId(PrincipalId {
        high: 0,
        low: 77,
    }));
    let mut expected = canister(None);
    expected.system_state.cycles_balance = 5_000 + 200;
    assert_eq!(
        finish_err(canister(None), 250, context(), &accounts, error.clone()),
        DtsInstallCodeResult::Finished {
            canister: expected,
            message: CanisterCall { id: 42 },
            instructions_used: 750,
            result: Err(error.clone()),
        }
    );

    // More instructions left than there were.
    let DtsInstallCodeResult::Finished { instructions_used, .. } =
        finish_err(canister(None), 1_001, context(), &accounts, error);
    assert_eq!(instructions_used, 0);
}

#[test]
fn a_good_installation_limits_the_rate_of_the_next() {
    let accounts = RoundAccounts {
        increment,
        try_decrement,
        apply_ingress_induction_cycles_debit: debit,
        refund_unused_execution_cycles: refund,
    };
    let round = RoundContext { validate_canister_settings: accept, apply_changes: apply };
    let mut clean = canister(None);
    clean.scheduler_state.install_code_debit = 0;
    let mut original = context();
    let mut helper = InstallCodeHelper::new(&clean, &original);
    assert_eq!(helper.validate_input(&original, &round, &limits()), Ok(()));
    let helper = replaced(&clean, code(2, 100, 10), &original);
    let DtsInstallCodeResult::Finished { canister: installed, .. } =
        helper.finish(clean.clone(), original.clone(), &accounts, &mut limits());
    assert_eq!(
        InstallCodeHelper::new(&installed, &original).validate_input(&original, &round, &limits()),
        Err(CanisterManagerError::InstallCodeRateLimited(installed.canister_id()))
    );

    // An installation that failed leaves no debit, and one without rate limiting none either.
    let helper = replaced(&clean, code(2, 2_000, 10), &original);
    let DtsInstallCodeResult::Finished { canister: failed, .. } =
        helper.finish(clean.clone(), original.clone(), &accounts, &mut limits());
    assert_eq!(
        InstallCodeHelper::new(&failed, &original).validate_input(&original, &round, &limits()),
        Ok(())
    );
    original.config.rate_limiting_of_instructions = FlagStatus::Disabled;
    let helper = replaced(&clean, code(2, 100, 10), &original);
    let DtsInstallCodeResult::Finished { canister: unlimited, .. } =
        helper.finish(clean, original, &accounts, &mut limits());
    assert_eq!(unlimited.scheduler_state.install_code_debit, 0);
}

fn insufficient(requested: u64, sections: u64, execution: i64, available: i64) -> SubnetAvailableMemoryError {
    SubnetAvailableMemoryError::InsufficientMemory {
        execution_requested: requested,
        message_requested: 1,
        wasm_custom_sections_requested: sections,
        available_execution: execution,
        available_messages: 2,
        available_wasm_custom_sections: available,
    }
}

#[test]
fn custom_sections_are_blamed_first() {
    assert_eq!(
        reject_memory(insufficient(10, 6, 5, 5)),
        CanisterManagerError::SubnetWasmCustomSectionCapacityOverSubscribed {
            requested: 6,
            available: 5,
        }
    );
    assert_eq!(
        reject_memory(insufficient(10, 0, 5, -3)),
        CanisterManagerError::SubnetWasmCustomSectionCapacityOverSubscribed {
            requested: 0,
            available: 0,
        }
    );
    assert_eq!(
        reject_memory(insufficient(10, 5, -8, 5)),
        CanisterManagerError::SubnetMemoryCapacityOverSubscribed { requested: 10, available: 0 }
    );
    assert_eq!(
        reject_memory(insufficient(u64::MAX, 5, i64::MAX, 5)),
        CanisterManagerError::SubnetMemoryCapacityOverSubscribed {
            requested: u64::MAX,
            available: i64::MAX as u64,
        }
    );
}

#[test]
fn one_percent_of_compute_stays_free() {
    // 20 percent belong to others, so that 79 are at hand.
    assert_eq!(settle_compute(percent(10), percent(79), 30, 100), Ok(99));
    assert_eq!(
        settle_compute(percent(10), percent(80), 30, 100),
        Err(CanisterManagerError::SubnetComputeCapacityOverSubscribed {
            requested: percent(80),
            available: 79,
        })
    );
    // Nothing is at hand beyond what the canister has.
    assert_eq!(
        settle_compute(percent(10), percent(11), 200, 100),
        Err(CanisterManagerError::SubnetComputeCapacityOverSubscribed {
            requested: percent(11),
            available: 10,
        })
    );
    // To shrink or to stay is always possible.
    assert_eq!(settle_compute(percent(10), percent(3), 200, 100), Ok(193));
    assert_eq!(settle_compute(percent(10), percent(10), 200, 100), Ok(200));
    assert_eq!(settle_compute(percent(10), percent(4), 5, 100), Ok(4));
}

#[test]
fn memory_is_settled_before_compute() {
    let clean = canister(None);
    let mut grown = canister(None);
    grown.scheduler_state.compute_allocation = percent(90);
    let config = context().config;
    assert_eq!(
        settle(&clean, &grown, &config, &limits(), Err(insufficient(10, 0, 5, 5))),
        Err(CanisterManagerError::SubnetMemoryCapacityOverSubscribed {
            requested: 10,
            available: 5,
        })
    );
    assert_eq!(
        settle(&clean, &grown, &config, &limits(), Ok(memory(1, 2, 3))),
        Err(CanisterManagerError::SubnetComputeCapacityOverSubscribed {
            requested: percent(90),
            available: 79,
        })
    );
    assert_eq!(
        settle(&clean, &clean, &config, &limits(), Ok(memory(1, 2, 3))),
        Ok(RoundLimits { subnet_available_memory: memory(1, 2, 3), compute_allocation_used: 30 })
    );
}
