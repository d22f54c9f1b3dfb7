use replica_steps::recovery::{
    take_if_made, RecoveryError, RecoveryIterator, RecoveryResult, Step,
};
use replica_steps::severity::Severity;
use replica_steps::step_iterator::StepIterator;

struct FakeStep {}

impl Step for FakeStep {
    fn descr(&self) -> String {
        String::from("Fake Step Description")
    }

    fn exec(&self) -> RecoveryResult<()> {
        Ok(())
    }
}

/// Fake RecoveryIterator which iterates from 0 to 9.
struct FakeRecoveryIterator {
    step_iterator: StepIterator<u64>,
    read_step_params_called: bool,
    interactive: bool,
    next_step: Option<u64>,
}

impl FakeRecoveryIterator {
    fn new(interactive: bool) -> Self {
        Self {
            step_iterator: StepIterator::new((0..10).collect()),
            read_step_params_called: false,
            interactive,
            next_step: None,
        }
    }
}

impl RecoveryIterator<u64> for FakeRecoveryIterator {
    type Step = Box<dyn Step>;

    fn get_step_iterator(&mut self) -> &mut StepIterator<u64> {
        &mut self.step_iterator
    }

    fn store_next_step(&mut self, next_step: Option<u64>) {
        self.next_step = next_step
    }

    fn interactive(&self) -> bool {
        self.interactive
    }

    fn get_step_impl(&self, _step_type: u64) -> RecoveryResult<Box<dyn Step>> {
        Ok(Box::new(FakeStep {}))
    }

    fn read_step_params(&mut self, _step_type: u64) {
        self.read_step_params_called = true;
    }
}

#[test]
fn resume_advances_to_right_step() {
    let mut fake_recovery_iterator = FakeRecoveryIterator::new(/*interactive=*/ true);

    fake_recovery_iterator.resume(5);

    assert_eq!(fake_recovery_iterator.step_iterator.next(), Some(5));
}

#[test]
fn resume_doesnt_read_step_params() {
    let mut fake_recovery_iterator = FakeRecoveryIterator::new(/*interactive=*/ true);

    fake_recovery_iterator.resume(5);

    assert!(!fake_recovery_iterator.read_step_params_called);
}

#[test]
fn next_step_stores_next_step() {
    let mut fake_recovery_iterator = FakeRecoveryIterator::new(/*interactive=*/ true);

    fake_recovery_iterator.next_step();
    assert_eq!(Some(1), fake_recovery_iterator.next_step);

    fake_recovery_iterator.next_step();
    assert_eq!(Some(2), fake_recovery_iterator.next_step);
}

#[test]
fn next_step_reads_params_only_when_interactive() {
    for &interactive in &[false, true] {
        let mut fake_recovery_iterator = FakeRecoveryIterator::new(interactive);

        fake_recovery_iterator.next_step();

        assert_eq!(fake_recovery_iterator.read_step_params_called, interactive);
    }
}

#[test]
fn made_steps_can_be_executed() {
    let mut fake_recovery_iterator = FakeRecoveryIterator::new(false);
    let (step_type, step) = fake_recovery_iterator.next_step().unwrap();
    assert_eq!(step_type, 0);
    assert_eq!(step.descr(), "Fake Step Description");
    assert_eq!(step.exec(), Ok(()));
}

/// What a `Script` got to hear of, in its order.
#[derive(Debug, PartialEq)]
enum Call {
    Read(u8),
    Store(Option<u8>),
}

/// A recovery that cannot make some of its steps.
struct Script {
    steps: StepIterator<u8>,
    skipped: Vec<u8>,
    failing: Vec<u8>,
    interactive: bool,
    calls: Vec<Call>,
}

impl Script {
    fn new(steps: &[u8], skipped: &[u8], failing: &[u8], interactive: bool) -> Self {
        Self {
            steps: StepIterator::new(steps.to_vec()),
            skipped: skipped.to_vec(),
            failing: failing.to_vec(),
            interactive,
            calls: vec![],
        }
    }
}

impl RecoveryIterator<u8> for Script {
    type Step = u8;

    fn get_step_iterator(&mut self) -> &mut StepIterator<u8> {
        &mut self.steps
    }

    fn get_step_impl(&self, step_type: u8) -> RecoveryResult<u8> {
        if self.skipped.contains(&step_type) {
            Err(RecoveryError::StepSkipped)
        } else if self.failing.contains(&step_type) {
            Err(RecoveryError::Failed(String::from("no")))
        } else {
            Ok(step_type + 100)
        }
    }

    fn store_next_step(&mut self, step_type: Option<u8>) {
        self.calls.push(Call::Store(step_type));
    }

    fn interactive(&self) -> bool {
        self.interactive
    }

    fn read_step_params(&mut self, step_type: u8) {
        self.calls.push(Call::Read(step_type));
    }
}

#[test]
fn next_step_passes_over_skipped_and_failing_steps() {
    let mut script = Script::new(&[1, 2, 3, 4], &[1], &[2], true);
    assert_eq!(script.next_step(), Some((3, 103)));
    assert_eq!(
        script.calls,
        vec![
            Call::Read(1),
            Call::Read(2),
            Call::Read(3),
            Call::Store(Some(4)),
            Call::Store(Some(4)),
            Call::Store(Some(4)),
        ]
    );
    assert_eq!(script.steps.peek(), Some(&4));
}

#[test]
fn next_step_ends_with_the_steps() {
    let mut script = Script::new(&[1, 2], &[1, 2], &[], false);
    assert_eq!(script.next_step(), None);
    assert_eq!(
        script.calls,
        vec![Call::Store(None), Call::Store(None), Call::Store(None)]
    );

    let mut empty = Script::new(&[], &[], &[], true);
    assert_eq!(empty.next_step(), None);
    assert_eq!(empty.calls, vec![Call::Store(None)]);
}

#[test]
fn an_iteration_gives_the_steps_that_can_be_made() {
    let mut script = Script::new(&[1, 2, 3, 4, 3, 5], &[1, 5], &[4], false);
    let mut given = vec![];
    while let Some((step_type, _)) = script.next_step() {
        given.push(step_type);
    }
    assert_eq!(given, vec![2, 3, 3]);
    assert_eq!(script.steps.peek(), None);
    assert_eq!(script.calls.last(), Some(&Call::Store(None)));
}

#[test]
fn an_iteration_takes_no_more_calls_than_there_are_steps() {
    let mut fake_recovery_iterator = FakeRecoveryIterator::new(false);
    for step in 0..10 {
        assert_eq!(fake_recovery_iterator.next_step().map(|(step_type, _)| step_type), Some(step));
    }
    assert!(fake_recovery_iterator.next_step().is_none());
    assert_eq!(fake_recovery_iterator.next_step, None);
}

#[test]
fn skipping_is_less_grave_than_failing() {
    assert_eq!(RecoveryError::StepSkipped.severity(), Severity::Info);
    assert_eq!(RecoveryError::Failed(String::from("no")).severity(), Severity::Warning);
}

#[test]
fn resuming_at_the_stored_step_continues() {
    let mut script = Script::new(&[5, 6, 7, 8], &[], &[], false);
    script.next_step();
    script.next_step();
    assert_eq!(script.calls.last(), Some(&Call::Store(Some(7))));

    let mut anew = Script::new(&[5, 6, 7, 8], &[], &[], false);
    anew.resume(7);
    assert_eq!(anew.calls, vec![]);
    assert_eq!(anew.next_step(), Some((7, 107)));
    assert_eq!(script.next_step(), Some((7, 107)));
}

#[test]
fn resuming_continues_an_iteration_that_passed_over_steps() {
    let mut script = Script::new(&[5, 6, 7, 8, 9], &[6], &[7], true);
    script.next_step();
    assert_eq!(script.next_step(), Some((8, 108)));
    assert_eq!(script.calls.last(), Some(&Call::Store(Some(9))));

    let mut anew = Script::new(&[5, 6, 7, 8, 9], &[6], &[7], true);
    anew.resume(9);
    assert_eq!(anew.next_step(), Some((9, 109)));
    assert_eq!(script.next_step(), Some((9, 109)));
    assert_eq!(anew.next_step(), None);
    assert_eq!(script.next_step(), None);
}

#[test]
fn resuming_twice_is_resuming_once() {
    let mut script = Script::new(&[5, 6, 7], &[], &[], false);
    script.resume(6);
    script.resume(6);
    assert_eq!(script.steps.next(), Some(6));
}

#[test]
fn resuming_stops_at_the_first_of_equal_steps() {
    let mut script = Script::new(&[5, 6, 7, 6, 8], &[], &[], false);
    script.resume(6);
    assert_eq!(script.steps.next(), Some(6));
    assert_eq!(script.steps.next(), Some(7));
}

#[test]
fn resuming_at_an_unknown_step_skips_all() {
    let mut script = Script::new(&[5, 6, 7], &[], &[], false);
    script.resume(9);
    assert_eq!(script.steps.next(), None);
    assert_eq!(script.steps.peek(), None);
}

#[test]
fn steps_are_taken_only_if_made() {
    assert_eq!(take_if_made(3u8, Ok('x')), Some((3, 'x')));
    assert_eq!(take_if_made::<u8, char>(3, Err(RecoveryError::StepSkipped)), None);
    assert_eq!(
        take_if_made::<u8, char>(3, Err(RecoveryError::Failed(String::new()))),
        None
    );
}

#[test]
fn next_if_leaves_a_step_that_it_does_not_want() {
    let mut steps = StepIterator::new(vec![1u8, 2]);
    assert_eq!(steps.next_if(|step| *step == 1), Some(1));
    assert_eq!(steps.next_if(|step| *step == 1), None);
    assert_eq!(steps.peek(), Some(&2));
    assert_eq!(steps.next(), Some(2));
    assert_eq!(steps.next_if(|_| true), None);
}
