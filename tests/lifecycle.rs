use prover::{
    exactly_one_true, plan, select_mode, Action, Event, LifecycleError, Mode, Session, Step,
};

#[test]
fn exactly_one_flag() {
    assert!(!exactly_one_true(&[]));
    assert!(!exactly_one_true(&[false, false, false, false]));
    assert!(exactly_one_true(&[false, true, false, false]));
    assert!(!exactly_one_true(&[true, true, false, false]));
    assert!(!exactly_one_true(&[true, true, true, true]));
}

#[test]
fn every_selector_combination() {
    for bits in 0u8..16 {
        let (s, e, p, v) = (bits & 1 != 0, bits & 2 != 0, bits & 4 != 0, bits & 8 != 0);
        let r = select_mode(s, e, p, v);
        match bits {
            1 => assert_eq!(r, Ok(Mode::Setup)),
            2 => assert_eq!(r, Ok(Mode::Execute)),
            4 => assert_eq!(r, Ok(Mode::Prove)),
            8 => assert_eq!(r, Ok(Mode::Verify)),
            _ => assert_eq!(r, Err(LifecycleError::Usage)),
        }
    }
}

#[test]
fn usage_error_before_any_step() {
    assert!(matches!(Session::start(false, false, false, false), Err(LifecycleError::Usage)));
    assert!(matches!(Session::start(true, false, true, false), Err(LifecycleError::Usage)));
}

#[test]
fn plans_of_each_mode() {
    assert_eq!(plan(Mode::Setup), vec![Step::DeriveKeys, Step::StoreProvingKey, Step::StoreVerifyingKey]);
    assert_eq!(plan(Mode::Execute), vec![Step::BuildWitness, Step::DryRun]);
    assert_eq!(
        plan(Mode::Prove),
        vec![Step::LoadProvingKey, Step::BuildWitness, Step::GenerateProof, Step::StoreProof]
    );
    assert_eq!(plan(Mode::Verify), vec![Step::LoadProof, Step::LoadVerifyingKey, Step::CheckProof]);
}

fn drive(mut s: Session, events: &[Event]) -> (Vec<Step>, Action) {
    let mut ran = Vec::new();
    let mut i = 0;
    loop {
        match s.next_action() {
            Action::Run(step) => {
                ran.push(step);
                s.record(events[i]);
                i += 1;
            }
            other => return (ran, other),
        }
    }
}

#[test]
fn setup_prove_verify_end_to_end() {
    let setup = Session::start(true, false, false, false).ok().unwrap();
    let (ran, end) = drive(setup, &[Event::Done, Event::Done, Event::Done]);
    assert_eq!(ran.len(), 3);
    assert_eq!(end, Action::Finish(None));

    let prove = Session::start(false, false, true, false).ok().unwrap();
    let (ran, end) = drive(prove, &[Event::Done, Event::Done, Event::Output(432140), Event::Done]);
    assert_eq!(ran[2], Step::GenerateProof);
    assert_eq!(end, Action::Finish(Some(432140)));

    let verify = Session::start(false, false, false, true).ok().unwrap();
    let (ran, end) = drive(verify, &[Event::Done, Event::Done, Event::Output(432140)]);
    assert_eq!(ran, vec![Step::LoadProof, Step::LoadVerifyingKey, Step::CheckProof]);
    assert_eq!(end, Action::Finish(Some(432140)));

    let execute = Session::start(false, true, false, false).ok().unwrap();
    let (_, end) = drive(execute, &[Event::Done, Event::Output(432140)]);
    assert_eq!(end, Action::Finish(Some(432140)));
}

#[test]
fn rejected_proof_never_finishes() {
    let mut s = Session::start(false, false, false, true).ok().unwrap();
    s.record(Event::Done);
    s.record(Event::Done);
    assert_eq!(s.next_action(), Action::Run(Step::CheckProof));
    s.record(Event::Failed(LifecycleError::Verification));
    assert_eq!(s.next_action(), Action::Abort(LifecycleError::Verification));
    s.record(Event::Output(1));
    s.record(Event::Done);
    assert_eq!(s.next_action(), Action::Abort(LifecycleError::Verification));
    assert_eq!(s.mode(), Mode::Verify);
}

#[test]
fn failed_load_aborts_prove() {
    let mut s = Session::start(false, false, true, false).ok().unwrap();
    assert_eq!(s.next_action(), Action::Run(Step::LoadProvingKey));
    s.record(Event::Failed(LifecycleError::Io));
    assert_eq!(s.next_action(), Action::Abort(LifecycleError::Io));
}
