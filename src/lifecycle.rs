use vstd::prelude::*;

verus! {

/// The four mutually exclusive modes of one lifecycle invocation.
#[derive(Clone, Copy, Debug, PartialEq, Eq, Structural)]
pub enum Mode {
    Setup,
    Execute,
    Prove,
    Verify,
}

/// The kinds of failure a lifecycle invocation can end with.
#[derive(Clone, Copy, Debug, PartialEq, Eq, Structural)]
pub enum LifecycleError {
    /// Zero or several modes were selected.
    Usage,
    /// A file could not be read, created or written.
    Io,
    /// Malformed JSON input, a malformed persisted artifact, or a non-UTF-8 payload.
    Decode,
    /// The evaluator rejected the transition, so the guest aborted.
    Evaluation,
    /// The proof was checked and found invalid.
    Verification,
}

/// Number of `true` entries in `s`.
pub open spec fn count_true(s: Seq<bool>) -> nat
    decreases s.len(),
{
    if s.len() == 0 {
        0
    } else {
        count_true(s.drop_last()) + if s.last() { 1nat } else { 0nat }
    }
}

/// Holds when exactly one of the flags is set.
pub fn exactly_one_true(flags: &[bool]) -> (r: bool)
    ensures
        r == (count_true(flags@) == 1),
{
    let mut n: usize = 0;
    let mut i: usize = 0;
    while i < flags.len()
        invariant
            i <= flags@.len(),
            n == count_true(flags@.subrange(0, i as int)),
            n <= i,
        decreases flags@.len() - i,
    {
        assert(flags@.subrange(0, i as int + 1).drop_last() =~= flags@.subrange(0, i as int));
        if flags[i] {
            n = n + 1;
        }
        i = i + 1;
    }
    assert(flags@.subrange(0, flags@.len() as int) =~= flags@);
    n == 1
}

/// The mode chosen by the four selectors, when exactly one of them is set.
pub open spec fn spec_select_mode(setup: bool, execute: bool, prove: bool, verify: bool) -> Option<Mode> {
    if setup && !execute && !prove && !verify {
        Some(Mode::Setup)
    } else if !setup && execute && !prove && !verify {
        Some(Mode::Execute)
    } else if !setup && !execute && prove && !verify {
        Some(Mode::Prove)
    } else if !setup && !execute && !prove && verify {
        Some(Mode::Verify)
    } else {
        None
    }
}

/// Picks the mode from the four selectors; any other number than one selected
/// is a usage error.
pub fn select_mode(setup: bool, execute: bool, prove: bool, verify: bool) -> (r: Result<Mode, LifecycleError>)
    ensures
        r == (match spec_select_mode(setup, execute, prove, verify) {
            Some(m) => Ok::<Mode, LifecycleError>(m),
            None => Err(LifecycleError::Usage),
        }),
{
    let flags = [setup, execute, prove, verify];
    assert(flags@ =~= seq![setup, execute, prove, verify]);
    proof {
        lemma_usage_error_iff_not_exactly_one(setup, execute, prove, verify);
    }
    if !exactly_one_true(&flags) {
        Err(LifecycleError::Usage)
    } else if setup {
        Ok(Mode::Setup)
    } else if execute {
        Ok(Mode::Execute)
    } else if prove {
        Ok(Mode::Prove)
    } else {
        Ok(Mode::Verify)
    }
}


/// Holds when the selectors pick no mode: zero of them are set, or several.
pub proof fn lemma_usage_error_iff_not_exactly_one(setup: bool, execute: bool, prove: bool, verify: bool)
    ensures
        spec_select_mode(setup, execute, prove, verify) is None <==> count_true(
            seq![setup, execute, prove, verify],
        ) != 1,
{
    let s = seq![setup, execute, prove, verify];
    assert(s.drop_last() =~= seq![setup, execute, prove]);
    assert(seq![setup, execute, prove].drop_last() =~= seq![setup, execute]);
    assert(seq![setup, execute].drop_last() =~= seq![setup]);
    assert(seq![setup].drop_last() =~= Seq::<bool>::empty());
    reveal_with_fuel(count_true, 5);
}

/// One unit of outside work that a lifecycle mode performs.
#[derive(Clone, Copy, Debug, PartialEq, Eq, Structural)]
pub enum Step {
    /// Derive the proving and verifying keys from the guest binary.
    DeriveKeys,
    StoreProvingKey,
    StoreVerifyingKey,
    LoadProvingKey,
    /// Read the JSON input and build the witness.
    BuildWitness,
    /// Run the guest without proving; reports the public output.
    DryRun,
    /// Produce a proof; reports the public output.
    GenerateProof,
    StoreProof,
    LoadProof,
    LoadVerifyingKey,
    /// Check the proof against the verifying key; reports the public output.
    CheckProof,
}

/// The steps of each mode, in the order they are performed.
pub open spec fn spec_plan(mode: Mode) -> Seq<Step> {
    match mode {
        Mode::Setup => seq![Step::DeriveKeys, Step::StoreProvingKey, Step::StoreVerifyingKey],
        Mode::Execute => seq![Step::BuildWitness, Step::DryRun],
        Mode::Prove => seq![
            Step::LoadProvingKey,
            Step::BuildWitness,
            Step::GenerateProof,
            Step::StoreProof,
        ],
        Mode::Verify => seq![Step::LoadProof, Step::LoadVerifyingKey, Step::CheckProof],
    }
}

pub fn plan(mode: Mode) -> (r: Vec<Step>)
    ensures
        r@ == spec_plan(mode),
{
    let mut r: Vec<Step> = Vec::new();
    match mode {
        Mode::Setup => {
            r.push(Step::DeriveKeys);
            r.push(Step::StoreProvingKey);
            r.push(Step::StoreVerifyingKey);
        },
        Mode::Execute => {
            r.push(Step::BuildWitness);
            r.push(Step::DryRun);
        },
        Mode::Prove => {
            r.push(Step::LoadProvingKey);
            r.push(Step::BuildWitness);
            r.push(Step::GenerateProof);
            r.push(Step::StoreProof);
        },
        Mode::Verify => {
            r.push(Step::LoadProof);
            r.push(Step::LoadVerifyingKey);
            r.push(Step::CheckProof);
        },
    }
    assert(r@ =~= spec_plan(mode));
    r
}

/// What the outside world reports after performing a step.
#[derive(Clone, Copy, Debug, PartialEq, Eq, Structural)]
pub enum Event {
    /// The step completed.
    Done,
    /// The step completed and revealed the public output.
    Output(u64),
    /// The step failed.
    Failed(LifecycleError),
}

/// What the orchestrator asks for next.
#[derive(Clone, Copy, Debug, PartialEq, Eq, Structural)]
pub enum Action {
    Run(Step),
    /// Every step completed; report the public output, if one was revealed.
    Finish(Option<u64>),
    /// A step failed; stop with this error.
    Abort(LifecycleError),
}

/// The progress of one lifecycle invocation.
pub struct Session {
    mode: Mode,
    steps: Vec<Step>,
    done: usize,
    output: Option<u64>,
    failure: Option<LifecycleError>,
}

/// The action that follows from a mode, the number of completed steps, the
/// revealed output and the failure, if any.
pub open spec fn spec_action(mode: Mode, done: nat, output: Option<u64>, failure: Option<LifecycleError>) -> Action {
    match failure {
        Some(e) => Action::Abort(e),
        None => if done < spec_plan(mode).len() {
            Action::Run(spec_plan(mode)[done as int])
        } else {
            Action::Finish(output)
        },
    }
}

impl Session {
    pub closed spec fn spec_mode(&self) -> Mode {
        self.mode
    }

    pub closed spec fn completed(&self) -> nat {
        self.done as nat
    }

    pub closed spec fn revealed(&self) -> Option<u64> {
        self.output
    }

    pub closed spec fn failure(&self) -> Option<LifecycleError> {
        self.failure
    }

    pub closed spec fn wf(&self) -> bool {
        &&& self.steps@ == spec_plan(self.mode)
        &&& self.done <= self.steps@.len()
    }

    /// Holds once the session has finished or aborted.
    pub open spec fn is_over(&self) -> bool {
        self.failure() is Some || self.completed() >= spec_plan(self.spec_mode()).len()
    }

    /// Starts a session from the four mode selectors. Anything but exactly
    /// one selected is a usage error, raised before any step is run.
    pub fn start(setup: bool, execute: bool, prove: bool, verify: bool) -> (r: Result<Session, LifecycleError>)
        ensures
            spec_select_mode(setup, execute, prove, verify) is None ==> r == Err::<Session, LifecycleError>(LifecycleError::Usage),
            spec_select_mode(setup, execute, prove, verify) matches Some(m) ==> (r matches Ok(s)
                && s.wf() && s.spec_mode() == m && s.completed() == 0 && s.revealed() is None
                && s.failure() is None),
    {
        match select_mode(setup, execute, prove, verify) {
            Ok(mode) => Ok(Session { mode, steps: plan(mode), done: 0, output: None, failure: None }),
            Err(e) => Err(e),
        }
    }

    pub fn mode(&self) -> (r: Mode)
        ensures
            r == self.spec_mode(),
    {
        self.mode
    }

    /// The next thing to do.
    pub fn next_action(&self) -> (r: Action)
        requires
            self.wf(),
        ensures
            r == spec_action(self.spec_mode(), self.completed(), self.revealed(), self.failure()),
    {
        match self.failure {
            Some(e) => Action::Abort(e),
            None => if self.done < self.steps.len() {
                Action::Run(self.steps[self.done])
            } else {
                Action::Finish(self.output)
            },
        }
    }

    /// Records how the step asked for last went. A failure is final; a
    /// report on a session that is over changes nothing.
    pub fn record(&mut self, event: Event)
        requires
            old(self).wf(),
        ensures
            final(self).wf(),
            final(self).spec_mode() == old(self).spec_mode(),
            old(self).is_over() ==> *final(self) == *old(self),
            !old(self).is_over() ==> match event {
                Event::Done => final(self).completed() == old(self).completed() + 1
                    && final(self).revealed() == old(self).revealed()
                    && final(self).failure() is None,
                Event::Output(v) => final(self).completed() == old(self).completed() + 1
                    && final(self).revealed() == Some(v) && final(self).failure() is None,
                Event::Failed(e) => final(self).completed() == old(self).completed()
                    && final(self).revealed() == old(self).revealed()
                    && final(self).failure() == Some(e),
            },
    {
        if self.failure.is_some() || self.done >= self.steps.len() {
            return;
        }
        match event {
            Event::Done => {
                self.done = self.done + 1;
            },
            Event::Output(v) => {
                self.done = self.done + 1;
                self.output = Some(v);
            },
            Event::Failed(e) => {
                self.failure = Some(e);
            },
        }
    }
}

/// A session finishes only after every step of its mode completed, none
/// failed, and a failure is reported as such for good: for a verification,
/// a rejected proof is never reported as success.
pub proof fn lemma_finish_only_after_every_step(mode: Mode, done: nat, output: Option<u64>, failure: Option<LifecycleError>)
    ensures
        spec_action(mode, done, output, failure) is Finish ==> failure is None && done >= spec_plan(mode).len(),
        failure matches Some(e) ==> spec_action(mode, done, output, failure) == Action::Abort(e),
        mode == Mode::Verify && spec_action(mode, done, output, failure) is Finish ==> done > 2
            && spec_plan(mode)[2] == Step::CheckProof,
{
}

} // verus!
