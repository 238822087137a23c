//! The trial loop as a state machine: each trial generates an input, runs
//! the reference (if any) and the solution on it, and compares their
//! normalized outputs. The caller runs the command that `stage` names and
//! hands its result to `record`.
use vstd::prelude::*;
use crate::exec::ExecError;
use crate::text::{decode_lossy, lossy_text, normalize, normalized, string_of};

verus! {

/// What the loop waits for next.
#[derive(Debug, Clone, Copy, PartialEq, Eq, Structural)]
pub enum Stage {
    /// Run the generator, with no input.
    Generate,
    /// Run the reference on the generated input.
    Reference,
    /// Run the solution on the generated input.
    Solve,
    /// The run is over.
    Finished,
}

/// What one recorded result calls for reporting.
#[derive(Debug, Clone, PartialEq, Eq)]
pub enum Report {
    /// Nothing: the trial goes on, or it passed.
    Quiet,
    /// The generator failed in trial `trial`.
    GeneratorFailed { trial: u64, error: ExecError },
    /// The reference failed on `input` in trial `trial`.
    ReferenceFailed { trial: u64, error: ExecError, input: String },
    /// The solution failed on `input` in trial `trial`.
    SolutionFailed { trial: u64, error: ExecError, input: String },
    /// Reference and solution disagree on `input` after normalization.
    Mismatch { trial: u64, input: String, expected: String, got: String },
}

/// The state of a run, as plain values.
pub ghost struct TrialState {
    pub total: nat,
    pub keep_going: bool,
    pub has_reference: bool,
    /// Trials that are over, passed or failed.
    pub completed: nat,
    pub failures: nat,
    pub stage: Stage,
    /// The current trial's generated input.
    pub input: Seq<u8>,
    /// The reference's output for the current trial, once it has run.
    pub expected: Option<Seq<u8>>,
}

/// A run of at most `total` trials, with its counters.
pub struct TrialLoop {
    total: u64,
    keep_going: bool,
    verbose: bool,
    has_reference: bool,
    completed: u64,
    failures: u64,
    stage: Stage,
    input: Vec<u8>,
    expected: Option<Vec<u8>>,
}

impl View for TrialLoop {
    type V = TrialState;

    closed spec fn view(&self) -> TrialState {
        TrialState {
            total: self.total as nat,
            keep_going: self.keep_going,
            has_reference: self.has_reference,
            completed: self.completed as nat,
            failures: self.failures as nat,
            stage: self.stage,
            input: self.input@,
            expected: match self.expected {
                Some(e) => Some(e@),
                None => None,
            },
        }
    }
}

/// What a command's result leaves for the loop: its output, or nothing on failure.
pub open spec fn output_of(o: Result<Vec<u8>, ExecError>) -> Option<Seq<u8>> {
    match o {
        Ok(b) => Some(b@),
        Err(_) => None,
    }
}

impl TrialState {
    /// The counters and stage agree with each other and with the stop policy.
    pub open spec fn wf(self) -> bool {
        &&& self.completed <= self.total
        &&& self.failures <= self.completed
        &&& self.total <= u64::MAX
        &&& (self.stage != Stage::Finished ==> self.completed < self.total)
        &&& (self.keep_going ==> (self.stage == Stage::Finished <==> self.completed == self.total))
        &&& (!self.keep_going ==> self.failures <= 1)
        &&& (!self.keep_going && self.failures == 1 ==> self.stage == Stage::Finished)
        &&& (self.stage == Stage::Finished && self.completed < self.total ==> !self.keep_going && self.failures == 1)
        &&& (self.stage == Stage::Reference ==> self.has_reference)
        &&& (self.stage == Stage::Solve ==> (self.expected is Some <==> self.has_reference))
        &&& (self.stage != Stage::Solve ==> self.expected is None)
    }

    /// The index, from 1, of the trial under way.
    pub open spec fn trial(self) -> nat {
        self.completed + 1
    }

    /// The current trial is over and failed.
    pub open spec fn fail(self) -> TrialState {
        TrialState {
            completed: self.completed + 1,
            failures: self.failures + 1,
            stage: if self.keep_going && self.completed + 1 < self.total {
                Stage::Generate
            } else {
                Stage::Finished
            },
            expected: None,
            ..self
        }
    }

    /// The current trial is over and passed.
    pub open spec fn pass(self) -> TrialState {
        TrialState {
            completed: self.completed + 1,
            stage: if self.completed + 1 < self.total {
                Stage::Generate
            } else {
                Stage::Finished
            },
            expected: None,
            ..self
        }
    }

    /// The solution's output `out` disagrees with the reference's.
    pub open spec fn mismatch(self, out: Seq<u8>) -> bool {
        self.expected matches Some(e) && normalized(out) != normalized(e)
    }

    /// The state after the command of the current stage gave `o`.
    pub open spec fn step(self, o: Option<Seq<u8>>) -> TrialState {
        match o {
            None => self.fail(),
            Some(out) => match self.stage {
                Stage::Generate => TrialState {
                    input: out,
                    stage: if self.has_reference { Stage::Reference } else { Stage::Solve },
                    expected: None,
                    ..self
                },
                Stage::Reference => TrialState { stage: Stage::Solve, expected: Some(out), ..self },
                _ => if self.mismatch(out) {
                    self.fail()
                } else {
                    self.pass()
                },
            },
        }
    }

    /// How much is left to do; every step lowers it.
    pub open spec fn remaining(self) -> nat {
        let rank: nat = match self.stage {
            Stage::Generate => 2,
            Stage::Reference => 1,
            _ => 0,
        };
        (self.total - self.completed) as nat * 3 + rank
    }
}

proof fn lemma_step_wf(s: TrialState, o: Option<Seq<u8>>)
    requires
        s.wf(),
        s.stage != Stage::Finished,
    ensures
        s.step(o).wf(),
        s.step(o).remaining() < s.remaining(),
{
}

/// The state after the results `outs`, handed in order, until the run ends.
pub open spec fn run(s: TrialState, outs: Seq<Option<Seq<u8>>>) -> TrialState
    decreases outs.len(),
{
    if outs.len() == 0 || s.stage == Stage::Finished {
        s
    } else {
        run(s.step(outs[0]), outs.drop_first())
    }
}

/// A reference that fails ends its trial as a counted failure: the solution
/// is not run on that input, and the next stage is a new trial's generator
/// or the end of the run.
pub proof fn lemma_reference_failure_skips_solution(s: TrialState)
    requires
        s.wf(),
        s.stage == Stage::Reference,
    ensures
        s.step(None).stage != Stage::Solve,
        s.step(None).stage == Stage::Generate || s.step(None).stage == Stage::Finished,
        s.step(None).failures == s.failures + 1,
        s.step(None).completed == s.completed + 1,
{
}

/// Without keep-going, a run stops at its first failure: it never counts
/// more than one, and once it has counted one it is over.
pub proof fn lemma_stop_on_first_failure(s: TrialState, outs: Seq<Option<Seq<u8>>>)
    requires
        s.wf(),
        !s.keep_going,
        s.failures == 0,
    ensures
        run(s, outs).wf(),
        run(s, outs).failures <= 1,
        run(s, outs).failures == 1 ==> run(s, outs).stage == Stage::Finished,
    decreases outs.len(),
{
    if outs.len() > 0 && s.stage != Stage::Finished {
        lemma_step_wf(s, outs[0]);
        let n = s.step(outs[0]);
        if n.failures == 0 {
            lemma_stop_on_first_failure(n, outs.drop_first());
        } else {
            assert(run(n, outs.drop_first()) == n);
        }
    }
}

/// With keep-going, failures never end a run early: it ends exactly when
/// all `total` trials are over, and it does end once it has been handed as
/// many results as `remaining` counts.
pub proof fn lemma_keep_going_runs_every_trial(s: TrialState, outs: Seq<Option<Seq<u8>>>)
    requires
        s.wf(),
        s.keep_going,
    ensures
        run(s, outs).wf(),
        run(s, outs).stage == Stage::Finished <==> run(s, outs).completed == s.total,
        outs.len() >= s.remaining() ==> run(s, outs).stage == Stage::Finished,
    decreases outs.len(),
{
    if outs.len() > 0 && s.stage != Stage::Finished {
        lemma_step_wf(s, outs[0]);
        lemma_keep_going_runs_every_trial(s.step(outs[0]), outs.drop_first());
    }
}

impl TrialLoop {
    /// A run of `total` trials; `has_reference` says whether a reference
    /// command takes part.
    pub fn new(total: u64, keep_going: bool, verbose: bool, has_reference: bool) -> (r: TrialLoop)
        ensures
            r@.wf(),
            r@.total == total,
            r@.keep_going == keep_going,
            r@.has_reference == has_reference,
            r@.completed == 0,
            r@.failures == 0,
            r@.stage == (if total == 0 { Stage::Finished } else { Stage::Generate }),
            r@.expected is None,
    {
        TrialLoop {
            total,
            keep_going,
            verbose,
            has_reference,
            completed: 0,
            failures: 0,
            stage: if total == 0 { Stage::Finished } else { Stage::Generate },
            input: Vec::new(),
            expected: None,
        }
    }

    /// The command to run next, or `Finished`.
    pub fn stage(&self) -> (r: Stage)
        ensures
            r == self@.stage,
    {
        self.stage
    }

    /// The current trial's generated input.
    pub fn input(&self) -> (r: &Vec<u8>)
        ensures
            r@ == self@.input,
    {
        &self.input
    }

    /// Trials that are over, passed or failed.
    pub fn completed(&self) -> (r: u64)
        ensures
            r == self@.completed,
    {
        self.completed
    }

    /// Failures counted so far.
    pub fn failures(&self) -> (r: u64)
        ensures
            r == self@.failures,
    {
        self.failures
    }

    /// Whether the run is over.
    pub fn is_finished(&self) -> (r: bool)
        ensures
            r == (self@.stage == Stage::Finished),
    {
        self.stage == Stage::Finished
    }

    /// Whether a trial is about to start that should be announced: every
    /// trial when verbose, every hundredth otherwise.
    pub fn progress_due(&self) -> (r: Option<u64>)
        requires
            self@.wf(),
        ensures
            r == (if self@.stage == Stage::Generate && (self.verbose_spec() || self@.trial() % 100 == 0) {
                Some(self@.trial() as u64)
            } else {
                None::<u64>
            }),
    {
        if self.stage == Stage::Generate {
            let t = self.completed + 1;
            if self.verbose || t % 100 == 0 {
                return Some(t);
            }
        }
        None
    }

    /// Whether every trial is announced.
    pub closed spec fn verbose_spec(&self) -> bool {
        self.verbose
    }

    /// Takes the result of the command that `stage` named, moves to the next
    /// stage, trial or the end, and says what to report.
    pub fn record(&mut self, o: Result<Vec<u8>, ExecError>) -> (r: Report)
        requires
            old(self)@.wf(),
            old(self)@.stage != Stage::Finished,
        ensures
            final(self)@ == old(self)@.step(output_of(o)),
            final(self)@.wf(),
            final(self)@.remaining() < old(self)@.remaining(),
            final(self).verbose_spec() == old(self).verbose_spec(),
            ({
                let s = old(self)@;
                let t = s.trial() as u64;
                match o {
                    Err(e) => match s.stage {
                        Stage::Generate => r == Report::GeneratorFailed { trial: t, error: e },
                        Stage::Reference => r matches Report::ReferenceFailed { trial, error, input }
                            && trial == t && error == e && input@ == lossy_text(s.input),
                        _ => r matches Report::SolutionFailed { trial, error, input }
                            && trial == t && error == e && input@ == lossy_text(s.input),
                    },
                    Ok(out) => if s.stage == Stage::Solve && s.mismatch(out@) {
                        r matches Report::Mismatch { trial, input, expected, got }
                            && trial == t && input@ == lossy_text(s.input)
                            && expected@ == normalized(s.expected->Some_0)
                            && got@ == normalized(out@)
                    } else {
                        r == Report::Quiet
                    },
                }
            }),
    {
        proof {
            lemma_step_wf(self@, output_of(o));
        }
        let t = self.completed + 1;
        match o {
            Err(error) => {
                let report = match self.stage {
                    Stage::Generate => Report::GeneratorFailed { trial: t, error },
                    Stage::Reference => Report::ReferenceFailed { trial: t, error, input: self.input_text() },
                    _ => Report::SolutionFailed { trial: t, error, input: self.input_text() },
                };
                self.end_trial(true);
                report
            },
            Ok(out) => {
                match self.stage {
                    Stage::Generate => {
                        self.input = out;
                        self.stage = if self.has_reference { Stage::Reference } else { Stage::Solve };
                        Report::Quiet
                    },
                    Stage::Reference => {
                        self.expected = Some(out);
                        self.stage = Stage::Solve;
                        Report::Quiet
                    },
                    _ => {
                        let report = match &self.expected {
                            Some(exp) => {
                                let expected = normalize(exp.as_slice());
                                let got = normalize(out.as_slice());
                                if expected == got {
                                    Report::Quiet
                                } else {
                                    Report::Mismatch { trial: t, input: self.input_text(), expected, got }
                                }
                            },
                            None => Report::Quiet,
                        };
                        let failed = !matches!(report, Report::Quiet);
                        self.end_trial(failed);
                        report
                    },
                }
            },
        }
    }

    /// The current input, decoded leniently for a report.
    fn input_text(&self) -> (r: String)
        ensures
            r@ == lossy_text(self.input@),
    {
        let chars = decode_lossy(self.input.as_slice());
        string_of(&chars)
    }

    /// Closes the current trial as failed or passed.
    fn end_trial(&mut self, failed: bool)
        requires
            old(self)@.wf(),
            old(self)@.stage != Stage::Finished,
        ensures
            final(self)@ == (if failed { old(self)@.fail() } else { old(self)@.pass() }),
            final(self).verbose_spec() == old(self).verbose_spec(),
    {
        self.completed = self.completed + 1;
        self.expected = None;
        if failed {
            self.failures = self.failures + 1;
            self.stage = if self.keep_going && self.completed < self.total {
                Stage::Generate
            } else {
                Stage::Finished
            };
        } else {
            self.stage = if self.completed < self.total { Stage::Generate } else { Stage::Finished };
        }
    }
}

} // verus!
