use crate::encode::{arg_views, pass_one_args, pass_one_arguments, pass_two_args, pass_two_arguments, EncodePlan};
use crate::error::{Error, Stage};
use vstd::prelude::*;

verus! {

/// Where a two-pass encode stands. `Complete` and `Failed` are final.
#[derive(Debug, PartialEq, Eq)]
pub enum EncodeState {
    Idle,
    Pass1Running,
    Pass1Done,
    Pass2Running,
    Complete { output: String },
    Failed { stage: Stage, diagnostics: String },
}

/// The pass that starting from `s` invokes, if any.
pub open spec fn started_stage(s: EncodeState) -> Option<Stage> {
    match s {
        EncodeState::Idle => Some(Stage::Pass1),
        EncodeState::Pass1Done => Some(Stage::Pass2),
        _ => None,
    }
}

/// The state once the next pass, if any, has been invoked.
pub open spec fn after_start(s: EncodeState) -> EncodeState {
    match s {
        EncodeState::Idle => EncodeState::Pass1Running,
        EncodeState::Pass1Done => EncodeState::Pass2Running,
        _ => s,
    }
}

/// The state once the running pass has exited; other states ignore an exit.
pub open spec fn after_exit(s: EncodeState, success: bool, diagnostics: String, output: String) -> EncodeState {
    match s {
        EncodeState::Pass1Running => if success {
            EncodeState::Pass1Done
        } else {
            EncodeState::Failed { stage: Stage::Pass1, diagnostics }
        },
        EncodeState::Pass2Running => if success {
            EncodeState::Complete { output }
        } else {
            EncodeState::Failed { stage: Stage::Pass2, diagnostics }
        },
        _ => s,
    }
}

/// Drives the encoder through pass one and then pass two. The caller asks for the next
/// invocation, runs it, and reports how it exited, until no invocation is left.
pub struct EncodeOrchestrator {
    pub plan: EncodePlan,
    pub state: EncodeState,
}

impl EncodeOrchestrator {
    pub fn new(plan: EncodePlan) -> (r: Self)
        ensures
            r.plan == plan,
            r.state == EncodeState::Idle,
    {
        EncodeOrchestrator { plan, state: EncodeState::Idle }
    }

    /// Starts the next pass and returns the encoder's arguments for it; `None` while a
    /// pass runs and once the encode has completed or failed.
    pub fn next_invocation(&mut self) -> (r: Option<Vec<String>>)
        ensures
            final(self).plan == old(self).plan,
            final(self).state == after_start(old(self).state),
            match started_stage(old(self).state) {
                None => r is None,
                Some(Stage::Pass1) => r matches Some(args) && arg_views(args@) == pass_one_args(old(self).plan),
                Some(Stage::Pass2) => r matches Some(args) && arg_views(args@) == pass_two_args(old(self).plan),
            },
    {
        match self.state {
            EncodeState::Idle => {
                self.state = EncodeState::Pass1Running;
                Some(pass_one_arguments(&self.plan))
            },
            EncodeState::Pass1Done => {
                self.state = EncodeState::Pass2Running;
                Some(pass_two_arguments(&self.plan))
            },
            _ => None,
        }
    }

    /// Records how the running pass exited, with the encoder's diagnostic text.
    pub fn record_exit(&mut self, success: bool, diagnostics: String)
        ensures
            final(self).plan == old(self).plan,
            final(self).state == after_exit(old(self).state, success, diagnostics, old(self).plan.output_file),
    {
        match self.state {
            EncodeState::Pass1Running => {
                if success {
                    self.state = EncodeState::Pass1Done;
                } else {
                    self.state = EncodeState::Failed { stage: Stage::Pass1, diagnostics };
                }
            },
            EncodeState::Pass2Running => {
                if success {
                    self.state = EncodeState::Complete { output: self.plan.output_file.clone() };
                } else {
                    self.state = EncodeState::Failed { stage: Stage::Pass2, diagnostics };
                }
            },
            _ => {},
        }
    }

    /// The result of a finished encode: the output path, or the pass that failed with
    /// its diagnostics. `None` until the encode has finished.
    pub fn outcome(&self) -> (r: Option<Result<String, Error>>)
        ensures
            match self.state {
                EncodeState::Complete { output } => r matches Some(Ok(o)) && o == output,
                EncodeState::Failed { stage, diagnostics } => r matches Some(
                    Err(Error::Encode { stage: st, diagnostics: d }),
                ) && st == stage && d == diagnostics,
                _ => r is None,
            },
    {
        match &self.state {
            EncodeState::Complete { output } => Some(Ok(output.clone())),
            EncodeState::Failed { stage, diagnostics } => Some(
                Err(Error::Encode { stage: *stage, diagnostics: diagnostics.clone() }),
            ),
            _ => None,
        }
    }
}

/// One thing a caller can do to an orchestration: start the next pass, or report the
/// running pass's exit.
pub enum Step {
    Start,
    Exit { success: bool, diagnostics: String },
}

pub open spec fn apply_step(s: EncodeState, step: Step, output: String) -> EncodeState {
    match step {
        Step::Start => after_start(s),
        Step::Exit { success, diagnostics } => after_exit(s, success, diagnostics, output),
    }
}

/// The state after taking `steps` in order from `s`.
pub open spec fn run_steps(s: EncodeState, steps: Seq<Step>, output: String) -> EncodeState
    decreases steps.len(),
{
    if steps.len() == 0 {
        s
    } else {
        run_steps(apply_step(s, steps[0], output), steps.drop_first(), output)
    }
}

/// The passes invoked, in order, while taking `steps` from `s`.
pub open spec fn stages_started(s: EncodeState, steps: Seq<Step>, output: String) -> Seq<Stage>
    decreases steps.len(),
{
    if steps.len() == 0 {
        Seq::empty()
    } else {
        let rest = stages_started(apply_step(s, steps[0], output), steps.drop_first(), output);
        match steps[0] {
            Step::Start => match started_stage(s) {
                Some(st) => seq![st] + rest,
                None => rest,
            },
            Step::Exit { .. } => rest,
        }
    }
}

proof fn lemma_failed_is_absorbing(s: EncodeState, steps: Seq<Step>, output: String)
    requires
        s is Failed,
    ensures
        run_steps(s, steps, output) == s,
        stages_started(s, steps, output) == Seq::<Stage>::empty(),
    decreases steps.len(),
{
    if steps.len() > 0 {
        lemma_failed_is_absorbing(s, steps.drop_first(), output);
    }
}

/// A failed pass one ends the encode: the failure names pass one and carries the
/// encoder's diagnostics, and whatever the caller does afterwards, no further pass
/// (pass two in particular) is ever invoked and the state stays the same.
pub proof fn lemma_pass1_failure_is_final(diagnostics: String, output: String, steps: Seq<Step>)
    ensures
        after_exit(EncodeState::Pass1Running, false, diagnostics, output) == (EncodeState::Failed {
            stage: Stage::Pass1,
            diagnostics,
        }),
        run_steps(after_exit(EncodeState::Pass1Running, false, diagnostics, output), steps, output)
            == after_exit(EncodeState::Pass1Running, false, diagnostics, output),
        stages_started(after_exit(EncodeState::Pass1Running, false, diagnostics, output), steps, output)
            == Seq::<Stage>::empty(),
{
    lemma_failed_is_absorbing(after_exit(EncodeState::Pass1Running, false, diagnostics, output), steps, output);
}

/// The passes that may still be invoked from `s`, in order.
pub open spec fn remaining_stages(s: EncodeState) -> Seq<Stage> {
    match s {
        EncodeState::Idle => seq![Stage::Pass1, Stage::Pass2],
        EncodeState::Pass1Running => seq![Stage::Pass2],
        EncodeState::Pass1Done => seq![Stage::Pass2],
        _ => Seq::empty(),
    }
}

pub open spec fn is_prefix(a: Seq<Stage>, b: Seq<Stage>) -> bool {
    a.len() <= b.len() && a == b.subrange(0, a.len() as int)
}

proof fn lemma_started_within_remaining(s: EncodeState, steps: Seq<Step>, output: String)
    ensures
        is_prefix(stages_started(s, steps, output), remaining_stages(s)),
    decreases steps.len(),
{
    if steps.len() == 0 {
        assert(remaining_stages(s).subrange(0, 0) =~= Seq::<Stage>::empty());
    } else {
        let next = apply_step(s, steps[0], output);
        lemma_started_within_remaining(next, steps.drop_first(), output);
        let rest = stages_started(next, steps.drop_first(), output);
        let started = stages_started(s, steps, output);
        let r = remaining_stages(s);
        let rn = remaining_stages(next);
        if steps[0] is Start && started_stage(s) is Some {
            let x = started_stage(s)->0;
            assert(r =~= seq![x] + rn);
            assert(started =~= seq![x] + rest);
            assert(started =~= r.subrange(0, started.len() as int));
        } else {
            assert(started == rest);
            assert(rn.len() <= r.len() && rn =~= r.subrange(0, rn.len() as int)) by {
                if next != s {
                    assert(steps[0] is Exit);
                }
            }
            assert(started =~= r.subrange(0, started.len() as int));
        }
    }
}

/// Each pass is invoked at most once, pass one before pass two, and nothing else is
/// ever invoked: there is no retry, whatever the caller does.
pub proof fn lemma_passes_run_once_in_order(steps: Seq<Step>, output: String)
    ensures
        is_prefix(stages_started(EncodeState::Idle, steps, output), seq![Stage::Pass1, Stage::Pass2]),
{
    lemma_started_within_remaining(EncodeState::Idle, steps, output);
}

} // verus!
