//! The independent topology of one job as a state machine: every step reads
//! the original file and writes its own output, and a failed step stops no
//! other.

use vstd::prelude::*;
use vstd::string::*;
use crate::chain::{failure_view, Failure, FailureKind, Report};
use crate::job::{copy_steps, job_units, steps_view, Step, StepView, Topology};
use crate::naming::{lemma_tagged_name_by_tag, lemma_tagged_name_determines_tag,
    lemma_tagged_name_injective, lemma_name_parts, has_extension, plain_tag, tagged, tagged_name};

verus! {

/// How the step that was due ended.
#[derive(Clone, Copy, Debug, PartialEq, Eq, Structural)]
pub enum StepOutcome {
    Succeeded,
    Failed,
}

/// The state of an independent job, by what it stands for.
pub ghost struct IndependentState {
    /// The file name of the input.
    pub original: Seq<char>,
    pub steps: Seq<StepView>,
    /// The number of steps that have ended.
    pub done: nat,
    /// The number of steps that have ended in failure.
    pub failed: nat,
}

/// What the driver of an independent job is to do next.
#[derive(Debug, PartialEq, Eq)]
pub enum IndependentAction {
    /// Invoke the transformation of step `step` on `input`; it writes
    /// `expected`.
    Invoke { step: usize, input: String, expected: String },
    /// Step `step` names no known transformation: report it as failed.
    Unresolved { step: usize },
    /// The job is over.
    Finish,
}

/// What an `IndependentAction` stands for.
pub ghost enum IndependentActionView {
    Invoke { step: nat, input: Seq<char>, expected: Seq<char> },
    Unresolved { step: nat },
    Finish,
}

impl View for IndependentAction {
    type V = IndependentActionView;

    open spec fn view(&self) -> IndependentActionView {
        match *self {
            IndependentAction::Invoke { step, input, expected } => IndependentActionView::Invoke {
                step: step as nat,
                input: input@,
                expected: expected@,
            },
            IndependentAction::Unresolved { step } => IndependentActionView::Unresolved {
                step: step as nat,
            },
            IndependentAction::Finish => IndependentActionView::Finish,
        }
    }
}

impl IndependentState {
    /// Whether the state is one that an independent job can be in.
    pub open spec fn wf(self) -> bool {
        self.failed <= self.done <= self.steps.len()
    }

    /// The state in which a job on `original` with `steps` starts.
    pub open spec fn start(original: Seq<char>, steps: Seq<StepView>) -> IndependentState {
        IndependentState { original, steps, done: 0, failed: 0 }
    }

    /// Whether the job is over.
    pub open spec fn finished(self) -> bool {
        self.done >= self.steps.len()
    }

    /// Whether the step that is due ends in failure under `outcome`.
    pub open spec fn fails(self, outcome: StepOutcome) -> bool {
        !self.finished() && (self.steps[self.done as int].tag is None || outcome
            == StepOutcome::Failed)
    }

    /// The state after the step that was due ended with `outcome`. Once the
    /// job is over nothing changes.
    pub open spec fn next(self, outcome: StepOutcome) -> IndependentState {
        if self.finished() {
            self
        } else {
            IndependentState {
                original: self.original,
                steps: self.steps,
                done: self.done + 1,
                failed: if self.fails(outcome) {
                    self.failed + 1
                } else {
                    self.failed
                },
            }
        }
    }

    /// The progress units that `outcome` completes: one for each step that
    /// ends, however it ends.
    pub open spec fn units(self, outcome: StepOutcome) -> nat {
        if self.finished() {
            0
        } else {
            1
        }
    }

    /// The failure that `outcome` brings.
    pub open spec fn failure(self, outcome: StepOutcome) -> Option<(nat, FailureKind)> {
        if !self.fails(outcome) {
            None
        } else if self.steps[self.done as int].tag is None {
            Some((self.done, FailureKind::UnknownTransformation))
        } else {
            Some((self.done, FailureKind::TransformationFailed))
        }
    }

    /// What the driver is to do in this state.
    pub open spec fn action(self) -> IndependentActionView {
        if self.finished() {
            IndependentActionView::Finish
        } else {
            match self.steps[self.done as int].tag {
                Some(tag) => IndependentActionView::Invoke {
                    step: self.done,
                    input: self.original,
                    expected: tagged_name(self.original, tag),
                },
                None => IndependentActionView::Unresolved { step: self.done },
            }
        }
    }
}

/// An independent job in execution.
pub struct IndependentRun {
    original: String,
    steps: Vec<Step>,
    done: usize,
    failed: usize,
}

impl View for IndependentRun {
    type V = IndependentState;

    closed spec fn view(&self) -> IndependentState {
        IndependentState {
            original: self.original@,
            steps: steps_view(self.steps@),
            done: self.done as nat,
            failed: self.failed as nat,
        }
    }
}

impl IndependentRun {
    /// An independent job on the file `original` with the steps `steps`,
    /// none of them done. There is none without steps.
    pub fn new(original: &str, steps: &Vec<Step>) -> (r: Option<Self>)
        ensures
            steps@.len() == 0 ==> r is None,
            steps@.len() > 0 ==> r is Some && r->Some_0@ == IndependentState::start(
                original@,
                steps_view(steps@),
            ) && r->Some_0@.wf(),
    {
        if steps.len() == 0 {
            return None;
        }
        Some(
            IndependentRun {
                original: String::from_str(original),
                steps: copy_steps(steps),
                done: 0,
                failed: 0,
            },
        )
    }

    /// Whether the job is over.
    pub fn is_finished(&self) -> (r: bool)
        ensures
            r == self@.finished(),
    {
        self.done >= self.steps.len()
    }

    /// The number of steps that have ended.
    pub fn completed_steps(&self) -> (r: usize)
        ensures
            r == self@.done,
    {
        self.done
    }

    /// The number of steps that have ended in failure.
    pub fn failed_steps(&self) -> (r: usize)
        ensures
            r == self@.failed,
    {
        self.failed
    }

    /// The identifier of step `step`, if the job has such a step.
    pub fn step_id(&self, step: usize) -> (r: Option<String>)
        ensures
            step < self@.steps.len() ==> r is Some && r->Some_0@ == self@.steps[step as int].id,
            step >= self@.steps.len() ==> r is None,
    {
        if step < self.steps.len() {
            Some(self.steps[step].id.clone())
        } else {
            None
        }
    }

    /// What the driver is to do next.
    pub fn next_action(&self) -> (r: IndependentAction)
        ensures
            r@ == self@.action(),
    {
        if self.done >= self.steps.len() {
            IndependentAction::Finish
        } else {
            match &self.steps[self.done].tag {
                Some(tag) => IndependentAction::Invoke {
                    step: self.done,
                    input: self.original.clone(),
                    expected: tagged(self.original.as_str(), tag.as_str()),
                },
                None => IndependentAction::Unresolved { step: self.done },
            }
        }
    }

    /// Takes into account that the step that was due ended with `outcome`,
    /// and says what that brought about.
    pub fn advance(&mut self, outcome: StepOutcome) -> (r: Report)
        requires
            old(self)@.wf(),
        ensures
            final(self)@ == old(self)@.next(outcome),
            final(self)@.wf(),
            r.units == old(self)@.units(outcome),
            failure_view(r.failure) == old(self)@.failure(outcome),
    {
        if self.done >= self.steps.len() {
            return Report { units: 0, failure: None };
        }
        let step = self.done;
        let failure = if self.steps[step].tag.is_none() {
            Some(Failure { step, kind: FailureKind::UnknownTransformation })
        } else if outcome == StepOutcome::Failed {
            Some(Failure { step, kind: FailureKind::TransformationFailed })
        } else {
            None
        };
        self.done = self.done + 1;
        if failure.is_some() {
            self.failed = self.failed + 1;
        }
        Report { units: 1, failure }
    }
}

/// The state that `s` is in after the steps ended with `outcomes`, in order.
pub open spec fn run(s: IndependentState, outcomes: Seq<StepOutcome>) -> IndependentState
    decreases outcomes.len(),
{
    if outcomes.len() == 0 {
        s
    } else {
        run(s, outcomes.drop_last()).next(outcomes.last())
    }
}

/// The progress units that `outcomes` complete, starting in `s`.
pub open spec fn units_of(s: IndependentState, outcomes: Seq<StepOutcome>) -> nat
    decreases outcomes.len(),
{
    if outcomes.len() == 0 {
        0
    } else {
        units_of(s, outcomes.drop_last()) + run(s, outcomes.drop_last()).units(outcomes.last())
    }
}

/// The failures that `outcomes` bring, starting in `s`.
pub open spec fn failures_of(s: IndependentState, outcomes: Seq<StepOutcome>) -> nat
    decreases outcomes.len(),
{
    if outcomes.len() == 0 {
        0
    } else {
        failures_of(s, outcomes.drop_last()) + if run(s, outcomes.drop_last()).failure(
            outcomes.last(),
        ) is Some {
            1nat
        } else {
            0nat
        }
    }
}

/// An independent job completes one progress unit for each step that ends,
/// whether the step succeeds or fails, and as many units as it has steps
/// when it is over. Every step comes up, whatever became of those before
/// it, and each failed step brings one failure.
pub proof fn lemma_one_unit_per_step(s: IndependentState, outcomes: Seq<StepOutcome>)
    requires
        s.wf(),
    ensures
        run(s, outcomes).wf(),
        run(s, outcomes).original == s.original,
        run(s, outcomes).steps == s.steps,
        run(s, outcomes).done == if s.done + outcomes.len() <= s.steps.len() {
            s.done + outcomes.len()
        } else {
            s.steps.len()
        },
        units_of(s, outcomes) == run(s, outcomes).done - s.done,
        failures_of(s, outcomes) == run(s, outcomes).failed - s.failed,
        run(s, outcomes).finished() ==> s.done + units_of(s, outcomes) == s.steps.len(),
        run(s, outcomes).finished() && s.done == 0 ==> units_of(s, outcomes) == job_units(
            s.steps.len(),
            Topology::Independent,
        ),
    decreases outcomes.len(),
{
    if outcomes.len() > 0 {
        lemma_one_unit_per_step(s, outcomes.drop_last());
    }
}

/// Two steps of one job with different tags write different outputs.
pub proof fn lemma_steps_never_collide(s: IndependentState, i: int, j: int)
    requires
        0 <= i < s.steps.len(),
        0 <= j < s.steps.len(),
        s.steps[i].tag is Some,
        s.steps[j].tag is Some,
        s.steps[i].tag != s.steps[j].tag,
    ensures
        tagged_name(s.original, s.steps[i].tag->Some_0) != tagged_name(
            s.original,
            s.steps[j].tag->Some_0,
        ),
{
    lemma_tagged_name_by_tag(s.original, s.steps[i].tag->Some_0, s.steps[j].tag->Some_0);
}

/// Two independent jobs on different inputs, both with an extension, write
/// different outputs at the same step; and at any two steps, where the tags
/// of both hold no `_`.
pub proof fn lemma_jobs_never_collide(
    a: Seq<char>,
    b: Seq<char>,
    tag_a: Seq<char>,
    tag_b: Seq<char>,
)
    requires
        has_extension(a),
        has_extension(b),
        a != b,
        tag_a == tag_b || (plain_tag(tag_a) && plain_tag(tag_b)),
    ensures
        tagged_name(a, tag_a) != tagged_name(b, tag_b),
{
    if tag_a == tag_b {
        lemma_tagged_name_injective(a, b, tag_a);
    } else if tagged_name(a, tag_a) == tagged_name(b, tag_b) {
        lemma_tagged_name_determines_tag(a, tag_a, b, tag_b);
        lemma_name_parts(a);
        lemma_name_parts(b);
    }
}

} // verus!
