//! The chained topology of one job as a state machine: each step reads the
//! located output of the step before it, the last output is renamed to the
//! canonical name, and the intermediate outputs are deleted at the end.
//!
//! The machine decides; its driver invokes the transformations, looks for
//! their outputs, renames and deletes, and hands back what happened.

use vstd::prelude::*;
use vstd::string::*;
use crate::job::{copy_steps, steps_view, Step, StepView};
use crate::naming::{name_view, names_view, processed_name, tagged, tagged_name};

verus! {

/// Where a chained job stands.
#[derive(Clone, Copy, Debug, PartialEq, Eq, Structural)]
pub enum ChainPhase {
    /// A step is due.
    Running,
    /// Every step's output was located; the last one is to be renamed.
    Renaming,
    /// The job is over and a final output is kept.
    Succeeded,
    /// The job is over: a step failed, and no final output is kept.
    Failed,
}

/// What the driver observed.
#[derive(Clone, Copy, Debug, PartialEq, Eq, Structural)]
pub enum ChainEvent {
    /// The step that was due reported a failure, or could not be started.
    StepFailed,
    /// The step that was due reported success, but its output is absent.
    OutputMissing,
    /// The step that was due reported success and its output was found.
    OutputLocated,
    /// The last output now has the canonical name.
    Renamed,
    /// The last output could not be renamed.
    RenameFailed,
}

/// Why a chain was aborted.
#[derive(Clone, Copy, Debug, PartialEq, Eq, Structural)]
pub enum FailureKind {
    /// The catalog does not know the step's identifier.
    UnknownTransformation,
    /// The transformation reported a failure.
    TransformationFailed,
    /// The transformation reported success, but its output is absent.
    OutputNotFound,
}

/// The state of a chained job, by what it stands for.
pub ghost struct ChainState {
    /// The file name of the input.
    pub original: Seq<char>,
    pub steps: Seq<StepView>,
    /// The located outputs, one per completed step, in order.
    pub outputs: Seq<Seq<char>>,
    pub phase: ChainPhase,
    /// The final output that is kept.
    pub kept: Option<Seq<char>>,
}

impl ChainState {
    /// The file that the next step reads: the original, or the output of the
    /// step before.
    pub open spec fn current(self) -> Seq<char> {
        if self.outputs.len() == 0 {
            self.original
        } else {
            self.outputs.last()
        }
    }

    /// Whether the job is over.
    pub open spec fn finished(self) -> bool {
        self.phase == ChainPhase::Succeeded || self.phase == ChainPhase::Failed
    }

    /// The input of step `i`, given the outputs of the steps before it.
    pub open spec fn input_of(self, i: int) -> Seq<char> {
        if i == 0 {
            self.original
        } else {
            self.outputs[i - 1]
        }
    }

    /// Whether the state is one that a chained job can be in.
    pub open spec fn wf(self) -> bool {
        &&& self.steps.len() > 0
        &&& self.outputs.len() <= self.steps.len()
        &&& forall|i: int|
            0 <= i < self.outputs.len() ==> {
                &&& (#[trigger] self.steps[i]).tag is Some
                &&& self.outputs[i] == tagged_name(self.input_of(i), self.steps[i].tag->Some_0)
            }
        &&& match self.phase {
            ChainPhase::Running => self.outputs.len() < self.steps.len() && self.kept is None,
            ChainPhase::Renaming => self.outputs.len() == self.steps.len() && self.kept is None,
            ChainPhase::Succeeded => {
                &&& self.outputs.len() == self.steps.len()
                &&& (self.kept == Some(processed_name(self.original)) || self.kept == Some(
                    self.outputs.last(),
                ))
            },
            ChainPhase::Failed => self.outputs.len() < self.steps.len() && self.kept is None,
        }
    }

    /// The state in which a job on `original` with `steps` starts.
    pub open spec fn start(original: Seq<char>, steps: Seq<StepView>) -> ChainState {
        ChainState {
            original,
            steps,
            outputs: Seq::empty(),
            phase: ChainPhase::Running,
            kept: None,
        }
    }

    /// The state with another phase and kept output.
    pub open spec fn ended(self, phase: ChainPhase, kept: Option<Seq<char>>) -> ChainState {
        ChainState {
            original: self.original,
            steps: self.steps,
            outputs: self.outputs,
            phase,
            kept,
        }
    }

    /// The state after the output of the step that was due has been located.
    pub open spec fn located(self) -> ChainState {
        let tag = self.steps[self.outputs.len() as int].tag->Some_0;
        let outputs = self.outputs.push(tagged_name(self.current(), tag));
        ChainState {
            original: self.original,
            steps: self.steps,
            outputs,
            phase: if outputs.len() == self.steps.len() {
                ChainPhase::Renaming
            } else {
                ChainPhase::Running
            },
            kept: None,
        }
    }

    /// The state after `event`. An event that does not belong to the phase
    /// changes nothing.
    pub open spec fn next(self, event: ChainEvent) -> ChainState {
        match self.phase {
            ChainPhase::Running => match event {
                ChainEvent::Renamed | ChainEvent::RenameFailed => self,
                ChainEvent::OutputLocated => if self.steps[self.outputs.len() as int].tag
                    is Some {
                    self.located()
                } else {
                    self.ended(ChainPhase::Failed, None)
                },
                ChainEvent::StepFailed | ChainEvent::OutputMissing => self.ended(
                    ChainPhase::Failed,
                    None,
                ),
            },
            ChainPhase::Renaming => match event {
                ChainEvent::Renamed => self.ended(
                    ChainPhase::Succeeded,
                    Some(processed_name(self.original)),
                ),
                ChainEvent::RenameFailed => self.ended(
                    ChainPhase::Succeeded,
                    Some(self.outputs.last()),
                ),
                _ => self,
            },
            ChainPhase::Succeeded | ChainPhase::Failed => self,
        }
    }

    /// The progress units that `event` completes: one when it ends the job.
    pub open spec fn units(self, event: ChainEvent) -> nat {
        if !self.finished() && self.next(event).finished() {
            1
        } else {
            0
        }
    }

    /// The failure that `event` brings, with the step that it stopped.
    pub open spec fn failure(self, event: ChainEvent) -> Option<(nat, FailureKind)> {
        if self.phase == ChainPhase::Running && self.next(event).phase == ChainPhase::Failed {
            let step = self.outputs.len();
            if self.steps[step as int].tag is None {
                Some((step, FailureKind::UnknownTransformation))
            } else if event == ChainEvent::OutputMissing {
                Some((step, FailureKind::OutputNotFound))
            } else {
                Some((step, FailureKind::TransformationFailed))
            }
        } else {
            None
        }
    }
}

/// Every state that follows a well-formed state is well formed.
pub proof fn lemma_next_wf(s: ChainState, event: ChainEvent)
    requires
        s.wf(),
    ensures
        s.next(event).wf(),
{
    let n = s.next(event);
    if s.phase == ChainPhase::Running && event == ChainEvent::OutputLocated && s.steps[s.outputs.len() as int].tag
        is Some {
        assert forall|i: int| 0 <= i < n.outputs.len() implies {
            &&& (#[trigger] n.steps[i]).tag is Some
            &&& n.outputs[i] == tagged_name(n.input_of(i), n.steps[i].tag->Some_0)
        } by {
            if i < s.outputs.len() {
                assert(s.steps[i].tag is Some);
                assert(n.input_of(i) == s.input_of(i));
            }
        }
    } else {
        assert forall|i: int| 0 <= i < n.outputs.len() implies {
            &&& (#[trigger] n.steps[i]).tag is Some
            &&& n.outputs[i] == tagged_name(n.input_of(i), n.steps[i].tag->Some_0)
        } by {
            assert(s.steps[i].tag is Some);
            assert(n.input_of(i) == s.input_of(i));
        }
    }
}

/// The names of `names` that may be deleted: those that are neither
/// `original` nor `kept`, in order.
pub open spec fn removable(
    names: Seq<Seq<char>>,
    original: Seq<char>,
    kept: Option<Seq<char>>,
) -> Seq<Seq<char>>
    decreases names.len(),
{
    if names.len() == 0 {
        Seq::empty()
    } else {
        let rest = removable(names.drop_last(), original, kept);
        if names.last() != original && kept != Some(names.last()) {
            rest.push(names.last())
        } else {
            rest
        }
    }
}

/// What the driver is to do next.
#[derive(Debug, PartialEq, Eq)]
pub enum ChainAction {
    /// Invoke the transformation of step `step` on `input`, then look for
    /// the output `expected`.
    Invoke { step: usize, input: String, expected: String },
    /// Step `step` names no known transformation: report it as failed.
    Unresolved { step: usize },
    /// Rename the output `from` to the canonical name `to`.
    Rename { from: String, to: String },
    /// The job is over: delete the outputs `delete`; `kept` is the final
    /// output, if the job succeeded.
    Finish { delete: Vec<String>, kept: Option<String> },
}

/// What a `ChainAction` stands for.
pub ghost enum ChainActionView {
    Invoke { step: nat, input: Seq<char>, expected: Seq<char> },
    Unresolved { step: nat },
    Rename { from: Seq<char>, to: Seq<char> },
    Finish { delete: Seq<Seq<char>>, kept: Option<Seq<char>> },
}

impl View for ChainAction {
    type V = ChainActionView;

    open spec fn view(&self) -> ChainActionView {
        match *self {
            ChainAction::Invoke { step, input, expected } => ChainActionView::Invoke {
                step: step as nat,
                input: input@,
                expected: expected@,
            },
            ChainAction::Unresolved { step } => ChainActionView::Unresolved { step: step as nat },
            ChainAction::Rename { from, to } => ChainActionView::Rename { from: from@, to: to@ },
            ChainAction::Finish { delete, kept } => ChainActionView::Finish {
                delete: names_view(delete@),
                kept: name_view(kept),
            },
        }
    }
}

impl ChainState {
    /// The outputs of the steps before the last one, as far as they were
    /// located.
    pub open spec fn intermediates(self) -> Seq<Seq<char>> {
        if self.outputs.len() < self.steps.len() {
            self.outputs
        } else {
            self.outputs.drop_last()
        }
    }

    /// The outputs to delete when the job is over: the intermediates that
    /// are neither the original nor the kept output.
    pub open spec fn cleanup(self) -> Seq<Seq<char>> {
        removable(self.intermediates(), self.original, self.kept)
    }

    /// What the driver is to do in this state.
    pub open spec fn action(self) -> ChainActionView {
        match self.phase {
            ChainPhase::Running => {
                let step = self.outputs.len();
                match self.steps[step as int].tag {
                    Some(tag) => ChainActionView::Invoke {
                        step,
                        input: self.current(),
                        expected: tagged_name(self.current(), tag),
                    },
                    None => ChainActionView::Unresolved { step },
                }
            },
            ChainPhase::Renaming => ChainActionView::Rename {
                from: self.outputs.last(),
                to: processed_name(self.original),
            },
            ChainPhase::Succeeded | ChainPhase::Failed => ChainActionView::Finish {
                delete: self.cleanup(),
                kept: self.kept,
            },
        }
    }
}

/// A failed step.
#[derive(Clone, Copy, Debug, PartialEq, Eq, Structural)]
pub struct Failure {
    /// The position of the step in the job's list.
    pub step: usize,
    pub kind: FailureKind,
}

/// What an event brought about.
#[derive(Clone, Copy, Debug, PartialEq, Eq, Structural)]
pub struct Report {
    /// The progress units that the event completed.
    pub units: usize,
    /// The failure to log, if the event was one.
    pub failure: Option<Failure>,
}

/// The failure in `f`, if any, by step and kind.
pub open spec fn failure_view(f: Option<Failure>) -> Option<(nat, FailureKind)> {
    match f {
        Some(f) => Some((f.step as nat, f.kind)),
        None => None,
    }
}

/// A chained job in execution.
pub struct ChainRun {
    original: String,
    steps: Vec<Step>,
    outputs: Vec<String>,
    phase: ChainPhase,
    kept: Option<String>,
}

impl View for ChainRun {
    type V = ChainState;

    closed spec fn view(&self) -> ChainState {
        ChainState {
            original: self.original@,
            steps: steps_view(self.steps@),
            outputs: names_view(self.outputs@),
            phase: self.phase,
            kept: name_view(self.kept),
        }
    }
}

impl ChainRun {
    /// A chained job on the file `original` with the steps `steps`, none of
    /// them done. There is none without steps.
    pub fn new(original: &str, steps: &Vec<Step>) -> (r: Option<Self>)
        ensures
            steps@.len() == 0 ==> r is None,
            steps@.len() > 0 ==> r is Some && r->Some_0@ == ChainState::start(
                original@,
                steps_view(steps@),
            ) && r->Some_0@.wf(),
    {
        if steps.len() == 0 {
            return None;
        }
        let run = ChainRun {
            original: String::from_str(original),
            steps: copy_steps(steps),
            outputs: Vec::new(),
            phase: ChainPhase::Running,
            kept: None,
        };
        assert(run@.outputs =~= Seq::<Seq<char>>::empty());
        Some(run)
    }

    /// Where the job stands.
    pub fn phase(&self) -> (r: ChainPhase)
        ensures
            r == self@.phase,
    {
        self.phase
    }

    /// Whether the job is over.
    pub fn is_finished(&self) -> (r: bool)
        ensures
            r == self@.finished(),
    {
        match self.phase {
            ChainPhase::Succeeded | ChainPhase::Failed => true,
            _ => false,
        }
    }

    /// The number of steps whose output has been located.
    pub fn located_steps(&self) -> (r: usize)
        ensures
            r == self@.outputs.len(),
    {
        self.outputs.len()
    }

    /// The identifier of step `step`, if the job has such a step.
    pub fn step_id(&self, step: usize) -> (r: Option<String>)
        ensures
            step < self@.steps.len() ==> r is Some && r->Some_0@ == self@.steps[step as int].id,
            step >= self@.steps.len() ==> r is None,
    {
        if step < self.steps.len() {
            Some(self.steps[step].id.clone())
        } else {
            None
        }
    }

    /// The file that the next step reads: the input, or the output that was
    /// located last.
    pub fn current(&self) -> (r: String)
        ensures
            r@ == self@.current(),
    {
        let n = self.outputs.len();
        if n == 0 {
            self.original.clone()
        } else {
            self.outputs[n - 1].clone()
        }
    }

    /// Takes `event` into account and says what it brought about.
    pub fn advance(&mut self, event: ChainEvent) -> (r: Report)
        requires
            old(self)@.wf(),
        ensures
            final(self)@ == old(self)@.next(event),
            final(self)@.wf(),
            r.units == old(self)@.units(event),
            failure_view(r.failure) == old(self)@.failure(event),
    {
        proof {
            lemma_next_wf(self@, event);
        }
        match self.phase {
            ChainPhase::Running => {
                let step = self.outputs.len();
                match event {
                    ChainEvent::Renamed | ChainEvent::RenameFailed => Report {
                        units: 0,
                        failure: None,
                    },
                    ChainEvent::OutputLocated => {
                        let expected = match &self.steps[step].tag {
                            Some(tag) => Some(tagged(self.current().as_str(), tag.as_str())),
                            None => None,
                        };
                        match expected {
                            Some(name) => {
                                self.outputs.push(name);
                                if self.outputs.len() == self.steps.len() {
                                    self.phase = ChainPhase::Renaming;
                                }
                                assert(self@.outputs =~= old(self)@.located().outputs);
                                Report { units: 0, failure: None }
                            },
                            None => {
                                self.phase = ChainPhase::Failed;
                                Report {
                                    units: 1,
                                    failure: Some(
                                        Failure { step, kind: FailureKind::UnknownTransformation },
                                    ),
                                }
                            },
                        }
                    },
                    ChainEvent::StepFailed | ChainEvent::OutputMissing => {
                        let kind = if self.steps[step].tag.is_none() {
                            FailureKind::UnknownTransformation
                        } else if event == ChainEvent::OutputMissing {
                            FailureKind::OutputNotFound
                        } else {
                            FailureKind::TransformationFailed
                        };
                        self.phase = ChainPhase::Failed;
                        Report { units: 1, failure: Some(Failure { step, kind }) }
                    },
                }
            },
            ChainPhase::Renaming => match event {
                ChainEvent::Renamed => {
                    self.kept = Some(tagged(self.original.as_str(), "processed"));
                    self.phase = ChainPhase::Succeeded;
                    proof {
                        reveal_strlit("processed");
                        assert("processed"@ =~= crate::naming::processed_tag());
                    }
                    Report { units: 1, failure: None }
                },
                ChainEvent::RenameFailed => {
                    self.kept = Some(self.current());
                    self.phase = ChainPhase::Succeeded;
                    Report { units: 1, failure: None }
                },
                _ => Report { units: 0, failure: None },
            },
            ChainPhase::Succeeded | ChainPhase::Failed => Report { units: 0, failure: None },
        }
    }

    fn cleanup(&self) -> (r: Vec<String>)
        requires
            self@.wf(),
        ensures
            names_view(r@) == self@.cleanup(),
    {
        let n = if self.outputs.len() < self.steps.len() {
            self.outputs.len()
        } else {
            self.outputs.len() - 1
        };
        let ghost names = self@.intermediates();
        let mut out: Vec<String> = Vec::new();
        let mut i: usize = 0;
        proof {
            assert(names.take(0) =~= Seq::<Seq<char>>::empty());
            assert(names_view(out@) =~= Seq::<Seq<char>>::empty());
        }
        while i < n
            invariant
                i <= n,
                n == names.len(),
                n <= self.outputs@.len(),
                names == self@.intermediates(),
                forall|j: int| 0 <= j < n ==> names[j] == self.outputs@[j]@,
                names_view(out@) == removable(names.take(i as int), self@.original, self@.kept),
            decreases n - i,
        {
            let name = &self.outputs[i];
            let keep = match &self.kept {
                Some(k) => *k == *name,
                None => false,
            };
            proof {
                assert(names.take(i + 1).drop_last() =~= names.take(i as int));
                assert(names.take(i + 1).last() == name@);
            }
            if !(*name == self.original) && !keep {
                let ghost before = names_view(out@);
                out.push(name.clone());
                assert(names_view(out@) =~= before.push(name@));
            }
            i = i + 1;
        }
        proof {
            assert(names.take(n as int) =~= names);
        }
        out
    }

    /// What the driver is to do next.
    pub fn next_action(&self) -> (r: ChainAction)
        requires
            self@.wf(),
        ensures
            r@ == self@.action(),
    {
        match self.phase {
            ChainPhase::Running => {
                let step = self.outputs.len();
                match &self.steps[step].tag {
                    Some(tag) => {
                        let input = self.current();
                        let expected = tagged(input.as_str(), tag.as_str());
                        ChainAction::Invoke { step, input, expected }
                    },
                    None => ChainAction::Unresolved { step },
                }
            },
            ChainPhase::Renaming => {
                proof {
                    reveal_strlit("processed");
                    assert("processed"@ =~= crate::naming::processed_tag());
                }
                ChainAction::Rename {
                    from: self.current(),
                    to: tagged(self.original.as_str(), "processed"),
                }
            },
            ChainPhase::Succeeded | ChainPhase::Failed => {
                let kept = match &self.kept {
                    Some(k) => Some(k.clone()),
                    None => None,
                };
                ChainAction::Finish { delete: self.cleanup(), kept }
            },
        }
    }
}

} // verus!
