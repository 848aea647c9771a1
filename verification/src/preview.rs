//! The preview of a chain: the steps are applied in turn to a short cut of
//! one input, every located output counts as one unit of progress, and the
//! last located output is what the preview shows. Nothing is renamed or
//! deleted.

use vstd::prelude::*;
use vstd::string::*;
use crate::chain::{ChainAction, ChainEvent, ChainPhase, ChainRun, ChainState, Report};
use crate::chain::{failure_view, lemma_next_wf};
use crate::job::Step;
use crate::job::steps_view;
use crate::naming::{names_view, tagged_name};

verus! {

/// The name of the cut that a preview works on.
pub open spec fn preview_source() -> Seq<char> {
    "temp_source.mp4"@
}

/// The name of the cut that a preview works on.
pub fn source_name() -> (r: &'static str)
    ensures
        r@ == preview_source(),
{
    "temp_source.mp4"
}

/// The arguments that cut the first five seconds of `src` into `dst`,
/// encoded anew.
pub open spec fn cut_arguments_spec(src: Seq<char>, dst: Seq<char>) -> Seq<Seq<char>> {
    seq![
        "-y"@,
        "-ss"@,
        "0"@,
        "-t"@,
        "5"@,
        "-i"@,
        src,
        "-c:v"@,
        "libx264"@,
        "-preset"@,
        "ultrafast"@,
        "-c:a"@,
        "aac"@,
        dst,
    ]
}

/// The arguments that cut the first five seconds of `src` into `dst`.
pub fn cut_arguments(src: &str, dst: &str) -> (r: Vec<String>)
    ensures
        names_view(r@) == cut_arguments_spec(src@, dst@),
{
    let out: Vec<String> = vec![
        String::from_str("-y"),
        String::from_str("-ss"),
        String::from_str("0"),
        String::from_str("-t"),
        String::from_str("5"),
        String::from_str("-i"),
        String::from_str(src),
        String::from_str("-c:v"),
        String::from_str("libx264"),
        String::from_str("-preset"),
        String::from_str("ultrafast"),
        String::from_str("-c:a"),
        String::from_str("aac"),
        String::from_str(dst),
    ];
    assert(names_view(out@) =~= cut_arguments_spec(src@, dst@));
    out
}

/// What the driver of a preview is to do next.
#[derive(Debug, PartialEq, Eq)]
pub enum PreviewAction {
    /// Invoke the transformation of step `step` on `input`, then look for
    /// the output `expected`.
    Invoke { step: usize, input: String, expected: String },
    /// Step `step` names no known transformation: report it as failed.
    Unresolved { step: usize },
    /// The preview is over: show `result`, the last file that was made.
    Show { result: String, complete: bool },
}

/// What a `PreviewAction` stands for.
pub ghost enum PreviewActionView {
    Invoke { step: nat, input: Seq<char>, expected: Seq<char> },
    Unresolved { step: nat },
    Show { result: Seq<char>, complete: bool },
}

impl View for PreviewAction {
    type V = PreviewActionView;

    open spec fn view(&self) -> PreviewActionView {
        match *self {
            PreviewAction::Invoke { step, input, expected } => PreviewActionView::Invoke {
                step: step as nat,
                input: input@,
                expected: expected@,
            },
            PreviewAction::Unresolved { step } => PreviewActionView::Unresolved {
                step: step as nat,
            },
            PreviewAction::Show { result, complete } => PreviewActionView::Show {
                result: result@,
                complete,
            },
        }
    }
}

/// The state of a preview after `event`, where `s` is its state before: the
/// state of the chain, which stops before it would rename.
pub open spec fn preview_next(s: ChainState, event: ChainEvent) -> ChainState {
    if s.phase == ChainPhase::Running {
        s.next(event)
    } else {
        s
    }
}

/// The progress units that `event` completes in a preview: one for each
/// output that is located.
pub open spec fn preview_units(s: ChainState, event: ChainEvent) -> nat {
    if preview_next(s, event).outputs.len() > s.outputs.len() {
        1
    } else {
        0
    }
}

/// What the driver of a preview is to do in the state `s`.
pub open spec fn preview_action(s: ChainState) -> PreviewActionView {
    if s.phase == ChainPhase::Running {
        let step = s.outputs.len();
        match s.steps[step as int].tag {
            Some(tag) => PreviewActionView::Invoke {
                step,
                input: s.current(),
                expected: tagged_name(s.current(), tag),
            },
            None => PreviewActionView::Unresolved { step },
        }
    } else {
        PreviewActionView::Show { result: s.current(), complete: s.phase != ChainPhase::Failed }
    }
}

/// A preview in execution.
pub struct PreviewRun {
    chain: ChainRun,
}

impl View for PreviewRun {
    type V = ChainState;

    closed spec fn view(&self) -> ChainState {
        self.chain@
    }
}

impl PreviewRun {
    /// A preview of the steps `steps` on the cut named `source`, none of
    /// them done. There is none without steps.
    pub fn new(source: &str, steps: &Vec<Step>) -> (r: Option<Self>)
        ensures
            steps@.len() == 0 ==> r is None,
            steps@.len() > 0 ==> r is Some && r->Some_0@ == ChainState::start(
                source@,
                steps_view(steps@),
            ) && r->Some_0@.wf(),
    {
        match ChainRun::new(source, steps) {
            Some(chain) => Some(PreviewRun { chain }),
            None => None,
        }
    }

    /// Whether the preview is over.
    pub fn is_finished(&self) -> (r: bool)
        ensures
            r == (self@.phase != ChainPhase::Running),
    {
        match self.chain.phase() {
            ChainPhase::Running => false,
            _ => true,
        }
    }

    /// What the driver is to do next.
    pub fn next_action(&self) -> (r: PreviewAction)
        requires
            self@.wf(),
        ensures
            r@ == preview_action(self@),
    {
        match self.chain.next_action() {
            ChainAction::Invoke { step, input, expected } => PreviewAction::Invoke {
                step,
                input,
                expected,
            },
            ChainAction::Unresolved { step } => PreviewAction::Unresolved { step },
            ChainAction::Rename { from, to: _ } => PreviewAction::Show {
                result: from,
                complete: true,
            },
            ChainAction::Finish { delete: _, kept: _ } => PreviewAction::Show {
                result: self.chain.current(),
                complete: match self.chain.phase() {
                    ChainPhase::Failed => false,
                    _ => true,
                },
            },
        }
    }

    /// Takes `event` into account and says what it brought about: a located
    /// output completes one unit, and a failure ends the preview.
    pub fn advance(&mut self, event: ChainEvent) -> (r: Report)
        requires
            old(self)@.wf(),
        ensures
            final(self)@ == preview_next(old(self)@, event),
            final(self)@.wf(),
            r.units == preview_units(old(self)@, event),
            failure_view(r.failure) == old(self)@.failure(event),
    {
        match self.chain.phase() {
            ChainPhase::Running => {
                let before = self.chain.located_steps();
                let report = self.chain.advance(event);
                let units: usize = if self.chain.located_steps() > before {
                    1
                } else {
                    0
                };
                Report { units, failure: report.failure }
            },
            _ => Report { units: 0, failure: None },
        }
    }
}

/// The state of the preview `s` after the events `events`, in order.
pub open spec fn preview_run(s: ChainState, events: Seq<ChainEvent>) -> ChainState
    decreases events.len(),
{
    if events.len() == 0 {
        s
    } else {
        preview_next(preview_run(s, events.drop_last()), events.last())
    }
}

/// The progress units that the events `events` complete in the preview `s`.
pub open spec fn preview_units_of(s: ChainState, events: Seq<ChainEvent>) -> nat
    decreases events.len(),
{
    if events.len() == 0 {
        0
    } else {
        preview_units_of(s, events.drop_last()) + preview_units(
            preview_run(s, events.drop_last()),
            events.last(),
        )
    }
}

/// A preview completes one unit for each step whose output it has located:
/// never more than it has steps, and all of them exactly when it ends
/// complete.
pub proof fn lemma_preview_units(s: ChainState, events: Seq<ChainEvent>)
    requires
        s.wf(),
    ensures
        preview_run(s, events).wf(),
        preview_run(s, events).steps == s.steps,
        s.outputs.len() + preview_units_of(s, events) == preview_run(s, events).outputs.len(),
        preview_run(s, events).outputs.len() <= s.steps.len(),
    decreases events.len(),
{
    if events.len() > 0 {
        lemma_preview_units(s, events.drop_last());
        lemma_next_wf(preview_run(s, events.drop_last()), events.last());
    }
}

} // verus!
