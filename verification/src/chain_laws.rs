//! What holds of every chained job, whatever its driver observes.

use vstd::prelude::*;
use crate::chain::{lemma_next_wf, removable, ChainActionView, ChainEvent, ChainPhase, ChainState};
use crate::job::{job_units, Topology};
use crate::naming::{
    has_extension, lemma_tagged_name_injective, lemma_tagged_name_parts, processed_name,
};

verus! {

/// The state that `s` is in after the events `events`, in order.
pub open spec fn run(s: ChainState, events: Seq<ChainEvent>) -> ChainState
    decreases events.len(),
{
    if events.len() == 0 {
        s
    } else {
        run(s, events.drop_last()).next(events.last())
    }
}

/// The progress units that the events `events` complete, starting in `s`.
pub open spec fn units_of(s: ChainState, events: Seq<ChainEvent>) -> nat
    decreases events.len(),
{
    if events.len() == 0 {
        0
    } else {
        units_of(s, events.drop_last()) + run(s, events.drop_last()).units(events.last())
    }
}

/// The failures that the events `events` bring, starting in `s`.
pub open spec fn failures_of(s: ChainState, events: Seq<ChainEvent>) -> nat
    decreases events.len(),
{
    if events.len() == 0 {
        0
    } else {
        failures_of(s, events.drop_last()) + if run(s, events.drop_last()).failure(
            events.last(),
        ) is Some {
            1nat
        } else {
            0nat
        }
    }
}

/// How often `events` reports that an output was located.
pub open spec fn located_in(events: Seq<ChainEvent>) -> nat
    decreases events.len(),
{
    if events.len() == 0 {
        0
    } else {
        located_in(events.drop_last()) + if events.last() == ChainEvent::OutputLocated {
            1nat
        } else {
            0nat
        }
    }
}

/// A job stays well formed, keeps its input and its steps, and once over
/// stays as it is.
pub proof fn lemma_run_wf(s: ChainState, events: Seq<ChainEvent>)
    requires
        s.wf(),
    ensures
        run(s, events).wf(),
        run(s, events).original == s.original,
        run(s, events).steps == s.steps,
        s.finished() ==> run(s, events) == s,
    decreases events.len(),
{
    if events.len() > 0 {
        lemma_run_wf(s, events.drop_last());
        lemma_next_wf(run(s, events.drop_last()), events.last());
    }
}

/// A chained job completes exactly one progress unit, at the event that ends
/// it, whether it succeeds or fails; until then it completes none. So a job
/// that has run from its start to its end has completed the units of a
/// chained job.
pub proof fn lemma_one_unit_per_job(s: ChainState, events: Seq<ChainEvent>)
    requires
        s.wf(),
    ensures
        units_of(s, events) == if !s.finished() && run(s, events).finished() {
            1nat
        } else {
            0nat
        },
        !s.finished() && run(s, events).finished() ==> units_of(s, events) == job_units(
            s.steps.len(),
            Topology::Chained,
        ),
    decreases events.len(),
{
    if events.len() > 0 {
        let front = events.drop_last();
        lemma_one_unit_per_job(s, front);
        lemma_run_wf(s, front);
        let mid = run(s, front);
        if mid.finished() {
            assert(mid.next(events.last()) == mid);
        }
    }
}

/// A chained job brings at most one failure, and one exactly when it ends
/// as failed.
pub proof fn lemma_one_failure_per_job(s: ChainState, events: Seq<ChainEvent>)
    requires
        s.wf(),
        s.phase == ChainPhase::Running,
    ensures
        failures_of(s, events) == if run(s, events).phase == ChainPhase::Failed {
            1nat
        } else {
            0nat
        },
    decreases events.len(),
{
    if events.len() > 0 {
        let front = events.drop_last();
        lemma_one_failure_per_job(s, front);
        lemma_run_wf(s, front);
    }
}

/// No step is invoked before the output of the step before it has been
/// located: the job has located one output for each `OutputLocated` that it
/// took at most, the step that it asks for is the one after the located
/// outputs, and that step reads the last located output.
pub proof fn lemma_steps_follow_outputs(
    original: Seq<char>,
    steps: Seq<crate::job::StepView>,
    events: Seq<ChainEvent>,
)
    requires
        steps.len() > 0,
    ensures
        run(ChainState::start(original, steps), events).outputs.len() <= located_in(events),
        match run(ChainState::start(original, steps), events).action() {
            ChainActionView::Invoke { step, input, expected } => {
                &&& step == run(ChainState::start(original, steps), events).outputs.len()
                &&& step <= located_in(events)
                &&& step > 0 ==> input == run(
                    ChainState::start(original, steps),
                    events,
                ).outputs[step - 1]
                &&& step == 0 ==> input == original
            },
            _ => true,
        },
    decreases events.len(),
{
    let start = ChainState::start(original, steps);
    if events.len() > 0 {
        lemma_steps_follow_outputs(original, steps, events.drop_last());
        lemma_run_wf(start, events.drop_last());
    }
    lemma_run_wf(start, events);
}

/// Each located output is longer than the input of its step, so the outputs
/// of one job grow in length and all are longer than the original.
pub proof fn lemma_outputs_grow(s: ChainState, i: int, j: int)
    requires
        s.wf(),
        0 <= i <= j < s.outputs.len(),
    ensures
        s.original.len() < s.outputs[i].len(),
        i < j ==> s.outputs[i].len() < s.outputs[j].len(),
        s.outputs[i].len() <= s.outputs[j].len(),
    decreases j,
{
    assert(s.steps[j].tag is Some);
    lemma_tagged_name_parts(s.input_of(j), s.steps[j].tag->Some_0);
    if j > 0 {
        if i < j {
            lemma_outputs_grow(s, i, j - 1);
        } else {
            lemma_outputs_grow(s, j - 1, j - 1);
        }
    }
}

/// What `removable` keeps: the names that are neither the original nor the
/// kept output, and no others.
pub proof fn lemma_removable(
    names: Seq<Seq<char>>,
    original: Seq<char>,
    kept: Option<Seq<char>>,
    name: Seq<char>,
)
    ensures
        removable(names, original, kept).contains(name) <==> names.contains(name) && name
            != original && kept != Some(name),
    decreases names.len(),
{
    if names.len() > 0 {
        let front = names.drop_last();
        lemma_removable(front, original, kept, name);
        let rest = removable(front, original, kept);
        let out = removable(names, original, kept);
        if names.contains(name) {
            let k = choose|k: int| 0 <= k < names.len() && names[k] == name;
            if k < front.len() {
                assert(front[k] == name);
            }
        }
        if front.contains(name) {
            let k = choose|k: int| 0 <= k < front.len() && front[k] == name;
            assert(names[k] == name);
        }
        assert(names[names.len() - 1] == names.last());
        if names.last() != original && kept != Some(names.last()) {
            assert(out == rest.push(names.last()));
            if rest.contains(name) {
                let k = choose|k: int| 0 <= k < rest.len() && rest[k] == name;
                assert(out[k] == name);
            }
            assert(out[out.len() - 1] == names.last());
            if out.contains(name) {
                let k = choose|k: int| 0 <= k < out.len() && out[k] == name;
                if k < rest.len() {
                    assert(rest[k] == name);
                }
            }
        }
    }
}

/// When a chained job is over, no intermediate output stays behind: each is
/// deleted, unless it is the kept output. Neither the original nor the kept
/// output is deleted, and a failed job keeps none of its outputs.
pub proof fn lemma_cleanup_leaves_nothing(s: ChainState)
    requires
        s.wf(),
        s.finished(),
    ensures
        !s.cleanup().contains(s.original),
        s.kept is Some ==> !s.cleanup().contains(s.kept->Some_0),
        forall|i: int|
            0 <= i < s.intermediates().len() ==> s.cleanup().contains(
                #[trigger] s.intermediates()[i],
            ) || s.kept == Some(s.intermediates()[i]),
        forall|name: Seq<char>| s.cleanup().contains(name) ==> s.intermediates().contains(name),
        s.phase == ChainPhase::Failed ==> s.intermediates() == s.outputs && s.kept is None,
        s.phase == ChainPhase::Succeeded ==> s.kept is Some,
{
    let names = s.intermediates();
    lemma_removable(names, s.original, s.kept, s.original);
    if s.kept is Some {
        lemma_removable(names, s.original, s.kept, s.kept->Some_0);
    }
    assert forall|i: int| 0 <= i < names.len() implies s.cleanup().contains(#[trigger] names[i])
        || s.kept == Some(names[i]) by {
        lemma_removable(names, s.original, s.kept, names[i]);
        assert(names[i] == s.outputs[i]);
        lemma_outputs_grow(s, i, i);
    }
    assert forall|name: Seq<char>| s.cleanup().contains(name) implies names.contains(name) by {
        lemma_removable(names, s.original, s.kept, name);
    }
}

/// Two chained jobs with the same steps on different inputs, both with an
/// extension, locate different outputs at every step, and keep different
/// canonical outputs.
pub proof fn lemma_jobs_never_collide(a: ChainState, b: ChainState, i: int)
    requires
        a.wf(),
        b.wf(),
        a.steps == b.steps,
        has_extension(a.original),
        has_extension(b.original),
        a.original != b.original,
        0 <= i < a.outputs.len(),
        i < b.outputs.len(),
    ensures
        a.outputs[i] != b.outputs[i],
        has_extension(a.outputs[i]),
        has_extension(b.outputs[i]),
        processed_name(a.original) != processed_name(b.original),
    decreases i,
{
    assert(a.steps[i].tag is Some);
    let tag = a.steps[i].tag->Some_0;
    lemma_tagged_name_parts(a.input_of(i), tag);
    lemma_tagged_name_parts(b.input_of(i), tag);
    if i > 0 {
        lemma_jobs_never_collide(a, b, i - 1);
    }
    lemma_tagged_name_injective(a.input_of(i), b.input_of(i), tag);
    lemma_tagged_name_injective(a.original, b.original, crate::naming::processed_tag());
}

} // verus!
