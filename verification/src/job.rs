//! The job graph: one job per input file, each carrying the ordered list of
//! selected transformations, and the number of progress units of a batch.

use vstd::prelude::*;
use vstd::string::*;
use crate::catalog::ActionFactory;
use crate::config::ActionConfig;

verus! {

/// How the transformations of a job are applied to its file.
#[derive(Clone, Copy, Debug, PartialEq, Eq, Structural)]
pub enum Topology {
    /// Every transformation reads the original file and writes its own output.
    Independent,
    /// Every transformation reads the output of the one before it; one final
    /// output is kept.
    Chained,
}

/// One selected transformation: its identifier, and its output tag where the
/// catalog knows the identifier.
#[derive(Debug, PartialEq, Eq)]
pub struct Step {
    pub id: String,
    pub tag: Option<String>,
}

/// What a `Step` stands for.
pub ghost struct StepView {
    pub id: Seq<char>,
    pub tag: Option<Seq<char>>,
}

impl View for Step {
    type V = StepView;

    open spec fn view(&self) -> StepView {
        StepView {
            id: self.id@,
            tag: match self.tag {
                Some(t) => Some(t@),
                None => None,
            },
        }
    }
}

/// The steps of `steps`, each by what it stands for.
pub open spec fn steps_view(steps: Seq<Step>) -> Seq<StepView> {
    Seq::new(steps.len(), |i: int| steps[i]@)
}

/// The step that `id` resolves to in `catalog`.
pub open spec fn resolved_step(catalog: Map<Seq<char>, Seq<char>>, id: Seq<char>) -> StepView {
    StepView {
        id,
        tag: if catalog.contains_key(id) {
            Some(catalog[id])
        } else {
            None
        },
    }
}

/// The steps that `ids` resolve to in `catalog`, in order.
pub open spec fn resolved_steps(catalog: Map<Seq<char>, Seq<char>>, ids: Seq<String>) -> Seq<
    StepView,
> {
    Seq::new(ids.len(), |i: int| resolved_step(catalog, ids[i]@))
}

/// The unit of scheduling: one input file with the full list of steps.
#[derive(Debug, PartialEq, Eq)]
pub struct Job<'a> {
    /// The file name of the input.
    pub file: String,
    pub steps: Vec<Step>,
    pub topology: Topology,
    /// The configuration that all jobs of the batch share.
    pub config: &'a ActionConfig,
}

/// The jobs of a batch and its number of progress units.
#[derive(Debug, PartialEq, Eq)]
pub struct BatchPlan<'a> {
    pub jobs: Vec<Job<'a>>,
    pub total_units: usize,
}

/// Why a batch cannot start.
#[derive(Clone, Copy, Debug, PartialEq, Eq, Structural)]
pub enum BatchError {
    /// There is no input file.
    NoInputFiles,
    /// No transformation was selected.
    NoTransformations,
    /// The number of progress units does not fit the machine's word.
    TooManyUnits,
}

/// The number of progress units of one job with `steps` steps: one under
/// `Chained`, one per step under `Independent`.
pub open spec fn job_units(steps: nat, topology: Topology) -> nat {
    match topology {
        Topology::Chained => 1,
        Topology::Independent => steps,
    }
}

/// The number of progress units of a batch of `files` files with `steps`
/// steps each.
pub open spec fn unit_count(files: nat, steps: nat, topology: Topology) -> nat {
    files * job_units(steps, topology)
}

/// The number of progress units of a batch, where it fits the machine's word.
pub fn total_units(files: usize, steps: usize, topology: Topology) -> (r: Option<usize>)
    ensures
        match r {
            Some(n) => n == unit_count(files as nat, steps as nat, topology),
            None => unit_count(files as nat, steps as nat, topology) > usize::MAX,
        },
{
    match topology {
        Topology::Chained => {
            assert(files * 1 == files) by (nonlinear_arith);
            Some(files)
        },
        Topology::Independent => files.checked_mul(steps),
    }
}

/// The step that `id` resolves to in `catalog`.
pub fn resolve(catalog: &ActionFactory, id: &str) -> (r: Step)
    requires
        catalog.wf(),
    ensures
        r@ == resolved_step(catalog@, id@),
{
    Step { id: String::from_str(id), tag: catalog.get(id) }
}

/// The steps that `ids` resolve to in `catalog`, in order.
pub fn resolve_all(catalog: &ActionFactory, ids: &Vec<String>) -> (r: Vec<Step>)
    requires
        catalog.wf(),
    ensures
        steps_view(r@) == resolved_steps(catalog@, ids@),
{
    let mut out: Vec<Step> = Vec::new();
    let mut i: usize = 0;
    while i < ids.len()
        invariant
            catalog.wf(),
            i <= ids@.len(),
            out@.len() == i,
            forall|j: int| 0 <= j < i ==> out@[j]@ == resolved_step(catalog@, ids@[j]@),
        decreases ids@.len() - i,
    {
        out.push(resolve(catalog, ids[i].as_str()));
        i = i + 1;
    }
    assert(steps_view(out@) =~= resolved_steps(catalog@, ids@));
    out
}

/// A copy of `steps`.
pub fn copy_steps(steps: &Vec<Step>) -> (r: Vec<Step>)
    ensures
        steps_view(r@) == steps_view(steps@),
{
    let mut out: Vec<Step> = Vec::new();
    let mut i: usize = 0;
    while i < steps.len()
        invariant
            i <= steps@.len(),
            out@.len() == i,
            forall|j: int| 0 <= j < i ==> out@[j]@ == steps@[j]@,
        decreases steps@.len() - i,
    {
        let tag = match &steps[i].tag {
            Some(t) => Some(t.clone()),
            None => None,
        };
        out.push(Step { id: steps[i].id.clone(), tag });
        i = i + 1;
    }
    assert(steps_view(out@) =~= steps_view(steps@));
    out
}

/// Whether `plan` is the job graph of the batch of `files` with the steps
/// `ids` under `topology`: one job per file, in order, each with all the
/// steps as `catalog` resolves them and with the shared configuration, and
/// the batch's number of units.
pub open spec fn is_plan_of(
    plan: BatchPlan,
    files: Seq<String>,
    ids: Seq<String>,
    topology: Topology,
    catalog: Map<Seq<char>, Seq<char>>,
    config: &ActionConfig,
) -> bool {
    &&& plan.jobs@.len() == files.len()
    &&& forall|i: int|
        0 <= i < files.len() ==> {
            &&& (#[trigger] plan.jobs@[i]).file@ == files[i]@
            &&& plan.jobs@[i].topology == topology
            &&& steps_view(plan.jobs@[i].steps@) == resolved_steps(catalog, ids)
            &&& plan.jobs@[i].config == config
        }
    &&& plan.total_units == unit_count(files.len(), ids.len(), topology)
}

/// Builds the job graph of a batch. Fails with `NoInputFiles` when `files`
/// is empty, else with `NoTransformations` when `ids` is empty, else with
/// `TooManyUnits` when the number of units exceeds the machine's word.
pub fn plan_batch<'a>(
    files: &Vec<String>,
    ids: &Vec<String>,
    topology: Topology,
    catalog: &ActionFactory,
    config: &'a ActionConfig,
) -> (r: Result<BatchPlan<'a>, BatchError>)
    requires
        catalog.wf(),
    ensures
        match r {
            Ok(plan) => {
                &&& files@.len() > 0
                &&& ids@.len() > 0
                &&& is_plan_of(plan, files@, ids@, topology, catalog@, config)
            },
            Err(BatchError::NoInputFiles) => files@.len() == 0,
            Err(BatchError::NoTransformations) => files@.len() > 0 && ids@.len() == 0,
            Err(BatchError::TooManyUnits) => {
                &&& files@.len() > 0
                &&& ids@.len() > 0
                &&& unit_count(files@.len(), ids@.len(), topology) > usize::MAX
            },
        },
{
    if files.len() == 0 {
        return Err(BatchError::NoInputFiles);
    }
    if ids.len() == 0 {
        return Err(BatchError::NoTransformations);
    }
    let total = match total_units(files.len(), ids.len(), topology) {
        Some(n) => n,
        None => {
            return Err(BatchError::TooManyUnits);
        },
    };
    let steps = resolve_all(catalog, ids);
    let mut jobs: Vec<Job> = Vec::new();
    let mut i: usize = 0;
    while i < files.len()
        invariant
            i <= files@.len(),
            jobs@.len() == i,
            steps_view(steps@) == resolved_steps(catalog@, ids@),
            forall|j: int|
                0 <= j < i ==> {
                    &&& (#[trigger] jobs@[j]).file@ == files@[j]@
                    &&& jobs@[j].topology == topology
                    &&& steps_view(jobs@[j].steps@) == resolved_steps(catalog@, ids@)
                    &&& jobs@[j].config == config
                },
        decreases files@.len() - i,
    {
        jobs.push(Job { file: files[i].clone(), steps: copy_steps(&steps), topology, config });
        i = i + 1;
    }
    Ok(BatchPlan { jobs, total_units: total })
}

/// The directory that outputs go to: `output`, or the directory `output`
/// inside `input` where `output` is empty.
pub open spec fn output_directory_of(input: Seq<char>, output: Seq<char>) -> Seq<char> {
    if output.len() == 0 {
        input + "/output"@
    } else {
        output
    }
}

/// The directory that outputs go to; see `output_directory_of`.
pub fn output_directory(input: &str, output: &str) -> (r: String)
    ensures
        r@ == output_directory_of(input@, output@),
{
    if output.unicode_len() == 0 {
        let mut out = String::from_str(input);
        out.append("/output");
        out
    } else {
        String::from_str(output)
    }
}

/// The number of jobs to run at a time: as many as there are workers
/// available, but no more than the limit where one is set, nor than there
/// are jobs, and one at least.
pub open spec fn worker_count_of(jobs: nat, available: nat, limit: Option<usize>) -> nat {
    let bound = match limit {
        Some(l) => if (l as nat) < available {
            l as nat
        } else {
            available
        },
        None => available,
    };
    let wanted = if jobs < bound {
        jobs
    } else {
        bound
    };
    if wanted == 0 {
        1
    } else {
        wanted
    }
}

/// The number of jobs to run at a time; see `worker_count_of`.
pub fn worker_count(jobs: usize, available: usize, limit: Option<usize>) -> (r: usize)
    ensures
        r == worker_count_of(jobs as nat, available as nat, limit),
        r >= 1,
{
    let bound = match limit {
        Some(l) => if l < available {
            l
        } else {
            available
        },
        None => available,
    };
    let wanted = if jobs < bound {
        jobs
    } else {
        bound
    };
    if wanted == 0 {
        1
    } else {
        wanted
    }
}

} // verus!
