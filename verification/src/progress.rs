//! Progress accounting of a batch and the events that a batch sends to its
//! consumer.

use vstd::prelude::*;
use vstd::string::*;
use crate::job::{job_units, unit_count, BatchError, Topology};

verus! {

/// What a batch tells its consumer.
#[derive(Debug, PartialEq, Eq)]
pub enum Event {
    /// A line for the log.
    Log(String),
    /// `completed` of `total` progress units are done.
    Progress { completed: usize, total: usize },
    /// Every job is over.
    Finished,
    /// The batch could not start.
    Error(String),
}

/// The progress of a batch: the units completed so far, of a total that is
/// fixed when the batch starts, and the jobs that are over.
pub struct BatchProgress {
    total_units: usize,
    completed_units: usize,
    jobs: usize,
    jobs_done: usize,
}

/// The progress of a batch, by what it stands for.
pub ghost struct ProgressView {
    pub total_units: nat,
    pub completed_units: nat,
    pub jobs: nat,
    pub jobs_done: nat,
}

impl View for BatchProgress {
    type V = ProgressView;

    closed spec fn view(&self) -> ProgressView {
        ProgressView {
            total_units: self.total_units as nat,
            completed_units: self.completed_units as nat,
            jobs: self.jobs as nat,
            jobs_done: self.jobs_done as nat,
        }
    }
}

impl ProgressView {
    /// Whether no more is counted than the batch holds.
    pub open spec fn wf(self) -> bool {
        self.completed_units <= self.total_units && self.jobs_done <= self.jobs
    }

    /// The progress after `units` more units are done.
    pub open spec fn with_units(self, units: nat) -> ProgressView {
        ProgressView {
            total_units: self.total_units,
            completed_units: self.completed_units + units,
            jobs: self.jobs,
            jobs_done: self.jobs_done,
        }
    }

    /// The progress after one more job is over.
    pub open spec fn with_job(self) -> ProgressView {
        ProgressView {
            total_units: self.total_units,
            completed_units: self.completed_units,
            jobs: self.jobs,
            jobs_done: self.jobs_done + 1,
        }
    }
}

impl BatchProgress {
    /// The progress of a batch of `jobs` jobs and `total_units` units, none
    /// of them done.
    pub fn new(jobs: usize, total_units: usize) -> (r: Self)
        ensures
            r@ == (ProgressView {
                total_units: total_units as nat,
                completed_units: 0,
                jobs: jobs as nat,
                jobs_done: 0,
            }),
            r@.wf(),
    {
        BatchProgress { total_units, completed_units: 0, jobs, jobs_done: 0 }
    }

    /// The units completed so far.
    pub fn completed_units(&self) -> (r: usize)
        ensures
            r == self@.completed_units,
    {
        self.completed_units
    }

    /// The units of the whole batch.
    pub fn total_units(&self) -> (r: usize)
        ensures
            r == self@.total_units,
    {
        self.total_units
    }

    /// Counts `units` more units as done and gives the progress event to
    /// send. Units beyond the batch's total are not counted, and no event is
    /// given for them.
    pub fn record(&mut self, units: usize) -> (r: Option<Event>)
        requires
            old(self)@.wf(),
        ensures
            final(self)@.wf(),
            old(self)@.completed_units + units <= old(self)@.total_units ==> {
                &&& final(self)@ == old(self)@.with_units(units as nat)
                &&& r matches Some(Event::Progress { completed, total })
                &&& completed == final(self)@.completed_units
                &&& total == final(self)@.total_units
            },
            old(self)@.completed_units + units > old(self)@.total_units ==> {
                &&& final(self)@ == old(self)@
                &&& r is None
            },
    {
        if units <= self.total_units - self.completed_units {
            self.completed_units = self.completed_units + units;
            Some(Event::Progress { completed: self.completed_units, total: self.total_units })
        } else {
            None
        }
    }

    /// Counts one more job as over and gives the terminal event when it was
    /// the last one. A job beyond the batch's number is not counted.
    pub fn job_finished(&mut self) -> (r: Option<Event>)
        requires
            old(self)@.wf(),
        ensures
            final(self)@.wf(),
            old(self)@.jobs_done < old(self)@.jobs ==> final(self)@ == old(self)@.with_job(),
            old(self)@.jobs_done >= old(self)@.jobs ==> final(self)@ == old(self)@,
            old(self)@.jobs_done + 1 == old(self)@.jobs ==> r matches Some(Event::Finished),
            old(self)@.jobs_done + 1 != old(self)@.jobs ==> r is None,
    {
        if self.jobs_done < self.jobs {
            self.jobs_done = self.jobs_done + 1;
            if self.jobs_done == self.jobs {
                return Some(Event::Finished);
            }
        }
        None
    }
}

/// The message of the terminal event for a batch that cannot start.
pub open spec fn error_message(e: BatchError) -> Seq<char> {
    match e {
        BatchError::NoInputFiles => "no input files"@,
        BatchError::NoTransformations => "no transformations selected"@,
        BatchError::TooManyUnits => "too many units of work"@,
    }
}

/// The terminal event for a batch that cannot start.
pub fn error_event(e: BatchError) -> (r: Event)
    ensures
        r matches Event::Error(m) && m@ == error_message(e),
{
    match e {
        BatchError::NoInputFiles => Event::Error(String::from_str("no input files")),
        BatchError::NoTransformations => Event::Error(
            String::from_str("no transformations selected"),
        ),
        BatchError::TooManyUnits => Event::Error(String::from_str("too many units of work")),
    }
}

/// The units of `jobs` jobs with `steps` steps each, job by job.
pub open spec fn units_of_jobs(jobs: nat, steps: nat, topology: Topology) -> nat
    decreases jobs,
{
    if jobs == 0 {
        0
    } else {
        units_of_jobs((jobs - 1) as nat, steps, topology) + job_units(steps, topology)
    }
}

/// The units that the jobs of a batch complete, each counted when its job
/// is over, add up to the batch's total, which is fixed before any job
/// starts.
pub proof fn lemma_units_add_up(jobs: nat, steps: nat, topology: Topology)
    ensures
        units_of_jobs(jobs, steps, topology) == unit_count(jobs, steps, topology),
    decreases jobs,
{
    if jobs > 0 {
        lemma_units_add_up((jobs - 1) as nat, steps, topology);
        assert((jobs - 1) * job_units(steps, topology) + job_units(steps, topology) == jobs
            * job_units(steps, topology)) by (nonlinear_arith);
    }
}

} // verus!
