//! Running a plan: which step comes next, what each outcome does to the run,
//! and which launched process a wait refers to. The application performs
//! each step and reports its outcome here; it takes no decision itself.

use vstd::prelude::*;
use crate::backend::services::{Service, Step, launch_steps, restart_steps};

verus! {

/// What performing one step gave. `H` is whatever the application keeps to
/// follow a launched process (for instance a flag that is set when it exits).
pub enum StepOutcome<H> {
    /// The step succeeded.
    Done,
    /// The step launched a process listening on the port, followed by `H`.
    Launched(u16, H),
    /// The step failed with this message.
    Failed(String),
}

/// A plan being run: the steps, how many of them have succeeded, the failure
/// that ended the run if any, and the latest launch of each service.
pub struct PlanRun<H> {
    steps: Vec<Step>,
    done: usize,
    failure: Option<String>,
    mongo: Option<(u16, H)>,
    backend: Option<(u16, H)>,
}

/// The model of a plan run.
pub struct PlanRunView<H> {
    pub plan: Seq<Step>,
    pub done: nat,
    pub failure: Option<Seq<char>>,
    pub mongo: Option<(u16, H)>,
    pub backend: Option<(u16, H)>,
}

impl<H> View for PlanRun<H> {
    type V = PlanRunView<H>;

    closed spec fn view(&self) -> PlanRunView<H> {
        PlanRunView {
            plan: self.steps@,
            done: self.done as nat,
            failure: match self.failure {
                Some(m) => Some(m@),
                None => None,
            },
            mongo: self.mongo,
            backend: self.backend,
        }
    }
}

/// A step is waiting to be performed: nothing has failed and not every step
/// has succeeded.
pub open spec fn pending<H>(r: PlanRunView<H>) -> bool {
    r.failure is None && r.done < r.plan.len()
}

/// The step to perform next, if any: the first step that has not succeeded,
/// as long as nothing has failed.
pub open spec fn next_of<H>(r: PlanRunView<H>) -> Option<Step> {
    if pending(r) {
        Some(r.plan[r.done as int])
    } else {
        None
    }
}

/// The latest launch of a service in the run.
pub open spec fn launch_in<H>(r: PlanRunView<H>, s: Service) -> Option<(u16, H)> {
    match s {
        Service::Mongo => r.mongo,
        Service::Backend => r.backend,
    }
}

/// The run after the pending step succeeded, launching nothing.
pub open spec fn advanced<H>(r: PlanRunView<H>) -> PlanRunView<H> {
    PlanRunView { done: r.done + 1, ..r }
}

/// The run after the pending step succeeded, having launched a process
/// (recorded only when the step launches a service).
pub open spec fn advanced_with<H>(r: PlanRunView<H>, port: u16, h: H) -> PlanRunView<H> {
    match r.plan[r.done as int] {
        Step::Launch(Service::Mongo) => PlanRunView { done: r.done + 1, mongo: Some((port, h)), ..r },
        Step::Launch(Service::Backend) => PlanRunView { done: r.done + 1, backend: Some((port, h)), ..r },
        _ => advanced(r),
    }
}

/// Once a step has failed, no step comes next, and reporting outcomes no
/// longer changes the run (see `PlanRun::record`).
pub proof fn lemma_no_step_after_failure<H>(r: PlanRunView<H>)
    requires
        r.failure is Some,
    ensures
        next_of(r) is None,
        !pending(r),
{
}

/// In a run of the start-up plan, or of a restart that relaunches MongoDB,
/// the backend is launched only once waiting for MongoDB has succeeded; in
/// any restart it is launched only once its old process was stopped.
pub proof fn lemma_backend_launch_after_mongo_ready<H>(r: PlanRunView<H>)
    requires
        r.plan == launch_steps() || r.plan == restart_steps(true) || r.plan == restart_steps(false),
        next_of(r) == Some(Step::Launch(Service::Backend)),
    ensures
        r.plan != restart_steps(false) ==> exists|i: int| 0 <= i < r.done && r.plan[i] == Step::AwaitReady(Service::Mongo),
        r.plan != launch_steps() ==> exists|i: int| 0 <= i < r.done && r.plan[i] == Step::Stop(Service::Backend),
{
    let p = r.plan;
    assert(p[r.done as int] == Step::Launch(Service::Backend));
    if p == launch_steps() {
        assert(forall|i: int| 0 <= i < 8 && i != 5 ==> p[i] != Step::Launch(Service::Backend));
        assert(r.done == 5);
        assert(p[3] == Step::AwaitReady(Service::Mongo));
    } else if p == restart_steps(true) {
        assert(p =~= seq![
            Step::Announce(crate::backend::services::Notice::RestartingServices),
            Step::ServicesDown,
            Step::Stop(Service::Backend),
            Step::Stop(Service::Mongo),
            Step::AwaitPortFree(Service::Mongo),
            Step::AwaitPortFree(Service::Backend),
            Step::CreateMongoDirs,
            Step::Announce(crate::backend::services::Notice::StartingMongo),
            Step::Launch(Service::Mongo),
            Step::AwaitReady(Service::Mongo),
            Step::MarkUp(Service::Mongo),
            Step::Launch(Service::Backend),
            Step::AwaitReady(Service::Backend),
            Step::MarkUp(Service::Backend),
        ]);
        assert(forall|i: int| 0 <= i < 14 && i != 11 ==> p[i] != Step::Launch(Service::Backend));
        assert(r.done == 11);
        assert(p[9] == Step::AwaitReady(Service::Mongo));
        assert(p[2] == Step::Stop(Service::Backend));
    } else {
        assert(forall|i: int| 0 <= i < 7 && i != 4 ==> p[i] != Step::Launch(Service::Backend));
        assert(r.done == 4);
        assert(p[2] == Step::Stop(Service::Backend));
    }
}

/// The run after `n` more steps have succeeded, launching nothing.
pub open spec fn after_successes<H>(r: PlanRunView<H>, n: nat) -> PlanRunView<H>
    decreases n,
{
    if n == 0 {
        r
    } else {
        advanced(after_successes(r, (n - 1) as nat))
    }
}

/// Recording a success consumes exactly the pending step: the run moves on
/// by one step, keeps its plan and its launches (unless the step launched
/// its service), and nothing fails.
pub proof fn lemma_success_consumes_one_step<H>(r: PlanRunView<H>, port: u16, h: H)
    requires
        r.failure is None,
        r.done < r.plan.len(),
    ensures
        advanced(r).done == r.done + 1,
        advanced(r).plan == r.plan,
        advanced(r).failure is None,
        advanced(r).mongo == r.mongo,
        advanced(r).backend == r.backend,
        advanced_with(r, port, h).done == r.done + 1,
        advanced_with(r, port, h).plan == r.plan,
        advanced_with(r, port, h).failure is None,
        r.plan[r.done as int] == Step::Launch(Service::Mongo) ==> advanced_with(r, port, h).mongo == Some((port, h)),
        r.plan[r.done as int] == Step::Launch(Service::Backend) ==> advanced_with(r, port, h).backend == Some((port, h)),
        r.plan[r.done as int] != Step::Launch(Service::Mongo) ==> advanced_with(r, port, h).mongo == r.mongo,
        r.plan[r.done as int] != Step::Launch(Service::Backend) ==> advanced_with(r, port, h).backend == r.backend,
{
}

/// While steps succeed, the run hands out the plan's steps one by one, in
/// order, skipping none: after `n` successes the next step is the plan's
/// step `done + n`, and once every step has succeeded there is none.
pub proof fn lemma_steps_handed_out_in_order<H>(r: PlanRunView<H>, n: nat)
    requires
        r.failure is None,
        r.done + n <= r.plan.len(),
    ensures
        after_successes(r, n).done == r.done + n,
        after_successes(r, n).plan == r.plan,
        after_successes(r, n).failure is None,
        r.done + n < r.plan.len() ==> next_of(after_successes(r, n)) == Some(r.plan[(r.done + n) as int]),
        r.done + n == r.plan.len() ==> next_of(after_successes(r, n)) is None,
    decreases n,
{
    if n > 0 {
        lemma_steps_handed_out_in_order(r, (n - 1) as nat);
    }
}

impl<H> PlanRun<H> {
    /// Starts running `steps`: nothing done, nothing failed, nothing launched.
    pub fn new(steps: Vec<Step>) -> (r: Self)
        ensures
            r@ == (PlanRunView::<H> {
                plan: steps@,
                done: 0,
                failure: None,
                mongo: None,
                backend: None,
            }),
    {
        PlanRun { steps, done: 0, failure: None, mongo: None, backend: None }
    }

    /// The step to perform next; see `next_of`.
    pub fn next_step(&self) -> (s: Option<Step>)
        ensures
            s == next_of(self@),
            self@.failure is None && self@.done < self@.plan.len() ==> s == Some(self@.plan[self@.done as int]),
            !(self@.failure is None && self@.done < self@.plan.len()) ==> s is None,
    {
        if self.failure.is_none() && self.done < self.steps.len() {
            Some(self.steps[self.done])
        } else {
            None
        }
    }

    /// Records the outcome of the pending step. With no pending step (the
    /// run failed or finished) the run does not change.
    pub fn record(&mut self, outcome: StepOutcome<H>)
        ensures
            !pending(old(self)@) ==> final(self)@ == old(self)@,
            pending(old(self)@) ==> final(self)@ == (match outcome {
                StepOutcome::Done => advanced(old(self)@),
                StepOutcome::Launched(port, h) => advanced_with(old(self)@, port, h),
                StepOutcome::Failed(m) => PlanRunView { failure: Some(m@), ..old(self)@ },
            }),
            final(self)@.plan == old(self)@.plan,
            old(self)@.failure is None && old(self)@.done < old(self)@.plan.len() && !(outcome is Failed)
                ==> final(self)@.done == old(self)@.done + 1 && final(self)@.failure is None,
            old(self)@.failure is None && old(self)@.done < old(self)@.plan.len() && outcome is Failed
                ==> final(self)@.done == old(self)@.done && final(self)@.failure is Some,
            !(old(self)@.failure is None && old(self)@.done < old(self)@.plan.len()) ==> final(self)@ == old(self)@,
    {
        if !(self.failure.is_none() && self.done < self.steps.len()) {
            return;
        }
        match outcome {
            StepOutcome::Done => {
                self.done = self.done + 1;
            },
            StepOutcome::Launched(port, h) => {
                match self.steps[self.done] {
                    Step::Launch(Service::Mongo) => {
                        self.mongo = Some((port, h));
                    },
                    Step::Launch(Service::Backend) => {
                        self.backend = Some((port, h));
                    },
                    _ => {},
                }
                self.done = self.done + 1;
            },
            StepOutcome::Failed(m) => {
                self.failure = Some(m);
            },
        }
    }

    /// The latest launch of `service` in this run: its port and what follows it.
    pub fn launch_of(&self, service: Service) -> (l: Option<(u16, &H)>)
        ensures
            l is Some <==> launch_in(self@, service) is Some,
            l matches Some((port, h)) ==> launch_in(self@, service) == Some((port, *h)),
    {
        let slot = match service {
            Service::Mongo => &self.mongo,
            Service::Backend => &self.backend,
        };
        match slot {
            Some((port, h)) => Some((*port, h)),
            None => None,
        }
    }

    /// How the run ended: `None` while a step is pending, the failure's
    /// message if a step failed, `Ok` once every step succeeded.
    pub fn result(&self) -> (r: Option<Result<(), String>>)
        ensures
            self@.failure matches Some(m) ==> (r matches Some(Err(e)) && e@ == m),
            self@.failure is None && self@.done >= self@.plan.len() ==> r == Some(Ok::<(), String>(())),
            pending(self@) ==> r is None,
    {
        match &self.failure {
            Some(m) => Some(Err(m.clone())),
            None => {
                if self.done < self.steps.len() {
                    None
                } else {
                    Some(Ok(()))
                }
            },
        }
    }
}

} // verus!
