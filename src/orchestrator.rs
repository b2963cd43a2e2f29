//! The orchestrator: a best-effort run over the services of an action.
//!
//! A run holds one job per service and walks their steps in order. The caller
//! performs the step that `next_step` gives and hands its outcome to `record`.
//! A step that cannot be performed ends its own job with a failure, and the run
//! goes on with the next service; a command that runs but exits with failure is
//! counted and does not stop the job. No outcome stops the run as a whole.
use vstd::prelude::*;
use crate::drivers::{
    is_setup_steps, is_teardown_steps, kind_of, lemma_setup_kinds, setup_kinds, setup_steps,
    teardown_kinds, teardown_steps, Credentials, Job, Step, StepKind,
};
use crate::config::Config;
use crate::target::{services, spec_services, Action, PerformOn, Service, OS};

verus! {

/// What came of performing one step.
#[derive(PartialEq, Eq, Structural, Clone, Copy, Debug)]
pub enum Outcome {
    /// The step was performed, and a command exited with success.
    Succeeded,
    /// A command was run and exited with failure.
    ExitedWithFailure,
    /// The step could not be performed: the shell did not launch, the
    /// connection was refused, or the statement failed.
    Failed,
}

/// Why a service's job ended early.
#[derive(PartialEq, Eq, Structural, Clone, Copy, Debug)]
pub enum StepFailure {
    /// A command could not be launched.
    Launch,
    /// The connection to the database could not be opened.
    Connect,
    /// A statement of the schema failed.
    Schema,
}

/// How one service fared in a run.
#[derive(PartialEq, Eq, Structural, Clone, Copy, Debug)]
pub struct ServiceReport {
    pub service: Service,
    /// The commands of the service that ran and exited with failure.
    pub failed_commands: usize,
    /// The step failure that ended the service's job early, if any.
    pub failure: Option<StepFailure>,
}

/// The state of a run as the decisions see it.
pub struct RunView {
    /// The services, one job each, in order.
    pub services: Seq<Service>,
    /// The kinds of the steps of each job.
    pub kinds: Seq<Seq<StepKind>>,
    /// The job under way; equal to the number of jobs once the run is done.
    pub job: int,
    /// The next step of that job.
    pub step: int,
    /// The failed commands of that job so far.
    pub failed: int,
    /// One report per finished job.
    pub reports: Seq<ServiceReport>,
}

impl RunView {
    pub open spec fn wf(self) -> bool {
        &&& self.services.len() == self.kinds.len()
        &&& forall|i: int|
            0 <= i < self.kinds.len() ==> 0 < #[trigger] self.kinds[i].len() <= usize::MAX
        &&& 0 <= self.job <= self.kinds.len()
        &&& self.job < self.kinds.len() ==> 0 <= self.step < self.kinds[self.job].len()
        &&& self.job == self.kinds.len() ==> self.step == 0
        &&& 0 <= self.failed <= self.step
        &&& self.reports.len() == self.job
        &&& forall|i: int| 0 <= i < self.job ==> #[trigger] self.reports[i].service == self.services[i]
    }

    pub open spec fn done(self) -> bool {
        self.job >= self.kinds.len()
    }

    /// Ends the current job with the given report values and moves to the next.
    pub open spec fn finish(self, failed: int, failure: Option<StepFailure>) -> RunView {
        RunView {
            job: self.job + 1,
            step: 0,
            failed: 0,
            reports: self.reports.push(
                ServiceReport {
                    service: self.services[self.job],
                    failed_commands: failed as usize,
                    failure,
                },
            ),
            ..self
        }
    }
}

/// The failure that a step of this kind ends its job with.
pub open spec fn failure_of(k: StepKind) -> StepFailure {
    match k {
        StepKind::Command => StepFailure::Launch,
        StepKind::Connect => StepFailure::Connect,
        StepKind::Execute => StepFailure::Schema,
    }
}

/// The state after the current step had outcome `o`.
pub open spec fn next_view(v: RunView, o: Outcome) -> RunView {
    let k = v.kinds[v.job][v.step];
    if o == Outcome::Failed || (o == Outcome::ExitedWithFailure && k != StepKind::Command) {
        v.finish(v.failed, Some(failure_of(k)))
    } else {
        let failed = if o == Outcome::ExitedWithFailure { v.failed + 1 } else { v.failed };
        if v.step + 1 == v.kinds[v.job].len() {
            v.finish(failed, None)
        } else {
            RunView { step: v.step + 1, failed, ..v }
        }
    }
}

/// The state after the outcomes, in order, until the run is done.
pub open spec fn drive(v: RunView, outs: Seq<Outcome>) -> RunView
    decreases outs.len(),
{
    if outs.len() == 0 || v.done() {
        v
    } else {
        drive(next_view(v, outs[0]), outs.drop_first())
    }
}

/// The number of steps of the jobs from `i` on.
pub open spec fn steps_from(kinds: Seq<Seq<StepKind>>, i: int) -> nat
    decreases kinds.len() - i,
{
    if i < 0 || i >= kinds.len() {
        0
    } else {
        kinds[i].len() + steps_from(kinds, i + 1)
    }
}

/// The number of steps left to perform.
pub open spec fn remaining(v: RunView) -> int {
    steps_from(v.kinds, v.job) - v.step
}

/// The target of an action.
pub open spec fn target_of(a: Action) -> PerformOn {
    match a {
        Action::Setup(t) => t,
        Action::Teardown(t) => t,
    }
}

/// The kinds of the steps that an action takes for a service.
pub open spec fn action_kinds(a: Action, s: Service) -> Seq<StepKind> {
    match a {
        Action::Setup(_) => setup_kinds(s),
        Action::Teardown(_) => teardown_kinds(s),
    }
}

/// The state of a fresh run of an action.
pub open spec fn initial_view(a: Action) -> RunView {
    RunView {
        services: spec_services(target_of(a)),
        kinds: spec_services(target_of(a)).map_values(|s: Service| action_kinds(a, s)),
        job: 0,
        step: 0,
        failed: 0,
        reports: seq![],
    }
}

/// Whether `steps` are exactly what the action does for service `s`.
pub open spec fn is_action_steps(a: Action, c: Credentials, s: Service, steps: Seq<Step>) -> bool {
    match a {
        Action::Setup(_) => is_setup_steps(s, c, steps),
        Action::Teardown(_) => is_teardown_steps(s, steps),
    }
}

/// One step keeps the state well formed and takes at least one step off what remains.
pub proof fn lemma_next_view(v: RunView, o: Outcome)
    requires
        v.wf(),
        !v.done(),
    ensures
        next_view(v, o).wf(),
        remaining(next_view(v, o)) < remaining(v),
        next_view(v, o).services == v.services,
        next_view(v, o).kinds == v.kinds,
        v.reports.is_prefix_of(next_view(v, o).reports),
{
    let n = next_view(v, o);
    assert(steps_from(v.kinds, v.job) == v.kinds[v.job].len() + steps_from(v.kinds, v.job + 1));
    assert(v.reports.is_prefix_of(n.reports)) by {
        assert forall|i: int| 0 <= i < v.reports.len() implies n.reports[i] == v.reports[i] by {
            if n.job == v.job + 1 {
                assert(n.reports == v.reports.push(n.reports.last()));
            }
        }
    }
    if n.job == v.job + 1 {
        assert forall|i: int| 0 <= i < n.job implies #[trigger] n.reports[i].service == n.services[i] by {
            if i < v.job {
                assert(n.reports[i] == v.reports[i]);
            }
        }
    }
}

/// However the steps turn out, a run given at least as many outcomes as it has
/// steps left is done, and its reports name its services in order, one each.
pub proof fn lemma_drive(v: RunView, outs: Seq<Outcome>)
    requires
        v.wf(),
        outs.len() >= remaining(v),
    ensures
        drive(v, outs).wf(),
        drive(v, outs).done(),
        drive(v, outs).services == v.services,
        drive(v, outs).kinds == v.kinds,
        drive(v, outs).reports.map_values(|r: ServiceReport| r.service) == v.services,
    decreases outs.len(),
{
    if v.done() {
        assert(v.reports.map_values(|r: ServiceReport| r.service) =~= v.services);
    } else {
        assert(steps_from(v.kinds, v.job) == v.kinds[v.job].len() + steps_from(v.kinds, v.job + 1));
        lemma_next_view(v, outs[0]);
        lemma_drive(next_view(v, outs[0]), outs.drop_first());
    }
}

/// A fresh run of any action is well formed.
pub proof fn lemma_initial_view_wf(a: Action)
    ensures
        initial_view(a).wf(),
{
    let v = initial_view(a);
    assert forall|i: int| 0 <= i < v.kinds.len() implies 0 < #[trigger] v.kinds[i].len() <= usize::MAX by {
        match a {
            Action::Setup(_) => {
                let s = v.services[i];
                match s {
                    Service::Postgres => assert(setup_kinds(s)[0] == StepKind::Command),
                    _ => {},
                }
            },
            Action::Teardown(_) => {},
        }
    }
}

/// Setting up `All` runs the setup of each of the three services exactly once,
/// whatever the outcome of each step: the run ends with one report for MongoDB,
/// one for Neo4j and one for Postgres.
pub proof fn lemma_setup_all_fans_out(outs: Seq<Outcome>)
    requires
        outs.len() >= remaining(initial_view(Action::Setup(PerformOn::All))),
    ensures
        drive(initial_view(Action::Setup(PerformOn::All)), outs).done(),
        drive(initial_view(Action::Setup(PerformOn::All)), outs).reports.map_values(
            |r: ServiceReport| r.service,
        ) == seq![Service::MongoDB, Service::Neo4j, Service::Postgres],
{
    lemma_initial_view_wf(Action::Setup(PerformOn::All));
    lemma_drive(initial_view(Action::Setup(PerformOn::All)), outs);
}

/// The steps handed out, as (job, step) pairs, while the outcomes are fed in
/// order; the outcome at index `k` answers the step at index `k`.
pub open spec fn trace(v: RunView, outs: Seq<Outcome>) -> Seq<(int, int)>
    decreases outs.len(),
{
    if outs.len() == 0 || v.done() {
        seq![]
    } else {
        seq![(v.job, v.step)] + trace(next_view(v, outs[0]), outs.drop_first())
    }
}

/// Whether step `a` comes before step `b` in a run.
pub open spec fn before(a: (int, int), b: (int, int)) -> bool {
    a.0 < b.0 || (a.0 == b.0 && a.1 < b.1)
}

/// The steps handed out never repeat and only move forward; a step that fails
/// is followed by the first step of the next job; and, given enough outcomes,
/// the first step of every job not yet begun is handed out.
pub proof fn lemma_trace(v: RunView, outs: Seq<Outcome>)
    requires
        v.wf(),
    ensures
        trace(v, outs).len() <= outs.len(),
        forall|k: int|
            0 <= k < trace(v, outs).len() ==> !before(#[trigger] trace(v, outs)[k], (v.job, v.step))
                && trace(v, outs)[k].0 < v.kinds.len(),
        forall|a: int, b: int|
            0 <= a < b < trace(v, outs).len() ==> before(
                #[trigger] trace(v, outs)[a],
                #[trigger] trace(v, outs)[b],
            ),
        forall|k: int|
            0 <= k < trace(v, outs).len() - 1 && outs[k] == Outcome::Failed ==> trace(v, outs)[k + 1]
                == (#[trigger] trace(v, outs)[k].0 + 1, 0int),
        outs.len() >= remaining(v) ==> forall|i: int|
            (v.job < i < v.kinds.len() || (i == v.job && v.step == 0 && i < v.kinds.len()))
                ==> #[trigger] trace(v, outs).contains((i, 0int)),
    decreases outs.len(),
{
    let t = trace(v, outs);
    if outs.len() == 0 || v.done() {
        if outs.len() >= remaining(v) && !v.done() {
            assert(steps_from(v.kinds, v.job) == v.kinds[v.job].len() + steps_from(v.kinds, v.job + 1));
        }
    } else {
        let n = next_view(v, outs[0]);
        let rest = outs.drop_first();
        lemma_next_view(v, outs[0]);
        lemma_trace(n, rest);
        let t2 = trace(n, rest);
        assert(t == seq![(v.job, v.step)] + t2);
        assert(before((v.job, v.step), (n.job, n.step)));
        assert forall|k: int| 0 <= k < t.len() implies !before(#[trigger] t[k], (v.job, v.step))
            && t[k].0 < v.kinds.len() by {
            if k > 0 {
                assert(t[k] == t2[k - 1]);
            }
        }
        assert forall|a: int, b: int| 0 <= a < b < t.len() implies before(#[trigger] t[a], #[trigger] t[b]) by {
            assert(t[b] == t2[b - 1]);
            if a > 0 {
                assert(t[a] == t2[a - 1]);
            }
        }
        assert forall|k: int| 0 <= k < t.len() - 1 && outs[k] == Outcome::Failed implies t[k + 1]
            == (#[trigger] t[k].0 + 1, 0int) by {
            assert(t[k + 1] == t2[k]);
            if k > 0 {
                assert(t[k] == t2[k - 1]);
                assert(rest[k - 1] == outs[k]);
            } else {
                assert(t2[0] == (n.job, n.step));
            }
        }
        if outs.len() >= remaining(v) {
            assert forall|i: int|
                (v.job < i < v.kinds.len() || (i == v.job && v.step == 0 && i < v.kinds.len()))
                    implies #[trigger] t.contains((i, 0int)) by {
                if i == v.job && v.step == 0 {
                    assert(t[0] == (i, 0int));
                } else {
                    assert(t2.contains((i, 0int)));
                    let k = choose|k: int| 0 <= k < t2.len() && t2[k] == (i, 0int);
                    assert(t[k + 1] == (i, 0int));
                }
            }
        }
    }
}

/// Setting up `All` begins the setup of MongoDB, Neo4j and Postgres once each,
/// whatever the outcome of each step: the first step of each of the three jobs
/// is handed out, no step is handed out twice, and a step that fails is
/// followed by the first step of the next service.
pub proof fn lemma_setup_all_begins_each_service_once(outs: Seq<Outcome>)
    requires
        outs.len() >= remaining(initial_view(Action::Setup(PerformOn::All))),
    ensures
        initial_view(Action::Setup(PerformOn::All)).services == seq![
            Service::MongoDB,
            Service::Neo4j,
            Service::Postgres,
        ],
        forall|i: int|
            0 <= i < 3 ==> #[trigger] trace(initial_view(Action::Setup(PerformOn::All)), outs).contains(
                (i, 0int),
            ),
        forall|a: int, b: int|
            0 <= a < b < trace(initial_view(Action::Setup(PerformOn::All)), outs).len() ==> #[trigger] trace(
                initial_view(Action::Setup(PerformOn::All)),
                outs,
            )[a] != #[trigger] trace(initial_view(Action::Setup(PerformOn::All)), outs)[b],
        forall|k: int|
            0 <= k < trace(initial_view(Action::Setup(PerformOn::All)), outs).len() - 1 && outs[k]
                == Outcome::Failed ==> trace(initial_view(Action::Setup(PerformOn::All)), outs)[k + 1]
                == (#[trigger] trace(initial_view(Action::Setup(PerformOn::All)), outs)[k].0 + 1, 0int),
{
    let v = initial_view(Action::Setup(PerformOn::All));
    lemma_initial_view_wf(Action::Setup(PerformOn::All));
    lemma_trace(v, outs);
    let t = trace(v, outs);
    assert forall|a: int, b: int| 0 <= a < b < t.len() implies #[trigger] t[a] != #[trigger] t[b] by {
        assert(before(t[a], t[b]));
    }
}

/// Whether every step of every job is a shell command.
pub open spec fn only_commands(v: RunView) -> bool {
    forall|i: int, j: int|
        0 <= i < v.kinds.len() && 0 <= j < v.kinds[i].len() ==> #[trigger] v.kinds[i][j]
            == StepKind::Command
}

/// Whether every report is of a job that ran through, or that a launch failure ended.
pub open spec fn contained(v: RunView) -> bool {
    forall|i: int|
        0 <= i < v.reports.len() ==> (#[trigger] v.reports[i]).failure is None
            || v.reports[i].failure == Some(StepFailure::Launch)
}

/// Whether every finished job ran all its commands, each exiting with failure.
pub open spec fn all_commands_failed(v: RunView) -> bool {
    &&& v.failed == v.step
    &&& forall|i: int|
        0 <= i < v.reports.len() ==> (#[trigger] v.reports[i]).failure is None
            && v.reports[i].failed_commands == v.kinds[i].len()
}

proof fn lemma_drive_contained(v: RunView, outs: Seq<Outcome>)
    requires
        v.wf(),
        only_commands(v),
        contained(v),
    ensures
        contained(drive(v, outs)),
    decreases outs.len(),
{
    if outs.len() > 0 && !v.done() {
        let n = next_view(v, outs[0]);
        lemma_next_view(v, outs[0]);
        assert(v.kinds[v.job][v.step] == StepKind::Command);
        assert forall|i: int| 0 <= i < n.reports.len() implies (#[trigger] n.reports[i]).failure is None
            || n.reports[i].failure == Some(StepFailure::Launch) by {
            if i < v.reports.len() {
                assert(n.reports[i] == v.reports[i]);
            }
        }
        lemma_drive_contained(n, outs.drop_first());
    }
}

proof fn lemma_drive_exit_failures(v: RunView, outs: Seq<Outcome>)
    requires
        v.wf(),
        only_commands(v),
        all_commands_failed(v),
        forall|i: int| 0 <= i < outs.len() ==> outs[i] == Outcome::ExitedWithFailure,
    ensures
        all_commands_failed(drive(v, outs)),
    decreases outs.len(),
{
    if outs.len() > 0 && !v.done() {
        let n = next_view(v, outs[0]);
        lemma_next_view(v, outs[0]);
        assert(v.kinds[v.job][v.step] == StepKind::Command);
        if n.job == v.job + 1 {
            assert(n.reports[v.job].failed_commands == (v.failed + 1) as usize);
        }
        assert forall|i: int| 0 <= i < n.reports.len() implies (#[trigger] n.reports[i]).failure is None
            && n.reports[i].failed_commands == n.kinds[i].len() by {
            if i < v.reports.len() {
                assert(n.reports[i] == v.reports[i]);
            }
        }
        lemma_drive_exit_failures(n, outs.drop_first());
    }
}

/// Tearing down any target never fails the run: whatever each command does,
/// the run ends with one report per service of the target, each service's
/// teardown begins exactly once, a command that cannot be launched is followed
/// by the first command of the next service, and a failure only marks the
/// report of the service it happened in. Where every command runs
/// and exits with failure, as with containers that were never set up, each
/// service reports its two failed commands and no step failure.
pub proof fn lemma_teardown_contained(t: PerformOn, outs: Seq<Outcome>)
    requires
        outs.len() >= remaining(initial_view(Action::Teardown(t))),
    ensures
        drive(initial_view(Action::Teardown(t)), outs).done(),
        drive(initial_view(Action::Teardown(t)), outs).reports.map_values(
            |r: ServiceReport| r.service,
        ) == spec_services(t),
        contained(drive(initial_view(Action::Teardown(t)), outs)),
        forall|i: int|
            0 <= i < spec_services(t).len() ==> #[trigger] trace(initial_view(Action::Teardown(t)), outs).contains(
                (i, 0int),
            ),
        forall|a: int, b: int|
            0 <= a < b < trace(initial_view(Action::Teardown(t)), outs).len() ==> #[trigger] trace(
                initial_view(Action::Teardown(t)),
                outs,
            )[a] != #[trigger] trace(initial_view(Action::Teardown(t)), outs)[b],
        forall|k: int|
            0 <= k < trace(initial_view(Action::Teardown(t)), outs).len() - 1 && outs[k]
                == Outcome::Failed ==> trace(initial_view(Action::Teardown(t)), outs)[k + 1]
                == (#[trigger] trace(initial_view(Action::Teardown(t)), outs)[k].0 + 1, 0int),
        (forall|i: int| 0 <= i < outs.len() ==> outs[i] == Outcome::ExitedWithFailure) ==> (
        forall|i: int|
            0 <= i < spec_services(t).len() ==> #[trigger] drive(
                initial_view(Action::Teardown(t)),
                outs,
            ).reports[i] == (ServiceReport {
                service: spec_services(t)[i],
                failed_commands: 2,
                failure: None,
            })),
{
    let v = initial_view(Action::Teardown(t));
    lemma_initial_view_wf(Action::Teardown(t));
    lemma_drive(v, outs);
    assert(only_commands(v)) by {
        assert forall|i: int, j: int|
            0 <= i < v.kinds.len() && 0 <= j < v.kinds[i].len() implies #[trigger] v.kinds[i][j]
                == StepKind::Command by {
            assert(v.kinds[i] == teardown_kinds(v.services[i]));
        }
    }
    lemma_drive_contained(v, outs);
    lemma_trace(v, outs);
    let tr = trace(v, outs);
    assert forall|a: int, b: int| 0 <= a < b < tr.len() implies #[trigger] tr[a] != #[trigger] tr[b] by {
        assert(before(tr[a], tr[b]));
    }
    if forall|i: int| 0 <= i < outs.len() ==> outs[i] == Outcome::ExitedWithFailure {
        lemma_drive_exit_failures(v, outs);
        let e = drive(v, outs);
        assert forall|i: int| 0 <= i < spec_services(t).len() implies #[trigger] e.reports[i] == (
        ServiceReport { service: spec_services(t)[i], failed_commands: 2, failure: None }) by {
            assert(e.reports.map_values(|r: ServiceReport| r.service)[i] == e.reports[i].service);
            assert(e.kinds[i] == teardown_kinds(v.services[i]));
        }
    }
}

/// A run of one action over the services of its target.
pub struct Run {
    os: OS,
    jobs: Vec<Job>,
    job: usize,
    step: usize,
    failed: usize,
    reports: Vec<ServiceReport>,
}

impl View for Run {
    type V = RunView;

    closed spec fn view(&self) -> RunView {
        RunView {
            services: self.jobs@.map_values(|j: Job| j.service),
            kinds: self.jobs@.map_values(|j: Job| j.steps@.map_values(|s: Step| kind_of(s))),
            job: self.job as int,
            step: self.step as int,
            failed: self.failed as int,
            reports: self.reports@,
        }
    }
}

impl Run {
    /// The steps of each job, in order.
    pub closed spec fn plan(&self) -> Seq<Seq<Step>> {
        self.jobs@.map_values(|j: Job| j.steps@)
    }

    /// The platform whose shell runs the commands of this run.
    pub closed spec fn spec_os(&self) -> OS {
        self.os
    }

    pub closed spec fn wf(&self) -> bool {
        self@.wf()
    }

    /// The platform chosen for the whole run.
    pub fn os(&self) -> (r: OS)
        ensures
            r == self.spec_os(),
    {
        self.os
    }

    /// Whether every job has finished.
    pub fn is_done(&self) -> (r: bool)
        requires
            self.wf(),
        ensures
            r == self@.done(),
    {
        self.job >= self.jobs.len()
    }

    /// The reports of the finished jobs.
    pub fn reports(&self) -> (r: &Vec<ServiceReport>)
        ensures
            r@ == self@.reports,
    {
        &self.reports
    }

    /// The step to perform next, or `None` once the run is done.
    pub fn next_step(&self) -> (r: Option<&Step>)
        requires
            self.wf(),
        ensures
            r is None <==> self@.done(),
            r matches Some(s) ==> *s == self.plan()[self@.job][self@.step],
            r matches Some(s) ==> kind_of(*s) == self@.kinds[self@.job][self@.step],
    {
        if self.job >= self.jobs.len() {
            None
        } else {
            let ghost g = self@;
            assert(g.kinds[g.job] == self.jobs@[g.job].steps@.map_values(|s: Step| kind_of(s)));
            Some(&self.jobs[self.job].steps[self.step])
        }
    }

    /// Takes the outcome of the step that `next_step` gave and moves on.
    pub fn record(&mut self, o: Outcome)
        requires
            old(self).wf(),
            !old(self)@.done(),
        ensures
            final(self).wf(),
            final(self)@ == next_view(old(self)@, o),
            final(self).plan() == old(self).plan(),
            final(self).spec_os() == old(self).spec_os(),
    {
        let ghost v = self@;
        proof {
            lemma_next_view(v, o);
        }
        let n = self.jobs[self.job].steps.len();
        let k = match &self.jobs[self.job].steps[self.step] {
            Step::Command(_) => StepKind::Command,
            Step::Connect(_) => StepKind::Connect,
            Step::Execute(_) => StepKind::Execute,
        };
        assert(v.kinds[v.job] == self.jobs@[v.job].steps@.map_values(|s: Step| kind_of(s)));
        assert(k == v.kinds[v.job][v.step]);
        let fails = match o {
            Outcome::Failed => true,
            Outcome::ExitedWithFailure => !matches!(k, StepKind::Command),
            Outcome::Succeeded => false,
        };
        if fails {
            let failure = match k {
                StepKind::Command => StepFailure::Launch,
                StepKind::Connect => StepFailure::Connect,
                StepKind::Execute => StepFailure::Schema,
            };
            self.finish_job(Some(failure));
        } else {
            if matches!(o, Outcome::ExitedWithFailure) {
                self.failed = self.failed + 1;
            }
            if self.step + 1 == n {
                self.finish_job(None);
            } else {
                self.step = self.step + 1;
            }
        }
        assert(self@ =~= next_view(v, o));
        assert(self.plan() =~= old(self).plan());
    }

    fn finish_job(&mut self, failure: Option<StepFailure>)
        requires
            old(self).job < old(self).jobs.len(),
            old(self).failed <= old(self).step + 1,
            old(self).step < old(self).jobs@[old(self).job as int].steps@.len(),
        ensures
            final(self)@ == old(self)@.finish(old(self).failed as int, failure),
            final(self).jobs == old(self).jobs,
            final(self).os == old(self).os,
    {
        let report = ServiceReport {
            service: self.jobs[self.job].service,
            failed_commands: self.failed,
            failure,
        };
        self.reports.push(report);
        self.job = self.job + 1;
        self.step = 0;
        self.failed = 0;
        assert(self@ =~= old(self)@.finish(old(self).failed as int, failure));
    }
}

/// Builds the run of an action on a platform.
fn plan_run(a: Action, os: OS, c: &Credentials) -> (r: Run)
    ensures
        r.wf(),
        r@ == initial_view(a),
        r.spec_os() == os,
        r.plan().len() == spec_services(target_of(a)).len(),
        forall|i: int|
            0 <= i < r.plan().len() ==> is_action_steps(
                a,
                *c,
                spec_services(target_of(a))[i],
                #[trigger] r.plan()[i],
            ),
{
    let t = match a {
        Action::Setup(t) => t,
        Action::Teardown(t) => t,
    };
    let svc = services(t);
    let mut jobs: Vec<Job> = Vec::new();
    let mut i: usize = 0;
    while i < svc.len()
        invariant
            svc@ == spec_services(target_of(a)),
            i <= svc.len(),
            jobs@.len() == i,
            forall|j: int|
                0 <= j < i ==> (#[trigger] jobs@[j]).service == svc@[j] && is_action_steps(
                    a,
                    *c,
                    svc@[j],
                    jobs@[j].steps@,
                ),
        decreases svc.len() - i,
    {
        let s = svc[i];
        let steps = match a {
            Action::Setup(_) => setup_steps(s, c),
            Action::Teardown(_) => teardown_steps(s),
        };
        jobs.push(Job { service: s, steps });
        i = i + 1;
    }
    let r = Run { os, jobs, job: 0, step: 0, failed: 0, reports: Vec::new() };
    proof {
        let v = initial_view(a);
        assert(r@.services =~= v.services);
        assert forall|j: int| 0 <= j < v.kinds.len() implies r@.kinds[j] == v.kinds[j] by {
            let st = r.jobs@[j].steps@;
            match a {
                Action::Setup(_) => lemma_setup_kinds(svc@[j], *c, st),
                Action::Teardown(_) => {
                    assert(st.map_values(|s: Step| kind_of(s)) =~= teardown_kinds(svc@[j]));
                },
            }
        }
        assert(r@.kinds =~= v.kinds);
        assert(r@.reports =~= v.reports);
        lemma_initial_view_wf(a);
    }
    r
}

/// The run that sets up the services of a target.
pub fn setup(perform_on: PerformOn, os: OS, credentials: &Credentials) -> (r: Run)
    ensures
        r.wf(),
        r@ == initial_view(Action::Setup(perform_on)),
        r.spec_os() == os,
        r.plan().len() == spec_services(perform_on).len(),
        forall|i: int|
            0 <= i < r.plan().len() ==> is_setup_steps(
                spec_services(perform_on)[i],
                *credentials,
                #[trigger] r.plan()[i],
            ),
{
    let r = plan_run(Action::Setup(perform_on), os, credentials);
    assert forall|i: int| 0 <= i < r.plan().len() implies is_setup_steps(
        spec_services(perform_on)[i],
        *credentials,
        #[trigger] r.plan()[i],
    ) by {
        assert(is_action_steps(Action::Setup(perform_on), *credentials, spec_services(perform_on)[i], r.plan()[i]));
    }
    r
}

/// The run that tears down the services of a target.
pub fn teardown(perform_on: PerformOn, os: OS) -> (r: Run)
    ensures
        r.wf(),
        r@ == initial_view(Action::Teardown(perform_on)),
        r.spec_os() == os,
        r.plan().len() == spec_services(perform_on).len(),
        forall|i: int|
            0 <= i < r.plan().len() ==> is_teardown_steps(
                spec_services(perform_on)[i],
                #[trigger] r.plan()[i],
            ),
{
    let c = Credentials { postgres_password: String::new(), neo4j_password: String::new() };
    let r = plan_run(Action::Teardown(perform_on), os, &c);
    assert forall|i: int| 0 <= i < r.plan().len() implies is_teardown_steps(
        spec_services(perform_on)[i],
        #[trigger] r.plan()[i],
    ) by {
        assert(is_action_steps(Action::Teardown(perform_on), c, spec_services(perform_on)[i], r.plan()[i]));
    }
    r
}

/// The run of a configured invocation: `setup` or `teardown` of its target.
/// It needs a `Config`, which `configure` gives only when both addresses are
/// set, so no run starts, and no command is handed out, without them.
pub fn start(config: &Config, os: OS, credentials: &Credentials) -> (r: Run)
    ensures
        r.wf(),
        r@ == initial_view(config.spec_action()),
        r.spec_os() == os,
        r.plan().len() == spec_services(target_of(config.spec_action())).len(),
        forall|i: int|
            0 <= i < r.plan().len() ==> is_action_steps(
                config.spec_action(),
                *credentials,
                spec_services(target_of(config.spec_action()))[i],
                #[trigger] r.plan()[i],
            ),
{
    plan_run(config.action(), os, credentials)
}

} // verus!
