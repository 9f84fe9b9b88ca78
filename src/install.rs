//! The remote provisioning orchestrator: an ordered plan of install steps,
//! each with a progress weight and a failure policy, run by one generic
//! runner; plus the bounded waits and checks the steps rely on.

use vstd::prelude::*;
use crate::text::{contains_seq, contains_text};
use crate::transfer::{lines_of, split_lines};

verus! {

/// What a failed step does to the run.
#[derive(Clone, Copy, Debug, PartialEq, Eq, Structural)]
pub enum FailurePolicy {
    /// Abort the whole run.
    Fatal,
    /// Record the failure and go on with the next step.
    Soft,
}

/// A managed service that gets post-configuration.
#[derive(Clone, Copy, Debug, PartialEq, Eq, Structural)]
pub enum ServiceId {
    Jellyseerr,
    Radarr,
    Sonarr,
    Prowlarr,
    Jellyfin,
}

/// The remote action of a step.
#[derive(Clone, Copy, Debug, PartialEq, Eq, Structural)]
pub enum StepKind {
    /// Refresh and upgrade packages in the background, waiting out the lock.
    SystemUpdate,
    /// Install the container runtime unless it already reports a version.
    RuntimeInstall,
    /// Reboot so group membership applies, then wait for the host.
    RebootWait,
    /// Check that the runtime is usable.
    RuntimeVerify,
    /// Create the directory layout of the stack.
    CreateLayout,
    /// Upload the composition document.
    WriteCompose,
    /// Pull every referenced image, retrying the whole pull.
    PullImages,
    /// Start the topology and count the running containers.
    BringUp,
    /// Wait for the service's API, then apply its configuration calls.
    ConfigureService(ServiceId),
    /// Persist the final status to the external store.
    SaveStatus,
}

/// The observer's phase name of a step.
pub open spec fn step_tag(k: StepKind) -> Seq<char> {
    match k {
        StepKind::SystemUpdate => "update"@,
        StepKind::RuntimeInstall => "docker"@,
        StepKind::RebootWait => "reboot"@,
        StepKind::RuntimeVerify => "docker"@,
        StepKind::CreateLayout => "structure"@,
        StepKind::WriteCompose => "compose_write"@,
        StepKind::PullImages => "compose_up"@,
        StepKind::BringUp => "compose_up"@,
        StepKind::ConfigureService(_) => "config"@,
        StepKind::SaveStatus => "complete"@,
    }
}

/// The human label of a step.
pub open spec fn step_label(x: StepKind) -> Seq<char> {
    match x {
        StepKind::SystemUpdate => "Mise à jour système..."@,
        StepKind::RuntimeInstall => "Installation Docker..."@,
        StepKind::RebootWait => "Redémarrage..."@,
        StepKind::RuntimeVerify => "Vérification de Docker..."@,
        StepKind::CreateLayout => "Création structure..."@,
        StepKind::WriteCompose => "Génération docker-compose.yml..."@,
        StepKind::PullImages => "Téléchargement des images..."@,
        StepKind::BringUp => "Démarrage des services Docker..."@,
        StepKind::ConfigureService(_) => "Configuration des services..."@,
        StepKind::SaveStatus => "Enregistrement de l'installation..."@,
    }
}

impl StepKind {
    /// The observer's phase name of the step.
    pub fn tag(&self) -> (r: &'static str)
        ensures
            r@ == step_tag(*self),
    {
        match self {
            StepKind::SystemUpdate => "update",
            StepKind::RuntimeInstall => "docker",
            StepKind::RebootWait => "reboot",
            StepKind::RuntimeVerify => "docker",
            StepKind::CreateLayout => "structure",
            StepKind::WriteCompose => "compose_write",
            StepKind::PullImages => "compose_up",
            StepKind::BringUp => "compose_up",
            StepKind::ConfigureService(_) => "config",
            StepKind::SaveStatus => "complete",
        }
    }

    /// The human label of the step.
    pub fn label(&self) -> (r: &'static str)
        ensures
            r@ == step_label(*self),
    {
        match self {
            StepKind::SystemUpdate => "Mise à jour système...",
            StepKind::RuntimeInstall => "Installation Docker...",
            StepKind::RebootWait => "Redémarrage...",
            StepKind::RuntimeVerify => "Vérification de Docker...",
            StepKind::CreateLayout => "Création structure...",
            StepKind::WriteCompose => "Génération docker-compose.yml...",
            StepKind::PullImages => "Téléchargement des images...",
            StepKind::BringUp => "Démarrage des services Docker...",
            StepKind::ConfigureService(_) => "Configuration des services...",
            StepKind::SaveStatus => "Enregistrement de l'installation...",
        }
    }
}

/// One step of the plan.
#[derive(Clone, Copy, Debug, PartialEq, Eq, Structural)]
pub struct InstallStep {
    pub kind: StepKind,
    pub weight: u32,
    pub policy: FailurePolicy,
}

/// Where a run stands.
#[derive(Clone, Copy, Debug, PartialEq, Eq, Structural)]
pub enum RunStatus {
    Running,
    Complete,
    Aborted,
}

/// What the host must do next.
#[derive(Clone, Copy, Debug, PartialEq, Eq, Structural)]
pub enum InstallDirective {
    /// Run the step at this index of the plan.
    Run(usize),
    /// Every step has been through; emit the terminal event.
    Complete,
    /// The step at this index failed and is fatal.
    Abort(usize),
}

/// A directive with the global percent to report.
#[derive(Clone, Copy, Debug, PartialEq, Eq, Structural)]
pub struct InstallDecision {
    pub directive: InstallDirective,
    pub percent: u32,
}

/// A plan the runner accepts: some steps, a positive total weight, and a
/// total whose percent arithmetic (`done * 100`) fits in `u64`.
pub open spec fn plan_wf(plan: Seq<InstallStep>) -> bool {
    &&& 0 < plan.len()
    &&& 0 < weight_upto(plan, plan.len() as int)
    &&& weight_upto(plan, plan.len() as int) * 100 <= u64::MAX
}

/// Total weight of the first `k` steps.
pub open spec fn weight_upto(plan: Seq<InstallStep>, k: int) -> nat
    decreases k,
{
    if k <= 0 {
        0
    } else {
        (weight_upto(plan, k - 1) + plan[k - 1].weight) as nat
    }
}

/// The percent reported once the first `k` steps are through.
pub open spec fn percent_after(plan: Seq<InstallStep>, k: int) -> u32 {
    (weight_upto(plan, k) * 100 / weight_upto(plan, plan.len() as int)) as u32
}

/// The abstract state of a run.
pub struct InstallView {
    pub plan: Seq<InstallStep>,
    pub next: nat,
    pub soft_failures: Seq<nat>,
    pub status: RunStatus,
}

/// The decision on the outcome of the current step.
pub open spec fn install_next(v: InstallView, succeeded: bool) -> (InstallView, InstallDecision) {
    let i = v.next;
    if !succeeded && v.plan[i as int].policy is Fatal {
        (
            InstallView { status: RunStatus::Aborted, ..v },
            InstallDecision {
                directive: InstallDirective::Abort(i as usize),
                percent: percent_after(v.plan, i as int),
            },
        )
    } else {
        let soft = if succeeded {
            v.soft_failures
        } else {
            v.soft_failures.push(i)
        };
        let n = i + 1;
        if n == v.plan.len() {
            (
                InstallView { next: n, soft_failures: soft, status: RunStatus::Complete, ..v },
                InstallDecision { directive: InstallDirective::Complete, percent: 100 },
            )
        } else {
            (
                InstallView { next: n, soft_failures: soft, ..v },
                InstallDecision {
                    directive: InstallDirective::Run(n as usize),
                    percent: percent_after(v.plan, n as int),
                },
            )
        }
    }
}

/// Well-formedness of a run's state.
pub open spec fn run_wf(v: InstallView) -> bool {
    &&& plan_wf(v.plan)
    &&& v.status is Running ==> v.next < v.plan.len()
}

/// The decisions of a run fed with step outcomes until it stops.
pub open spec fn install_run(v: InstallView, outcomes: Seq<bool>) -> (InstallView, Seq<InstallDecision>)
    decreases outcomes.len(),
{
    if outcomes.len() == 0 || !(v.status is Running) {
        (v, Seq::empty())
    } else {
        let (w, d) = install_next(v, outcomes[0]);
        let (u, rest) = install_run(w, outcomes.drop_first());
        (u, seq![d] + rest)
    }
}

/// Runs a plan step by step.
pub struct InstallRun {
    plan: Vec<InstallStep>,
    next: usize,
    done_weight: u64,
    total_weight: u64,
    soft_failures: Vec<usize>,
    status: RunStatus,
}

impl View for InstallRun {
    type V = InstallView;

    closed spec fn view(&self) -> InstallView {
        InstallView {
            plan: self.plan@,
            next: self.next as nat,
            soft_failures: self.soft_failures@.map_values(|i: usize| i as nat),
            status: self.status,
        }
    }
}

proof fn lemma_weight_mono(plan: Seq<InstallStep>, j: int, k: int)
    requires
        0 <= j <= k <= plan.len(),
    ensures
        weight_upto(plan, j) <= weight_upto(plan, k),
    decreases k - j,
{
    if j < k {
        lemma_weight_mono(plan, j, k - 1);
    }
}

impl InstallRun {
    /// The internal invariant: cached weights match the plan.
    pub closed spec fn inv(&self) -> bool {
        &&& run_wf(self@)
        &&& self.next <= self.plan@.len()
        &&& self.done_weight == weight_upto(self.plan@, self.next as int)
        &&& self.total_weight == weight_upto(self.plan@, self.plan@.len() as int)
    }

    /// Starts a run of `plan`; the first directive is to run step 0.
    pub fn start(plan: Vec<InstallStep>) -> (r: (InstallRun, InstallDecision))
        requires
            plan_wf(plan@),
        ensures
            r.0.inv(),
            r.0@ == (InstallView {
                plan: plan@,
                next: 0,
                soft_failures: Seq::empty(),
                status: RunStatus::Running,
            }),
            r.1 == (InstallDecision { directive: InstallDirective::Run(0), percent: 0 }),
    {
        let mut total: u64 = 0;
        let mut k: usize = 0;
        while k < plan.len()
            invariant
                plan_wf(plan@),
                k <= plan@.len(),
                total == weight_upto(plan@, k as int),
            decreases plan@.len() - k,
        {
            proof {
                lemma_weight_mono(plan@, k + 1, plan@.len() as int);
            }
            total = total + plan[k].weight as u64;
            k = k + 1;
        }
        let run = InstallRun {
            plan,
            next: 0,
            done_weight: 0,
            total_weight: total,
            soft_failures: Vec::new(),
            status: RunStatus::Running,
        };
        assert(run@.soft_failures =~= Seq::<nat>::empty());
        (run, InstallDecision { directive: InstallDirective::Run(0), percent: 0 })
    }

    /// Where the run stands.
    pub fn status(&self) -> (r: RunStatus)
        ensures
            r == self@.status,
    {
        self.status
    }

    /// Indices of the steps that failed softly so far.
    pub fn soft_failures(&self) -> (r: &Vec<usize>)
        ensures
            r@.map_values(|i: usize| i as nat) == self@.soft_failures,
    {
        &self.soft_failures
    }

    /// The step the run is at.
    pub fn current(&self) -> (r: InstallStep)
        requires
            self.inv(),
            self@.status is Running,
        ensures
            r == self@.plan[self@.next as int],
    {
        self.plan[self.next]
    }

    /// Records the outcome of the current step and decides what follows: a
    /// soft failure is recorded and the run goes on, a fatal one aborts.
    pub fn record(&mut self, succeeded: bool) -> (r: InstallDecision)
        requires
            old(self).inv(),
            old(self)@.status is Running,
        ensures
            final(self).inv(),
            (final(self)@, r) == install_next(old(self)@, succeeded),
    {
        let i = self.next;
        let n = self.plan.len();
        let step = self.plan[i];
        proof {
            lemma_weight_mono(self.plan@, i as int, self.plan@.len() as int);
            lemma_weight_mono(self.plan@, i + 1, self.plan@.len() as int);
        }
        if !succeeded && matches!(step.policy, FailurePolicy::Fatal) {
            self.status = RunStatus::Aborted;
            return InstallDecision {
                directive: InstallDirective::Abort(i),
                percent: self.percent_done(),
            };
        }
        if !succeeded {
            self.soft_failures.push(i);
            assert(self@.soft_failures =~= old(self)@.soft_failures.push(i as nat));
        }
        self.next = i + 1;
        self.done_weight = self.done_weight + step.weight as u64;
        if self.next == n {
            self.status = RunStatus::Complete;
            InstallDecision { directive: InstallDirective::Complete, percent: 100 }
        } else {
            InstallDecision { directive: InstallDirective::Run(self.next), percent: self.percent_done() }
        }
    }

    fn percent_done(&self) -> (r: u32)
        requires
            self.inv(),
        ensures
            r == percent_after(self.plan@, self.next as int),
    {
        proof {
            lemma_weight_mono(self.plan@, self.next as int, self.plan@.len() as int);
            assert(self.done_weight * 100 / (self.total_weight as int) <= 100) by (nonlinear_arith)
                requires
                    self.done_weight <= self.total_weight,
                    self.total_weight > 0,
            ;
        }
        (self.done_weight * 100 / self.total_weight) as u32
    }
}

/// The plan positions, from `start` on, whose outcome is a failure.
pub open spec fn failed_positions(start: nat, outcomes: Seq<bool>) -> Seq<nat>
    decreases outcomes.len(),
{
    if outcomes.len() == 0 {
        Seq::empty()
    } else {
        (if outcomes[0] {
            Seq::empty()
        } else {
            seq![start]
        }) + failed_positions(start + 1, outcomes.drop_first())
    }
}

/// Phase independence: when every failure falls on a soft step, the run
/// goes through every remaining step in order and ends with the terminal
/// event at 100.
pub proof fn lemma_soft_failures_do_not_stop(v: InstallView, outcomes: Seq<bool>)
    requires
        run_wf(v),
        v.status is Running,
        outcomes.len() == v.plan.len() - v.next,
        forall|j: int|
            0 <= j < outcomes.len() && !(#[trigger] outcomes[j]) ==> v.plan[v.next + j].policy is Soft,
    ensures
        ({
            let (u, ds) = install_run(v, outcomes);
            &&& u.status is Complete
            &&& u.soft_failures == v.soft_failures + failed_positions(v.next, outcomes)
            &&& ds.len() == outcomes.len()
            &&& ds.last() == (InstallDecision { directive: InstallDirective::Complete, percent: 100 })
            &&& forall|j: int|
                0 <= j < ds.len() - 1 ==> (#[trigger] ds[j]).directive == InstallDirective::Run(
                    (v.next + j + 1) as usize,
                )
        }),
    decreases outcomes.len(),
{
    let (w, d) = install_next(v, outcomes[0]);
    assert(!outcomes[0] ==> v.plan[v.next as int].policy is Soft);
    if w.status is Running {
        let rest_o = outcomes.drop_first();
        assert forall|j: int|
            0 <= j < rest_o.len() && !(#[trigger] rest_o[j]) implies w.plan[w.next + j].policy is Soft by {
            assert(rest_o[j] == outcomes[j + 1]);
        }
        lemma_soft_failures_do_not_stop(w, rest_o);
        let (u, rest) = install_run(w, rest_o);
        let ds = seq![d] + rest;
        assert(ds.last() == rest.last());
        assert(u.soft_failures =~= v.soft_failures + failed_positions(v.next, outcomes));
        assert forall|j: int| 0 <= j < ds.len() - 1 implies (#[trigger] ds[j]).directive
            == InstallDirective::Run((v.next + j + 1) as usize) by {
            if j > 0 {
                assert(ds[j] == rest[j - 1]);
            }
        }
    } else {
        assert(install_run(w, outcomes.drop_first()).1.len() == 0);
        assert((seq![d] + Seq::<InstallDecision>::empty()) =~= seq![d]);
        assert(outcomes.drop_first().len() == 0);
        assert(failed_positions(v.next + 1, outcomes.drop_first()) =~= Seq::<nat>::empty());
        assert(w.soft_failures =~= v.soft_failures + failed_positions(v.next, outcomes));
    }
}

/// A fatal step that fails stops the run there: the last decision is the
/// abort, and no later step is ever run.
pub proof fn lemma_fatal_failure_stops(v: InstallView, rest: Seq<bool>)
    requires
        run_wf(v),
        v.status is Running,
        v.plan[v.next as int].policy is Fatal,
    ensures
        ({
            let (u, ds) = install_run(v, seq![false] + rest);
            &&& u.status is Aborted
            &&& ds == seq![InstallDecision {
                directive: InstallDirective::Abort(v.next as usize),
                percent: percent_after(v.plan, v.next as int),
            }]
        }),
{
    let all = seq![false] + rest;
    assert(all[0] == false);
    let (w, d) = install_next(v, false);
    assert(install_run(w, all.drop_first()).1.len() == 0);
    assert(seq![d] + Seq::<InstallDecision>::empty() =~= seq![d]);
}

/// Polls of the package-manager lock before the repair attempt.
pub const LOCK_WAIT_POLLS: u32 = 60;

/// Seconds between two polls of the package manager.
pub const LOCK_POLL_INTERVAL_SECS: u64 = 10;

/// Attempts at pulling every image before giving up.
pub const PULL_ATTEMPTS: u32 = 3;

/// Probes of the host after the reboot (five seconds apart).
pub const REBOOT_WAIT_ATTEMPTS: u32 = 30;

/// Probes of a service's control API (five seconds apart).
pub const SERVICE_WAIT_ATTEMPTS: u32 = 24;

/// Marker printed by the background update once it has finished.
pub const UPDATE_DONE_MARKER: &'static str = "UPDATE_DONE";

/// Why a run stopped on a fatal step.
#[derive(Clone, Copy, Debug, PartialEq, Eq, Structural)]
pub enum InstallError {
    /// The package manager stayed locked, also after the repair.
    PackageLockTimeout,
    /// The runtime is not usable after installation.
    RuntimeUnusable,
    /// The host did not answer again after the reboot.
    HostUnreachable,
    /// The images could not be pulled within the attempt ceiling.
    PullFailed,
    /// Fewer containers run than the topology expects.
    ConvergenceShortfall { running: u64, expected: u64 },
}

/// The plan of a full installation, in order: system update, runtime,
/// reboot, layout and composition document, image pull and bring-up, each
/// service's configuration (soft), and the final status record (soft).
pub open spec fn standard_plan_spec() -> Seq<InstallStep> {
    seq![
        InstallStep { kind: StepKind::SystemUpdate, weight: 15, policy: FailurePolicy::Fatal },
        InstallStep { kind: StepKind::RuntimeInstall, weight: 10, policy: FailurePolicy::Fatal },
        InstallStep { kind: StepKind::RebootWait, weight: 10, policy: FailurePolicy::Fatal },
        InstallStep { kind: StepKind::RuntimeVerify, weight: 5, policy: FailurePolicy::Fatal },
        InstallStep { kind: StepKind::CreateLayout, weight: 5, policy: FailurePolicy::Fatal },
        InstallStep { kind: StepKind::WriteCompose, weight: 5, policy: FailurePolicy::Fatal },
        InstallStep { kind: StepKind::PullImages, weight: 15, policy: FailurePolicy::Fatal },
        InstallStep { kind: StepKind::BringUp, weight: 10, policy: FailurePolicy::Fatal },
        InstallStep { kind: StepKind::ConfigureService(ServiceId::Jellyseerr), weight: 4, policy: FailurePolicy::Soft },
        InstallStep { kind: StepKind::ConfigureService(ServiceId::Radarr), weight: 4, policy: FailurePolicy::Soft },
        InstallStep { kind: StepKind::ConfigureService(ServiceId::Sonarr), weight: 4, policy: FailurePolicy::Soft },
        InstallStep { kind: StepKind::ConfigureService(ServiceId::Prowlarr), weight: 4, policy: FailurePolicy::Soft },
        InstallStep { kind: StepKind::ConfigureService(ServiceId::Jellyfin), weight: 4, policy: FailurePolicy::Soft },
        InstallStep { kind: StepKind::SaveStatus, weight: 5, policy: FailurePolicy::Soft },
    ]
}

/// The plan of a full installation.
pub fn standard_plan() -> (r: Vec<InstallStep>)
    ensures
        r@ == standard_plan_spec(),
        plan_wf(r@),
{
    let r = vec![
        InstallStep { kind: StepKind::SystemUpdate, weight: 15, policy: FailurePolicy::Fatal },
        InstallStep { kind: StepKind::RuntimeInstall, weight: 10, policy: FailurePolicy::Fatal },
        InstallStep { kind: StepKind::RebootWait, weight: 10, policy: FailurePolicy::Fatal },
        InstallStep { kind: StepKind::RuntimeVerify, weight: 5, policy: FailurePolicy::Fatal },
        InstallStep { kind: StepKind::CreateLayout, weight: 5, policy: FailurePolicy::Fatal },
        InstallStep { kind: StepKind::WriteCompose, weight: 5, policy: FailurePolicy::Fatal },
        InstallStep { kind: StepKind::PullImages, weight: 15, policy: FailurePolicy::Fatal },
        InstallStep { kind: StepKind::BringUp, weight: 10, policy: FailurePolicy::Fatal },
        InstallStep { kind: StepKind::ConfigureService(ServiceId::Jellyseerr), weight: 4, policy: FailurePolicy::Soft },
        InstallStep { kind: StepKind::ConfigureService(ServiceId::Radarr), weight: 4, policy: FailurePolicy::Soft },
        InstallStep { kind: StepKind::ConfigureService(ServiceId::Sonarr), weight: 4, policy: FailurePolicy::Soft },
        InstallStep { kind: StepKind::ConfigureService(ServiceId::Prowlarr), weight: 4, policy: FailurePolicy::Soft },
        InstallStep { kind: StepKind::ConfigureService(ServiceId::Jellyfin), weight: 4, policy: FailurePolicy::Soft },
        InstallStep { kind: StepKind::SaveStatus, weight: 5, policy: FailurePolicy::Soft },
    ];
    assert(r@ =~= standard_plan_spec());
    proof {
        reveal_with_fuel(weight_upto, 15);
    }
    assert(weight_upto(r@, 14) == 100);
    r
}

/// Index of the bring-up step in the standard plan.
pub const BRING_UP_STEP: usize = 7;

/// Under-provisioned bring-up: in the full installation, a bring-up whose
/// check fails aborts the run at that step, before any service is
/// configured.
pub proof fn lemma_bring_up_shortfall_stops_before_services(v: InstallView, rest: Seq<bool>)
    requires
        run_wf(v),
        v.plan == standard_plan_spec(),
        v.status is Running,
        v.next == BRING_UP_STEP,
    ensures
        ({
            let (u, ds) = install_run(v, seq![false] + rest);
            &&& u.status is Aborted
            &&& ds.len() == 1
            &&& ds[0].directive == InstallDirective::Abort(BRING_UP_STEP)
        }),
{
    lemma_fatal_failure_stops(v, rest);
}

/// What a poll of the background system update shows.
#[derive(Clone, Copy, Debug, PartialEq, Eq, Structural)]
pub enum UpdateProbe {
    /// The completion marker is there.
    Finished,
    /// The package manager's lock is held by another process.
    LockBusy,
    /// Still going.
    Running,
}

/// True when the output reports a held package-manager lock.
pub open spec fn reports_lock(out: Seq<char>) -> bool {
    contains_seq(out, "Could not get lock"@) || contains_seq(out, "Unable to acquire the dpkg frontend lock"@)
}

/// How a poll's output is read: the completion marker wins over a lock message.
pub open spec fn update_probe_of(out: Seq<char>) -> UpdateProbe {
    if contains_seq(out, UPDATE_DONE_MARKER@) {
        UpdateProbe::Finished
    } else if reports_lock(out) {
        UpdateProbe::LockBusy
    } else {
        UpdateProbe::Running
    }
}

/// Reads a poll of the background system update.
pub fn classify_update(out: &str) -> (r: UpdateProbe)
    ensures
        r == update_probe_of(out@),
{
    if contains_text(out, UPDATE_DONE_MARKER) {
        UpdateProbe::Finished
    } else if contains_text(out, "Could not get lock") || contains_text(
        out,
        "Unable to acquire the dpkg frontend lock",
    ) {
        UpdateProbe::LockBusy
    } else {
        UpdateProbe::Running
    }
}

/// What to do after a poll of the system update.
#[derive(Clone, Copy, Debug, PartialEq, Eq, Structural)]
pub enum UpdateDecision {
    /// The update is over.
    Done,
    /// Sleep the poll interval and poll again.
    Wait,
    /// Force-reconfigure and fix broken installs, then poll again.
    Repair,
    /// Give up.
    Fail(InstallError),
}

/// The bounded wait on the system update, with one repair attempt.
#[derive(Clone, Copy, Debug, PartialEq, Eq, Structural)]
pub struct UpdateWait {
    pub polls: u32,
    pub max_polls: u32,
    pub repaired: bool,
}

/// The decision after a poll, given the polls already made in this round.
pub open spec fn update_decision(w: UpdateWait, p: UpdateProbe) -> (UpdateWait, UpdateDecision) {
    if p is Finished {
        (w, UpdateDecision::Done)
    } else if w.polls + 1 < w.max_polls {
        (UpdateWait { polls: (w.polls + 1) as u32, ..w }, UpdateDecision::Wait)
    } else if !w.repaired {
        (UpdateWait { polls: 0, repaired: true, ..w }, UpdateDecision::Repair)
    } else {
        (UpdateWait { polls: (w.polls + 1) as u32, ..w }, UpdateDecision::Fail(InstallError::PackageLockTimeout))
    }
}

impl UpdateWait {
    /// A wait of `max_polls` polls per round, before and after the repair.
    pub fn new(max_polls: u32) -> (r: UpdateWait)
        requires
            max_polls > 0,
        ensures
            r == (UpdateWait { polls: 0, max_polls, repaired: false }),
    {
        UpdateWait { polls: 0, max_polls, repaired: false }
    }

    /// Records a poll and decides what follows: a held lock is a reason to
    /// wait, not a failure, until the round's ceiling.
    pub fn record(&mut self, p: UpdateProbe) -> (r: UpdateDecision)
        requires
            old(self).polls < old(self).max_polls,
        ensures
            (*final(self), r) == update_decision(*old(self), p),
            !(r is Fail) ==> final(self).polls < final(self).max_polls,
    {
        if matches!(p, UpdateProbe::Finished) {
            UpdateDecision::Done
        } else if self.polls + 1 < self.max_polls {
            self.polls = self.polls + 1;
            UpdateDecision::Wait
        } else if !self.repaired {
            self.polls = 0;
            self.repaired = true;
            UpdateDecision::Repair
        } else {
            self.polls = self.polls + 1;
            UpdateDecision::Fail(InstallError::PackageLockTimeout)
        }
    }
}

/// What to do after a pull attempt.
#[derive(Clone, Copy, Debug, PartialEq, Eq, Structural)]
pub enum PullDecision {
    Done,
    Retry,
    Fail(InstallError),
}

/// The decision after pull attempt number `attempt` (from 1).
pub open spec fn pull_decision(attempt: u32, ok: bool) -> PullDecision {
    if ok {
        PullDecision::Done
    } else if attempt < PULL_ATTEMPTS {
        PullDecision::Retry
    } else {
        PullDecision::Fail(InstallError::PullFailed)
    }
}

/// Decides what follows pull attempt number `attempt` (from 1).
pub fn after_pull(attempt: u32, ok: bool) -> (r: PullDecision)
    ensures
        r == pull_decision(attempt, ok),
{
    if ok {
        PullDecision::Done
    } else if attempt < PULL_ATTEMPTS {
        PullDecision::Retry
    } else {
        PullDecision::Fail(InstallError::PullFailed)
    }
}

/// Whether the reboot step has to reboot: only an installation that just
/// added the user to the runtime's group needs one; a runtime that was
/// already there leaves the step satisfied.
pub fn reboot_required(runtime_was_present: bool) -> (r: bool)
    ensures
        r == !runtime_was_present,
{
    !runtime_was_present
}

/// The runtime reports a version string.
pub fn runtime_present(version_output: &str) -> (r: bool)
    ensures
        r == contains_seq(version_output@, "Docker version"@),
{
    contains_text(version_output, "Docker version")
}

/// Number of non-empty lines among `ls`.
pub open spec fn count_nonempty(ls: Seq<Seq<char>>) -> nat
    decreases ls.len(),
{
    if ls.len() == 0 {
        0
    } else {
        count_nonempty(ls.drop_last()) + if ls.last().len() > 0 {
            1nat
        } else {
            0nat
        }
    }
}

/// Number of running containers in a listing that prints one id per line.
pub fn count_running(listing: &str) -> (r: u64)
    ensures
        r == count_nonempty(lines_of(listing@)),
{
    let lines = split_lines(listing);
    let ghost ls = lines@.map_values(|l: String| l@);
    let mut n: u64 = 0;
    let mut i: usize = 0;
    while i < lines.len()
        invariant
            i <= lines@.len(),
            ls == lines@.map_values(|l: String| l@),
            n == count_nonempty(ls.subrange(0, i as int)),
            n <= i,
        decreases lines@.len() - i,
    {
        assert(ls.subrange(0, i + 1).drop_last() =~= ls.subrange(0, i as int));
        if lines[i].as_str().unicode_len() > 0 {
            n = n + 1;
        }
        i = i + 1;
    }
    assert(ls.subrange(0, i as int) =~= ls);
    n
}

/// The convergence check after bring-up: at least `expected` containers run.
pub fn check_convergence(running: u64, expected: u64) -> (r: Result<(), InstallError>)
    ensures
        running >= expected ==> r is Ok,
        running < expected ==> r == Err::<(), InstallError>(
            InstallError::ConvergenceShortfall { running, expected },
        ),
{
    if running >= expected {
        Ok(())
    } else {
        Err(InstallError::ConvergenceShortfall { running, expected })
    }
}

} // verus!
