//! The ordered setup that a driver's entry point runs: each step creates or
//! registers something; the first failing step stops the setup, and
//! everything the earlier steps created is released.
//!
//! The driver performs each step and reports its status and the address (or
//! cookie) of what it created; `DriverSetup` decides what comes next.
use crate::cleaner::{cleanup_plan, empty_cleaner, Cleaner, CleanupAction};
use crate::ntstatus::{nt_success, spec_nt_success, STATUS_SUCCESS};
use vstd::prelude::*;

verus! {

/// A step of a driver's setup.
#[derive(Clone, Copy, Debug, PartialEq, Eq, Structural)]
pub enum SetupStep {
    /// `IoCreateDevice`; on success the device also gets direct I/O.
    CreateDevice,
    /// `IoCreateSymbolicLink`.
    CreateSymbolicLink,
    /// `PsSetCreateProcessNotifyRoutineEx`.
    SetProcessNotify,
    /// `PsSetCreateThreadNotifyRoutine`.
    SetThreadNotify,
    /// `PsSetLoadImageNotifyRoutine`.
    SetImageLoadNotify,
    /// `CmRegisterCallbackEx`.
    RegisterRegistryCallback,
    /// `FltRegisterFilter`.
    RegisterFilter,
}

/// The position of a step's record in the cleaner, which is also the order in
/// which releases are made.
pub open spec fn step_rank(s: SetupStep) -> int {
    match s {
        SetupStep::CreateDevice => 0,
        SetupStep::CreateSymbolicLink => 1,
        SetupStep::SetProcessNotify => 2,
        SetupStep::SetThreadNotify => 3,
        SetupStep::SetImageLoadNotify => 4,
        SetupStep::RegisterRegistryCallback => 5,
        SetupStep::RegisterFilter => 6,
    }
}

/// The release that undoes a step that created `resource`.
pub open spec fn release_of(s: SetupStep, resource: u64) -> CleanupAction {
    match s {
        SetupStep::CreateDevice => CleanupAction::DeleteDevice(resource),
        SetupStep::CreateSymbolicLink => CleanupAction::DeleteSymbolicLink(resource),
        SetupStep::SetProcessNotify => CleanupAction::RemoveProcessNotify(resource),
        SetupStep::SetThreadNotify => CleanupAction::RemoveThreadNotify(resource),
        SetupStep::SetImageLoadNotify => CleanupAction::RemoveImageLoadNotify(resource),
        SetupStep::RegisterRegistryCallback => CleanupAction::UnregisterRegistryCallback(resource as i64),
        SetupStep::RegisterFilter => CleanupAction::UnregisterFilter(resource),
    }
}

/// The cleaner after recording that step `s` created `resource`.
pub open spec fn record(c: Cleaner, s: SetupStep, resource: u64) -> Cleaner {
    match s {
        SetupStep::CreateDevice => Cleaner { device_object: Some(resource), ..c },
        SetupStep::CreateSymbolicLink => Cleaner { sym_link: Some(resource), ..c },
        SetupStep::SetProcessNotify => Cleaner { create_process_callback: Some(resource), ..c },
        SetupStep::SetThreadNotify => Cleaner { thread_process_callback: Some(resource), ..c },
        SetupStep::SetImageLoadNotify => Cleaner { load_image_callback: Some(resource), ..c },
        SetupStep::RegisterRegistryCallback => Cleaner { registry_callback: Some(resource as i64), ..c },
        SetupStep::RegisterFilter => Cleaner { filter_handle: Some(resource), ..c },
    }
}

/// The cleaner after the steps `steps` created `resources`, one each.
pub open spec fn recorded(steps: Seq<SetupStep>, resources: Seq<u64>) -> Cleaner
    decreases steps.len(),
{
    if steps.len() == 0 {
        empty_cleaner()
    } else {
        record(
            recorded(steps.drop_last(), resources.subrange(0, steps.len() - 1)),
            steps.last(),
            resources[steps.len() - 1],
        )
    }
}

/// Whether the cleaner holds a record at rank `k`.
pub open spec fn slot_filled(c: Cleaner, k: int) -> bool {
    if k == 0 {
        c.device_object is Some
    } else if k == 1 {
        c.sym_link is Some
    } else if k == 2 {
        c.create_process_callback is Some
    } else if k == 3 {
        c.thread_process_callback is Some
    } else if k == 4 {
        c.load_image_callback is Some
    } else if k == 5 {
        c.registry_callback is Some
    } else {
        c.filter_handle is Some
    }
}

/// Steps whose ranks strictly increase: each object is created once, in the
/// order of the cleaner.
pub open spec fn in_setup_order(steps: Seq<SetupStep>) -> bool {
    forall|i: int, j: int| 0 <= i < j < steps.len() ==> step_rank(steps[i]) < step_rank(steps[j])
}

/// Recording a step whose rank is above every filled record appends its
/// release at the end of the cleanup plan.
proof fn lemma_record_appends(c: Cleaner, s: SetupStep, resource: u64)
    requires
        forall|k: int| step_rank(s) <= k <= 6 ==> !slot_filled(c, k),
    ensures
        cleanup_plan(record(c, s, resource)) == cleanup_plan(c).push(release_of(s, resource)),
{
    assert(!slot_filled(c, 6));
    assert(!slot_filled(c, 5) || step_rank(s) > 5);
    assert(!slot_filled(c, 4) || step_rank(s) > 4);
    assert(!slot_filled(c, 3) || step_rank(s) > 3);
    assert(!slot_filled(c, 2) || step_rank(s) > 2);
    assert(!slot_filled(c, 1) || step_rank(s) > 1);
    assert(!slot_filled(c, 0) || step_rank(s) > 0);
    assert(cleanup_plan(record(c, s, resource)) =~= cleanup_plan(c).push(release_of(s, resource)));
}

/// Only the ranks of recorded steps are filled.
proof fn lemma_recorded_slots(steps: Seq<SetupStep>, resources: Seq<u64>, k: int)
    requires
        resources.len() == steps.len(),
        0 <= k <= 6,
        slot_filled(recorded(steps, resources), k),
    ensures
        exists|i: int| 0 <= i < steps.len() && step_rank(steps[i]) == k,
    decreases steps.len(),
{
    if steps.len() > 0 {
        let p = steps.drop_last();
        let rp = resources.subrange(0, steps.len() - 1);
        if step_rank(steps.last()) == k {
            assert(step_rank(steps[steps.len() - 1]) == k);
        } else {
            assert(slot_filled(recorded(p, rp), k));
            lemma_recorded_slots(p, rp, k);
            let i = choose|i: int| 0 <= i < p.len() && step_rank(p[i]) == k;
            assert(steps[i] == p[i]);
        }
    }
}

/// When the steps of a setup run in the cleaner's order, the cleanup plan
/// after steps `0..k` have succeeded releases exactly what those steps
/// created, one release per step, in the order they were created: nothing
/// created is left behind and nothing else is released.
pub proof fn lemma_cleanup_releases_exactly_created(steps: Seq<SetupStep>, resources: Seq<u64>)
    requires
        resources.len() == steps.len(),
        in_setup_order(steps),
    ensures
        cleanup_plan(recorded(steps, resources)) == Seq::new(
            steps.len(),
            |i: int| release_of(steps[i], resources[i]),
        ),
    decreases steps.len(),
{
    if steps.len() == 0 {
        assert(cleanup_plan(empty_cleaner()) =~= Seq::<CleanupAction>::empty());
    } else {
        let n = steps.len();
        let p = steps.drop_last();
        let rp = resources.subrange(0, n - 1);
        assert(in_setup_order(p)) by {
            assert forall|i: int, j: int| 0 <= i < j < p.len() implies step_rank(p[i]) < step_rank(p[j]) by {
                assert(p[i] == steps[i] && p[j] == steps[j]);
            }
        }
        lemma_cleanup_releases_exactly_created(p, rp);
        let c = recorded(p, rp);
        assert forall|k: int| step_rank(steps.last()) <= k <= 6 implies !slot_filled(c, k) by {
            if slot_filled(c, k) {
                lemma_recorded_slots(p, rp, k);
                let i = choose|i: int| 0 <= i < p.len() && step_rank(p[i]) == k;
                assert(p[i] == steps[i]);
                assert(step_rank(steps[i]) < step_rank(steps[n - 1]));
            }
        }
        lemma_record_appends(c, steps.last(), resources[n - 1]);
        assert(cleanup_plan(recorded(steps, resources)) =~= Seq::new(
            n,
            |i: int| release_of(steps[i], resources[i]),
        ));
    }
}

/// When a setup whose steps run in the cleaner's order stops at a failing
/// step, the releases it hands back (`cleanup_plan` of the record of the
/// steps before it) are one release per step that succeeded, for exactly
/// what that step created, in the order of creation.
pub proof fn lemma_failed_setup_releases_created(steps: Seq<SetupStep>, resources: Seq<u64>, done: nat)
    requires
        in_setup_order(steps),
        done <= steps.len(),
        resources.len() == done,
    ensures
        cleanup_plan(recorded(steps.subrange(0, done as int), resources)) == Seq::new(
            done,
            |i: int| release_of(steps[i], resources[i]),
        ),
{
    let p = steps.subrange(0, done as int);
    assert(in_setup_order(p)) by {
        assert forall|i: int, j: int| 0 <= i < j < p.len() implies step_rank(p[i]) < step_rank(p[j]) by {
            assert(p[i] == steps[i] && p[j] == steps[j]);
        }
    }
    lemma_cleanup_releases_exactly_created(p, resources);
    assert(Seq::new(done, |i: int| release_of(p[i], resources[i])) =~= Seq::new(
        done,
        |i: int| release_of(steps[i], resources[i]),
    ));
}

/// What a driver's setup does next.
#[derive(Debug)]
pub enum SetupAction {
    /// Perform this step and report its status.
    Perform(SetupStep),
    /// The setup is over: make these releases, in order, and return `status`
    /// from the entry point.
    Finish { status: i32, cleanup: Vec<CleanupAction> },
}

/// The action ends the setup with `status` and the releases `cleanup`.
pub open spec fn finished_with(a: SetupAction, status: i32, cleanup: Seq<CleanupAction>) -> bool {
    match a {
        SetupAction::Finish { status: s, cleanup: c } => s == status && c@ == cleanup,
        SetupAction::Perform(_) => false,
    }
}

/// A driver's setup in progress.
pub struct DriverSetup {
    steps: Vec<SetupStep>,
    done: usize,
    cleaner: Cleaner,
    resources: Ghost<Seq<u64>>,
    finished: bool,
}

impl DriverSetup {
    /// The record matches the steps that succeeded: one resource for each of
    /// the first `spec_done()` steps, and the cleaner records exactly them.
    pub open spec fn wf(&self) -> bool {
        &&& self.spec_done() <= self.spec_steps().len()
        &&& self.spec_resources().len() == self.spec_done()
        &&& self.spec_cleaner() == recorded(
            self.spec_steps().subrange(0, self.spec_done() as int),
            self.spec_resources(),
        )
    }

    /// The steps of the setup.
    pub closed spec fn spec_steps(&self) -> Seq<SetupStep> {
        self.steps@
    }

    /// How many steps have succeeded.
    pub closed spec fn spec_done(&self) -> nat {
        self.done as nat
    }

    /// What the succeeded steps created, in order.
    pub closed spec fn spec_resources(&self) -> Seq<u64> {
        self.resources@
    }

    /// Whether the setup is over.
    pub closed spec fn spec_finished(&self) -> bool {
        self.finished
    }

    /// What the succeeded steps have recorded.
    pub closed spec fn spec_cleaner(&self) -> Cleaner {
        self.cleaner
    }

    /// A setup that will run `steps` in order. `start` gives its first action.
    pub fn new(steps: Vec<SetupStep>) -> (r: Self)
        ensures
            r.wf(),
            r.spec_steps() == steps@,
            r.spec_done() == 0,
            r.spec_resources() == Seq::<u64>::empty(),
            !r.spec_finished(),
            r.spec_cleaner() == empty_cleaner(),
    {
        let r = DriverSetup {
            steps,
            done: 0,
            cleaner: Cleaner::new(),
            resources: Ghost(Seq::empty()),
            finished: false,
        };
        assert(r.steps@.subrange(0, 0) =~= Seq::<SetupStep>::empty());
        r
    }

    /// The first action: the first step, or success when there are none.
    pub fn start(&mut self) -> (r: SetupAction)
        requires
            old(self).wf(),
            old(self).spec_done() == 0,
            !old(self).spec_finished(),
        ensures
            final(self).wf(),
            final(self).spec_steps() == old(self).spec_steps(),
            final(self).spec_done() == 0,
            final(self).spec_resources() == old(self).spec_resources(),
            final(self).spec_cleaner() == old(self).spec_cleaner(),
            old(self).spec_steps().len() == 0 ==> final(self).spec_finished() && finished_with(
                r,
                STATUS_SUCCESS,
                Seq::empty(),
            ),
            old(self).spec_steps().len() > 0 ==> !final(self).spec_finished() && r == SetupAction::Perform(
                old(self).spec_steps()[0],
            ),
    {
        if self.steps.len() == 0 {
            self.finished = true;
            SetupAction::Finish { status: STATUS_SUCCESS, cleanup: Vec::new() }
        } else {
            SetupAction::Perform(self.steps[0])
        }
    }

    /// Takes the status of the step just performed and, on success, what it
    /// created. A success records the object and moves to the next step, or,
    /// after the last step, ends the setup with that step's own status (which
    /// may be an informational success). A failure ends the
    /// setup with that status and the releases of everything created so far.
    pub fn advance(&mut self, status: i32, resource: u64) -> (r: SetupAction)
        requires
            old(self).wf(),
            !old(self).spec_finished(),
            old(self).spec_done() < old(self).spec_steps().len(),
        ensures
            final(self).wf(),
            final(self).spec_steps() == old(self).spec_steps(),
            final(self).spec_finished() == (!spec_nt_success(status) || old(self).spec_done() + 1
                == old(self).spec_steps().len()),
            spec_nt_success(status) ==> {
                &&& final(self).spec_done() == old(self).spec_done() + 1
                &&& final(self).spec_resources() == old(self).spec_resources().push(resource)
                &&& final(self).spec_cleaner() == record(
                    old(self).spec_cleaner(),
                    old(self).spec_steps()[old(self).spec_done() as int],
                    resource,
                )
                &&& if old(self).spec_done() + 1 < old(self).spec_steps().len() {
                    r == SetupAction::Perform(old(self).spec_steps()[old(self).spec_done() + 1int])
                } else {
                    finished_with(r, status, Seq::empty())
                }
            },
            !spec_nt_success(status) ==> {
                &&& final(self).spec_done() == old(self).spec_done()
                &&& final(self).spec_resources() == old(self).spec_resources()
                &&& final(self).spec_cleaner() == old(self).spec_cleaner()
                &&& finished_with(
                    r,
                    status,
                    cleanup_plan(
                        recorded(
                            old(self).spec_steps().subrange(0, old(self).spec_done() as int),
                            old(self).spec_resources(),
                        ),
                    ),
                )
            },
    {
        if !nt_success(status) {
            let mut c = self.cleaner;
            let cleanup = c.clean();
            self.finished = true;
            return SetupAction::Finish { status, cleanup };
        }
        let n_steps = self.steps.len();
        let step = self.steps[self.done];
        let mut c = self.cleaner;
        match step {
            SetupStep::CreateDevice => c.init_device(resource),
            SetupStep::CreateSymbolicLink => c.init_symlink(resource),
            SetupStep::SetProcessNotify => c.init_process_create_callback(resource),
            SetupStep::SetThreadNotify => c.init_thread_create_callback(resource),
            SetupStep::SetImageLoadNotify => c.init_image_load_callback(resource),
            SetupStep::RegisterRegistryCallback => c.init_registry_callback(resource as i64),
            SetupStep::RegisterFilter => c.init_filter_handle(resource),
        }
        let ghost old_done = self.done;
        proof {
            let s2 = self.steps@.subrange(0, old_done + 1);
            assert(s2.drop_last() =~= self.steps@.subrange(0, old_done as int));
            let r2 = self.resources@.push(resource);
            assert(r2.subrange(0, old_done as int) =~= self.resources@);
        }
        self.resources = Ghost(self.resources@.push(resource));
        self.cleaner = c;
        self.done = self.done + 1;
        proof {
            let s2 = self.steps@.subrange(0, self.done as int);
            assert(s2.drop_last() =~= self.steps@.subrange(0, old_done as int));
            assert(self.resources@.subrange(0, old_done as int) =~= old(self).spec_resources());
        }
        if self.done < self.steps.len() {
            SetupAction::Perform(self.steps[self.done])
        } else {
            self.finished = true;
            SetupAction::Finish { status, cleanup: Vec::new() }
        }
    }
}

/// The setup of the monitoring driver: device, symbolic link, then process,
/// thread and image-load notifications, then the registry callback.
pub fn sysmon_setup_steps() -> (r: Vec<SetupStep>)
    ensures
        r@ == seq![
            SetupStep::CreateDevice,
            SetupStep::CreateSymbolicLink,
            SetupStep::SetProcessNotify,
            SetupStep::SetThreadNotify,
            SetupStep::SetImageLoadNotify,
            SetupStep::RegisterRegistryCallback,
        ],
        in_setup_order(r@),
{
    let mut v: Vec<SetupStep> = Vec::new();
    v.push(SetupStep::CreateDevice);
    v.push(SetupStep::CreateSymbolicLink);
    v.push(SetupStep::SetProcessNotify);
    v.push(SetupStep::SetThreadNotify);
    v.push(SetupStep::SetImageLoadNotify);
    v.push(SetupStep::RegisterRegistryCallback);
    assert(v@ =~= seq![
        SetupStep::CreateDevice,
        SetupStep::CreateSymbolicLink,
        SetupStep::SetProcessNotify,
        SetupStep::SetThreadNotify,
        SetupStep::SetImageLoadNotify,
        SetupStep::RegisterRegistryCallback,
    ]);
    v
}

/// The setup of the zero device driver: the device, then its symbolic link.
pub fn zero_setup_steps() -> (r: Vec<SetupStep>)
    ensures
        r@ == seq![SetupStep::CreateDevice, SetupStep::CreateSymbolicLink],
        in_setup_order(r@),
{
    let mut v: Vec<SetupStep> = Vec::new();
    v.push(SetupStep::CreateDevice);
    v.push(SetupStep::CreateSymbolicLink);
    assert(v@ =~= seq![SetupStep::CreateDevice, SetupStep::CreateSymbolicLink]);
    v
}

} // verus!
