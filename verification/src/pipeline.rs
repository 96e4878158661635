//! The outside work the core asks its host to perform, and the engine that
//! hands it out one action at a time.
//!
//! The core never touches the hypervisor, the address space or a device.
//! It computes an ordered plan of actions; the host performs the pending
//! action and reports how it went. A reported failure of an action that
//! can fail ends the plan on the spot: nothing after it is handed out and
//! nothing before it is undone.

use vstd::prelude::*;
use crate::error::DeviceKind;
use crate::error::MachineError;
use crate::error::MachineErrorView;
use crate::error::vcpu_failure;
use crate::lifecycle::VcpuOp;

verus! {

/// One unit of outside work.
#[allow(inconsistent_fields)]
#[derive(Clone, Copy, Debug, PartialEq, Eq, Structural)]
pub enum Action {
    /// Register the hypervisor's memory-slot listener with the memory address space.
    RegisterMemoryListener,
    /// Register the hypervisor's listener with the I/O address space.
    RegisterIoListener,
    /// Map host memory for every RAM range of the guest.
    MapGuestRam,
    /// Insert the mapped RAM range as a region at its base address.
    AddRamRegion { base: u64, size: u64 },
    /// Register the memory address space for live migration.
    RegisterMemoryInstance,
    /// Register the vCPU for live migration.
    RegisterVcpu { index: u8 },
    /// Initialize the vCPU's registers from the boot configuration.
    RealizeVcpu { index: u8 },
    /// Realize the `index`-th configured device of a category.
    AddDevice { kind: DeviceKind, index: usize },
    /// Read the arguments of the `index`-th generically declared device as
    /// those of a virtual-socket transport, and construct it.
    ConfigureVsock { index: usize },
    /// Realize the virtual-socket transport on the memory-mapped virtio bus.
    RealizeVirtioMmio { index: usize },
    /// Register the realized memory-mapped virtio device for live migration.
    RegisterVirtioMmio { index: usize },
    /// Register the virtual-socket transport for live migration.
    RegisterVsock { index: usize },
    /// Compile the allow-list and install it as a trapping filter.
    InstallFilter,
    /// Register the power button with the event loop.
    RegisterNotifier,
    /// Create the startup barrier for this many threads.
    PrepareBarrier { parties: u16 },
    /// Apply a life-cycle operation to the vCPU and wait for it to be acknowledged.
    Vcpu { op: VcpuOp, index: u8 },
    /// Stop the external interrupt controller.
    StopInterruptController,
    /// Wait at the startup barrier until every vCPU thread has arrived.
    WaitBarrier,
}

impl Action {
    /// The error that a failure of this action is reported as; `None` for
    /// the actions that cannot fail from the core's point of view.
    pub open spec fn failure(self) -> Option<MachineErrorView> {
        match self {
            Action::RegisterMemoryListener => Some(MachineErrorView::RegMemListenerErr),
            Action::RegisterIoListener => Some(MachineErrorView::RegIoListenerErr),
            Action::MapGuestRam => Some(MachineErrorView::MapRamErr),
            Action::AddRamRegion { base, size } => Some(
                MachineErrorView::RegMemRegionErr(base, size),
            ),
            Action::RegisterMemoryInstance => None,
            Action::RegisterVcpu { index } => None,
            Action::RealizeVcpu { index } => Some(MachineErrorView::RealizeVcpuErr(index)),
            Action::AddDevice { kind, index } => Some(MachineErrorView::AddDevErr(kind)),
            Action::ConfigureVsock { index } => Some(
                MachineErrorView::AddDevErr(DeviceKind::Vsock),
            ),
            Action::RealizeVirtioMmio { index } => Some(MachineErrorView::RlzVirtioMmioErr),
            Action::RegisterVirtioMmio { index } => None,
            Action::RegisterVsock { index } => None,
            Action::InstallFilter => Some(MachineErrorView::SeccompErr),
            Action::RegisterNotifier => Some(MachineErrorView::RegNotifierErr),
            Action::PrepareBarrier { parties } => None,
            Action::Vcpu { op, index } => Some(vcpu_failure(op, index)),
            Action::StopInterruptController => None,
            Action::WaitBarrier => None,
        }
    }

    /// The error to report when this action failed.
    pub fn on_failure(&self) -> (error: Option<MachineError>)
        ensures
            error_view(error) == self.failure(),
    {
        match *self {
            Action::RegisterMemoryListener => Some(MachineError::RegMemListenerErr),
            Action::RegisterIoListener => Some(MachineError::RegIoListenerErr),
            Action::MapGuestRam => Some(MachineError::MapRamErr),
            Action::AddRamRegion { base, size } => Some(MachineError::RegMemRegionErr(base, size)),
            Action::RegisterMemoryInstance => None,
            Action::RegisterVcpu { index } => None,
            Action::RealizeVcpu { index } => Some(MachineError::RealizeVcpuErr(index)),
            Action::AddDevice { kind, index } => Some(MachineError::AddDevErr(kind)),
            Action::ConfigureVsock { index } => Some(MachineError::AddDevErr(DeviceKind::Vsock)),
            Action::RealizeVirtioMmio { index } => Some(MachineError::RlzVirtioMmioErr),
            Action::RegisterVirtioMmio { index } => None,
            Action::RegisterVsock { index } => None,
            Action::InstallFilter => Some(MachineError::SeccompErr),
            Action::RegisterNotifier => Some(MachineError::RegNotifierErr),
            Action::PrepareBarrier { parties } => None,
            Action::Vcpu { op, index } => Some(
                match op {
                    VcpuOp::Start { paused } => MachineError::StartVcpuErr(index),
                    VcpuOp::Pause => MachineError::PauseVcpuErr(index),
                    VcpuOp::Resume => MachineError::ResumeVcpuErr(index),
                    VcpuOp::Destroy => MachineError::DestroyVcpuErr(index),
                },
            ),
            Action::StopInterruptController => None,
            Action::WaitBarrier => None,
        }
    }
}

/// The view of an optional error.
pub open spec fn error_view(error: Option<MachineError>) -> Option<MachineErrorView> {
    match error {
        Some(e) => Some(e@),
        None => None,
    }
}

/// The view of a result without a value.
pub open spec fn result_view(result: Result<(), MachineError>) -> Result<(), MachineErrorView> {
    match result {
        Ok(()) => Ok(()),
        Err(e) => Err(e@),
    }
}

/// The view of a result that may not be there yet.
pub open spec fn outcome_view(outcome: Option<Result<(), MachineError>>) -> Option<
    Result<(), MachineErrorView>,
> {
    match outcome {
        Some(result) => Some(result_view(result)),
        None => None,
    }
}

/// A plan and how far the host has come with it.
pub struct PipelineView {
    /// The actions, in the order in which they are handed out.
    pub steps: Seq<Action>,
    /// How many actions, from the front, have been performed.
    pub done: nat,
    /// The action at `done` was reported as failed.
    pub failed: bool,
    /// A device type the plan could not place: once every action is
    /// performed the plan ends in an error that names it.
    pub unsupported: Option<Seq<char>>,
}

impl PipelineView {
    /// A fresh plan.
    pub open spec fn start(steps: Seq<Action>, unsupported: Option<Seq<char>>) -> PipelineView {
        PipelineView { steps, done: 0, failed: false, unsupported }
    }

    /// The position lies inside the plan, and a plan fails only at an
    /// action that can fail.
    pub open spec fn wf(self) -> bool {
        &&& self.done <= self.steps.len()
        &&& self.failed ==> self.done < self.steps.len() && self.steps[self.done as int].failure()
            is Some
    }

    /// The action the host is to perform next, if any.
    pub open spec fn pending(self) -> Option<Action> {
        if self.failed || self.done >= self.steps.len() {
            None
        } else {
            Some(self.steps[self.done as int])
        }
    }

    /// The plan after the host reported on the pending action. Without a
    /// pending action nothing changes; a failure of an action that cannot
    /// fail is no failure.
    pub open spec fn record(self, succeeded: bool) -> PipelineView {
        if self.pending() is None {
            self
        } else if !succeeded && self.steps[self.done as int].failure() is Some {
            PipelineView { failed: true, ..self }
        } else {
            PipelineView { done: self.done + 1, ..self }
        }
    }

    /// The plan after a series of reports.
    pub open spec fn run(self, reports: Seq<bool>) -> PipelineView
        decreases reports.len(),
    {
        if reports.len() == 0 {
            self
        } else {
            self.record(reports[0]).run(reports.drop_first())
        }
    }

    /// How the plan ended, or `None` while an action is pending.
    pub open spec fn result(self) -> Option<Result<(), MachineErrorView>> {
        if self.failed {
            Some(Err(self.steps[self.done as int].failure()->0))
        } else if self.done < self.steps.len() {
            None
        } else {
            match self.unsupported {
                Some(name) => Some(Err(MachineErrorView::UnsupportedDevice(name))),
                None => Some(Ok(())),
            }
        }
    }

    /// The actions that were performed.
    pub open spec fn performed(self) -> Seq<Action> {
        self.steps.take(self.done as int)
    }

    /// The actions that were handed to the host: those performed and the
    /// one that failed.
    pub open spec fn issued(self) -> Seq<Action> {
        if self.failed {
            self.steps.take(self.done as int + 1)
        } else {
            self.steps.take(self.done as int)
        }
    }
}

/// Index of the first `false` among `reports`, or their number.
pub open spec fn first_failure(reports: Seq<bool>) -> nat
    decreases reports.len(),
{
    if reports.len() == 0 || !reports[0] {
        0
    } else {
        1 + first_failure(reports.drop_first())
    }
}

/// Reports change neither the actions of a plan nor what it could not place,
/// and leave it well formed.
pub proof fn lemma_run_keeps_plan(p: PipelineView, reports: Seq<bool>)
    requires
        p.wf(),
    ensures
        p.run(reports).wf(),
        p.run(reports).steps == p.steps,
        p.run(reports).unsupported == p.unsupported,
        p.run(reports).done >= p.done,
    decreases reports.len(),
{
    if reports.len() > 0 {
        lemma_run_keeps_plan(p.record(reports[0]), reports.drop_first());
    }
}

/// A plan that has failed stays as it is, whatever is reported afterwards.
pub proof fn lemma_failed_plan_is_final(p: PipelineView, reports: Seq<bool>)
    requires
        p.failed,
    ensures
        p.run(reports) == p,
    decreases reports.len(),
{
    if reports.len() > 0 {
        lemma_failed_plan_is_final(p.record(reports[0]), reports.drop_first());
    }
}

/// A plan ends at the action on which the first failure report falls, if
/// that action can fail.
///
/// Exactly the actions before it were performed, it is the last that was
/// handed out, and the result is its error, whatever is reported after it.
pub proof fn lemma_fails_at(p: PipelineView, reports: Seq<bool>)
    requires
        p.wf(),
        !p.failed,
        first_failure(reports) < reports.len(),
        p.done + first_failure(reports) < p.steps.len(),
        p.steps[(p.done + first_failure(reports)) as int].failure() is Some,
    ensures
        p.run(reports).failed,
        p.run(reports).done == p.done + first_failure(reports),
        p.run(reports).steps == p.steps,
        p.run(reports).unsupported == p.unsupported,
        p.run(reports).pending() is None,
        p.run(reports).result() == Some(
            Err::<(), MachineErrorView>(
                p.steps[(p.done + first_failure(reports)) as int].failure()->0,
            ),
        ),
        p.run(reports).performed() == p.steps.take((p.done + first_failure(reports)) as int),
        p.run(reports).issued() == p.steps.take((p.done + first_failure(reports) + 1) as int),
    decreases reports.len(),
{
    let next = p.record(reports[0]);
    let rest = reports.drop_first();
    if !reports[0] {
        lemma_failed_plan_is_final(next, rest);
    } else {
        lemma_fails_at(next, rest);
    }
}

/// A plan runs through when every report is a success and there are
/// reports enough.
pub proof fn lemma_all_succeed(p: PipelineView, reports: Seq<bool>)
    requires
        p.wf(),
        !p.failed,
        reports.len() >= p.steps.len() - p.done,
        forall|i: int| 0 <= i < reports.len() ==> reports[i],
    ensures
        !p.run(reports).failed,
        p.run(reports).done == p.steps.len(),
        p.run(reports).steps == p.steps,
        p.run(reports).unsupported == p.unsupported,
    decreases reports.len(),
{
    if reports.len() > 0 {
        let rest = reports.drop_first();
        assert forall|i: int| 0 <= i < rest.len() implies rest[i] by {
            assert(rest[i] == reports[i + 1]);
        }
        assert(reports[0]);
        lemma_all_succeed(p.record(reports[0]), rest);
    }
}

/// Reporting once more is recording after the run so far.
pub proof fn lemma_run_push(p: PipelineView, reports: Seq<bool>, last: bool)
    ensures
        p.run(reports.push(last)) == p.run(reports).record(last),
    decreases reports.len(),
{
    if reports.len() == 0 {
        assert(reports.push(last).drop_first() =~= Seq::<bool>::empty());
        assert(p.run(reports.push(last)) == p.record(last).run(Seq::<bool>::empty()));
    } else {
        assert(reports.push(last).drop_first() =~= reports.drop_first().push(last));
        lemma_run_push(p.record(reports[0]), reports.drop_first(), last);
    }
}

/// A plan was carried out to its end: under some series of reports no
/// action is left pending, and `r` is how the plan ended.
pub open spec fn ends_as(plan: PipelineView, r: Result<(), MachineError>) -> bool {
    exists|reports: Seq<bool>|
        {
            let end = #[trigger] plan.run(reports);
            end.pending() is None && end.result() == Some(result_view(r))
        }
}

/// A plan of one action ends with the report on that action.
pub proof fn lemma_single_action(action: Action, succeeded: bool, r: Result<(), MachineError>)
    requires
        result_view(r) == (if succeeded || action.failure() is None {
            Ok::<(), MachineErrorView>(())
        } else {
            Err::<(), MachineErrorView>(action.failure()->0)
        }),
    ensures
        ends_as(PipelineView::start(seq![action], None), r),
{
    let plan = PipelineView::start(seq![action], None);
    let reports = seq![succeeded];
    assert(reports.drop_first() =~= Seq::<bool>::empty());
    assert(plan.run(reports) == plan.record(succeeded).run(Seq::<bool>::empty()));
    let end = plan.run(reports);
    assert(end.pending() is None && end.result() == Some(result_view(r)));
}

/// How a plan can end.
///
/// A fresh plan that was carried out to its end and ended well had no
/// device it could not place, and every action of it was performed. One
/// that ended with an error ended with the error of one of its actions,
/// or, every action performed, with the error of the device it could not
/// place.
pub proof fn lemma_how_a_plan_ends(plan: PipelineView, r: Result<(), MachineError>)
    requires
        plan.wf(),
        !plan.failed,
        ends_as(plan, r),
    ensures
        r is Ok ==> plan.unsupported is None && exists|reports: Seq<bool>|
            (#[trigger] plan.run(reports)).performed() == plan.steps,
        r matches Err(e) ==> (exists|k: int|
            plan.done <= k < plan.steps.len() && (#[trigger] plan.steps[k]).failure() == Some(e@))
            || plan.unsupported == Some(e@->UnsupportedDevice_0),
{
    let reports = choose|reports: Seq<bool>|
        {
            let end = #[trigger] plan.run(reports);
            end.pending() is None && end.result() == Some(result_view(r))
        };
    let end = plan.run(reports);
    lemma_run_keeps_plan(plan, reports);
    if end.failed {
        assert(end.steps[end.done as int].failure() == Some(r->Err_0@));
    } else {
        assert(end.performed() =~= plan.steps);
    }
}

/// A plan in the hands of the host.
#[derive(Debug)]
pub struct Pipeline {
    steps: Vec<Action>,
    done: usize,
    failed: bool,
    unsupported: Option<String>,
}

impl View for Pipeline {
    type V = PipelineView;

    closed spec fn view(&self) -> PipelineView {
        PipelineView {
            steps: self.steps@,
            done: self.done as nat,
            failed: self.failed,
            unsupported: crate::config::text_view(self.unsupported),
        }
    }
}

impl Pipeline {
    #[verifier::type_invariant]
    spec fn inv(self) -> bool {
        self@.wf()
    }

    /// Puts a plan in the hands of the host. `unsupported`, if given, is
    /// the device type the plan ends in an error for.
    pub fn new(steps: Vec<Action>, unsupported: Option<String>) -> (pipeline: Pipeline)
        ensures
            pipeline@ == PipelineView::start(steps@, crate::config::text_view(unsupported)),
            pipeline@.wf(),
    {
        Pipeline { steps, done: 0, failed: false, unsupported }
    }

    /// The whole plan.
    pub fn steps(&self) -> (steps: &Vec<Action>)
        ensures
            steps@ == self@.steps,
    {
        &self.steps
    }

    /// How many actions have been performed.
    pub fn completed(&self) -> (done: usize)
        ensures
            done == self@.done,
            self@.wf(),
    {
        proof {
            use_type_invariant(self);
        }
        self.done
    }

    /// True as long as no action has failed.
    pub fn result_is_clean(&self) -> (clean: bool)
        ensures
            clean == !self@.failed,
    {
        !self.failed
    }

    /// The action to perform next; `None` once the plan has ended.
    pub fn pending(&self) -> (action: Option<Action>)
        ensures
            action == self@.pending(),
            self@.wf(),
    {
        proof {
            use_type_invariant(self);
        }
        if self.failed || self.done >= self.steps.len() {
            None
        } else {
            Some(self.steps[self.done])
        }
    }

    /// Takes the host's report on the pending action.
    pub fn record(&mut self, succeeded: bool)
        ensures
            final(self)@ == old(self)@.record(succeeded),
            final(self)@.wf(),
    {
        proof {
            use_type_invariant(&*self);
        }
        if self.failed || self.done >= self.steps.len() {
            return ;
        }
        let fallible = self.steps[self.done].on_failure().is_some();
        if !succeeded && fallible {
            self.failed = true;
        } else {
            self.done = self.done + 1;
        }
    }

    /// How the plan ended; `None` while an action is pending.
    pub fn result(&self) -> (outcome: Option<Result<(), MachineError>>)
        ensures
            outcome_view(outcome) == self@.result(),
            self@.wf(),
    {
        proof {
            use_type_invariant(self);
        }
        if self.failed {
            match self.steps[self.done].on_failure() {
                Some(error) => Some(Err(error)),
                None => None,
            }
        } else if self.done < self.steps.len() {
            None
        } else {
            match &self.unsupported {
                Some(name) => Some(Err(MachineError::UnsupportedDevice(name.clone()))),
                None => Some(Ok(())),
            }
        }
    }
}

} // verus!
