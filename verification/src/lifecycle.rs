//! The machine's life-cycle states and the transitions between them.
//!
//! A transition is checked against the machine's current state, turned into
//! a plan of per-vCPU operations in ascending index order, and handed to the
//! host one action at a time. The state variable changes only here, and only
//! once every vCPU has acknowledged the operation.

use vstd::prelude::*;
use crate::error::MachineError;
use crate::error::MachineErrorView;
use crate::pipeline::Action;
use crate::pipeline::Pipeline;
use crate::pipeline::PipelineView;
use crate::pipeline::outcome_view;

verus! {

/// The single authoritative state of a machine.
#[derive(Clone, Copy, Debug, PartialEq, Eq, Structural)]
pub enum MachineState {
    Created,
    Running,
    Paused,
    Shutdown,
}

/// The operation a transition applies to every vCPU, in index order.
#[derive(Clone, Copy, Debug, PartialEq, Eq, Structural)]
pub enum VcpuOp {
    /// Start the vCPU's thread; with `paused` it waits at its first pause point.
    Start { paused: bool },
    Pause,
    Resume,
    Destroy,
}

/// The per-vCPU operation behind a requested state change, if the change is legal.
pub open spec fn transition_op(old_state: MachineState, new_state: MachineState) -> Option<VcpuOp> {
    match (old_state, new_state) {
        (MachineState::Created, MachineState::Running) => Some(VcpuOp::Start { paused: false }),
        (MachineState::Running, MachineState::Paused) => Some(VcpuOp::Pause),
        (MachineState::Paused, MachineState::Running) => Some(VcpuOp::Resume),
        (_, MachineState::Shutdown) => Some(VcpuOp::Destroy),
        _ => None,
    }
}

/// The state a machine is in once the operation has reached every vCPU.
pub open spec fn target_state(op: VcpuOp) -> MachineState {
    match op {
        VcpuOp::Start { paused } => if paused {
            MachineState::Paused
        } else {
            MachineState::Running
        },
        VcpuOp::Pause => MachineState::Paused,
        VcpuOp::Resume => MachineState::Running,
        VcpuOp::Destroy => MachineState::Shutdown,
    }
}

/// A legal transition arrives in the state that was asked for.
pub proof fn lemma_transition_reaches_request(old_state: MachineState, new_state: MachineState)
    requires
        transition_op(old_state, new_state) is Some,
    ensures
        target_state(transition_op(old_state, new_state)->0) == new_state,
{
}

/// The operation applied to the vCPUs `0..n`, in ascending order.
pub open spec fn vcpu_sweep(op: VcpuOp, n: nat) -> Seq<Action> {
    Seq::new(n, |i: int| Action::Vcpu { op, index: i as u8 })
}

/// What a transition asks of the host, in order.
///
/// Starting creates a barrier for every vCPU thread and the caller, starts
/// the vCPUs and waits at the barrier. Pausing pauses the vCPUs and then
/// stops the external interrupt controller where the platform has one.
/// Resuming and destroying only visit the vCPUs.
pub open spec fn lifecycle_plan(op: VcpuOp, nr_vcpus: u8, irq_chip: bool) -> Seq<Action> {
    match op {
        VcpuOp::Start { paused } => seq![Action::PrepareBarrier { parties: (nr_vcpus + 1) as u16 }]
            + vcpu_sweep(op, nr_vcpus as nat) + seq![Action::WaitBarrier],
        VcpuOp::Pause => if irq_chip {
            vcpu_sweep(op, nr_vcpus as nat) + seq![Action::StopInterruptController]
        } else {
            vcpu_sweep(op, nr_vcpus as nat)
        },
        VcpuOp::Resume => vcpu_sweep(op, nr_vcpus as nat),
        VcpuOp::Destroy => vcpu_sweep(op, nr_vcpus as nat),
    }
}

/// How many actions of the plan come before the state changes: all of them,
/// except the wait at the startup barrier, which follows the change.
pub open spec fn commit_point(op: VcpuOp, nr_vcpus: u8, irq_chip: bool) -> nat {
    match op {
        VcpuOp::Start { paused } => (nr_vcpus + 1) as nat,
        _ => lifecycle_plan(op, nr_vcpus, irq_chip).len(),
    }
}

/// A transition under way.
pub struct TransferView {
    /// The plan and the host's progress with it.
    pub run: PipelineView,
    /// The state the machine was in when the transition began.
    pub from: MachineState,
    /// The state the machine enters.
    pub target: MachineState,
    /// The number of performed actions from which on the state is changed.
    pub commit_at: nat,
}

impl TransferView {
    /// A fresh transition for `nr_vcpus` vCPUs.
    pub open spec fn begin(op: VcpuOp, nr_vcpus: u8, irq_chip: bool, from: MachineState) -> TransferView {
        TransferView {
            run: PipelineView::start(lifecycle_plan(op, nr_vcpus, irq_chip), None),
            from,
            target: target_state(op),
            commit_at: commit_point(op, nr_vcpus, irq_chip),
        }
    }

    /// The plan is well formed, the state changes inside it, and no action
    /// after the change can fail.
    pub open spec fn wf(self) -> bool {
        &&& self.run.wf()
        &&& self.run.unsupported is None
        &&& self.commit_at <= self.run.steps.len()
        &&& forall|i: int|
            self.commit_at <= i < self.run.steps.len() ==> (#[trigger] self.run.steps[i]).failure()
                is None
    }

    /// The state change has happened.
    pub open spec fn committed(self) -> bool {
        !self.run.failed && self.run.done >= self.commit_at
    }

    /// The state of the machine at this point of the transition, given the
    /// state it was in before the last report.
    pub open spec fn settle(self, state: MachineState) -> MachineState {
        if self.committed() {
            self.target
        } else {
            state
        }
    }

    /// The transition after the host reported on the pending action.
    pub open spec fn record(self, succeeded: bool) -> TransferView {
        TransferView { run: self.run.record(succeeded), ..self }
    }

    /// The transition after a series of reports.
    pub open spec fn run_all(self, reports: Seq<bool>) -> TransferView {
        TransferView { run: self.run.run(reports), ..self }
    }

    /// The state of the machine after a series of reports.
    pub open spec fn state_after(self, state: MachineState, reports: Seq<bool>) -> MachineState
        decreases reports.len(),
    {
        if reports.len() == 0 {
            state
        } else {
            let next = self.record(reports[0]);
            next.state_after(next.settle(state), reports.drop_first())
        }
    }

    /// How the transition ended, seen from a machine in `state`; `None`
    /// while an action is pending. A failed vCPU operation is reported with
    /// the vCPU's index; a transition that ran through without the machine
    /// being in the target state is a consistency error.
    pub open spec fn result(self, state: MachineState) -> Option<Result<(), MachineErrorView>> {
        if self.run.result() != Some(Ok::<(), MachineErrorView>(())) {
            self.run.result()
        } else if state != self.target {
            Some(Err(MachineErrorView::TransferFailed(self.from, self.target)))
        } else {
            Some(Ok(()))
        }
    }
}

/// The plans of all transitions are well formed.
pub proof fn lemma_begin_wf(op: VcpuOp, nr_vcpus: u8, irq_chip: bool, from: MachineState)
    ensures
        TransferView::begin(op, nr_vcpus, irq_chip, from).wf(),
{
    let t = TransferView::begin(op, nr_vcpus, irq_chip, from);
    assert(t.commit_at <= t.run.steps.len());
    assert forall|i: int| t.commit_at <= i < t.run.steps.len() implies (
    #[trigger] t.run.steps[i]).failure() is None by {
        match op {
            VcpuOp::Start { paused } => {
                assert(t.run.steps[i] == Action::WaitBarrier);
            },
            VcpuOp::Pause => {
                if irq_chip {
                    assert(t.run.steps[i] == Action::StopInterruptController);
                }
            },
            _ => {},
        }
    }
}

/// The actions of a transition visit the vCPUs in ascending index order:
/// the `i`-th vCPU operation of the plan is for vCPU `i`.
pub proof fn lemma_plan_visits_in_order(op: VcpuOp, nr_vcpus: u8, irq_chip: bool, i: int)
    requires
        0 <= i < nr_vcpus,
    ensures
        ({
            let plan = lifecycle_plan(op, nr_vcpus, irq_chip);
            let first = if op is Start {
                1int
            } else {
                0int
            };
            &&& first + nr_vcpus <= plan.len()
            &&& plan[first + i] == (Action::Vcpu { op, index: i as u8 })
        }),
{
}

/// A transition that has failed leaves the state where it was.
///
/// Whatever the host reports, as long as the transition has not seen every
/// action up to the state change succeed, the machine is still in the state
/// it was given in; and once it has failed, it never changes the state.
pub proof fn lemma_state_changes_only_on_success(
    t: TransferView,
    state: MachineState,
    reports: Seq<bool>,
)
    requires
        t.wf(),
        !t.committed(),
    ensures
        t.run_all(reports).wf(),
        t.state_after(state, reports) == t.run_all(reports).settle(state),
        t.run_all(reports).run.failed ==> t.state_after(state, reports) == state,
    decreases reports.len(),
{
    if reports.len() > 0 {
        let next = t.record(reports[0]);
        let rest = reports.drop_first();
        assert(t.run_all(reports) == next.run_all(rest));
        if next.committed() {
            lemma_committed_stays(next, rest);
        } else {
            lemma_state_changes_only_on_success(next, state, rest);
        }
    }
}

/// Once the state has changed, no report changes it again or makes the
/// transition fail.
pub proof fn lemma_committed_stays(t: TransferView, reports: Seq<bool>)
    requires
        t.wf(),
        t.committed(),
    ensures
        t.run_all(reports).wf(),
        t.run_all(reports).committed(),
        t.state_after(t.target, reports) == t.target,
    decreases reports.len(),
{
    if reports.len() > 0 {
        let next = t.record(reports[0]);
        let rest = reports.drop_first();
        assert(t.run_all(reports) == next.run_all(rest));
        if t.run.done < t.run.steps.len() {
            assert(t.run.steps[t.run.done as int].failure() is None);
        }
        lemma_committed_stays(next, rest);
    }
}

/// A legal transition succeeds when every action succeeds.
///
/// Let a machine in state `old_state` begin a legal transition to
/// `new_state`. If the host reports success for every action of the plan,
/// the transition ends without error and the machine is in `new_state`.
pub proof fn lemma_legal_transition_succeeds(
    old_state: MachineState,
    new_state: MachineState,
    nr_vcpus: u8,
    irq_chip: bool,
    reports: Seq<bool>,
)
    requires
        transition_op(old_state, new_state) is Some,
        reports.len() >= lifecycle_plan(
            transition_op(old_state, new_state)->0,
            nr_vcpus,
            irq_chip,
        ).len(),
        forall|i: int| 0 <= i < reports.len() ==> reports[i],
    ensures
        ({
            let op = transition_op(old_state, new_state)->0;
            let t = TransferView::begin(op, nr_vcpus, irq_chip, old_state);
            let state = t.state_after(t.settle(old_state), reports);
            &&& state == new_state
            &&& t.run_all(reports).result(state) == Some(Ok::<(), MachineErrorView>(()))
        }),
{
    let op = transition_op(old_state, new_state)->0;
    let t = TransferView::begin(op, nr_vcpus, irq_chip, old_state);
    lemma_begin_wf(op, nr_vcpus, irq_chip, old_state);
    crate::pipeline::lemma_all_succeed(t.run, reports);
    if t.committed() {
        lemma_committed_stays(t, reports);
    } else {
        lemma_state_changes_only_on_success(t, old_state, reports);
    }
}

/// The first failed vCPU ends the transition and is the one reported.
///
/// Let a machine begin a legal transition, and let the host's first failure
/// report fall on the operation for vCPU `k`. Then the transition ends with
/// the error that names `k`; the vCPUs below `k` have been operated on and
/// are not rolled back; no vCPU above `k` is reached; and the machine is
/// still in the state it was in.
pub proof fn lemma_first_failed_vcpu_is_reported(
    op: VcpuOp,
    nr_vcpus: u8,
    irq_chip: bool,
    from: MachineState,
    k: u8,
    reports: Seq<bool>,
)
    requires
        k < nr_vcpus,
        crate::pipeline::first_failure(reports) == k + (if op is Start {
            1int
        } else {
            0int
        }),
        crate::pipeline::first_failure(reports) < reports.len(),
    ensures
        ({
            let t = TransferView::begin(op, nr_vcpus, irq_chip, from);
            let end = t.run_all(reports);
            let first = if op is Start {
                1int
            } else {
                0int
            };
            let state = t.state_after(t.settle(from), reports);
            &&& end.run.pending() is None
            &&& end.result(state) == Some(
                Err::<(), MachineErrorView>(crate::error::vcpu_failure(op, k)),
            )
            &&& end.run.performed() == lifecycle_plan(op, nr_vcpus, irq_chip).take(first + k)
            &&& end.run.issued() == lifecycle_plan(op, nr_vcpus, irq_chip).take(first + k + 1)
            &&& state == from
        }),
{
    let t = TransferView::begin(op, nr_vcpus, irq_chip, from);
    let first = if op is Start {
        1int
    } else {
        0int
    };
    lemma_begin_wf(op, nr_vcpus, irq_chip, from);
    lemma_plan_visits_in_order(op, nr_vcpus, irq_chip, k as int);
    crate::pipeline::lemma_fails_at(t.run, reports);
    assert(!t.committed());
    lemma_state_changes_only_on_success(t, from, reports);
}

/// Reporting once more is recording after the run so far, for the plan
/// and for the state.
pub proof fn lemma_report_once_more(
    t: TransferView,
    state: MachineState,
    reports: Seq<bool>,
    last: bool,
)
    ensures
        t.run_all(reports.push(last)) == t.run_all(reports).record(last),
        t.state_after(state, reports.push(last)) == t.run_all(reports).record(last).settle(
            t.state_after(state, reports),
        ),
    decreases reports.len(),
{
    if reports.len() == 0 {
        assert(reports.push(last).drop_first() =~= Seq::<bool>::empty());
        assert(t.run.run(reports.push(last)) == t.run.record(last).run(Seq::<bool>::empty()));
        assert(t.state_after(state, reports.push(last)) == t.record(last).state_after(
            t.record(last).settle(state),
            Seq::<bool>::empty(),
        ));
    } else {
        let next = t.record(reports[0]);
        assert(reports.push(last).drop_first() =~= reports.drop_first().push(last));
        assert(t.run_all(reports) == next.run_all(reports.drop_first()));
        assert(t.run_all(reports.push(last)) == next.run_all(reports.drop_first().push(last)));
        lemma_report_once_more(next, next.settle(state), reports.drop_first(), last);
    }
}

/// A transition was carried out to its end: under some series of reports
/// no action is left pending, the machine went from `state` to `end_state`,
/// and `r` is how the transition ended there.
pub open spec fn transfer_ends_as(
    t: TransferView,
    state: MachineState,
    r: Result<(), MachineError>,
    end_state: MachineState,
) -> bool {
    exists|reports: Seq<bool>|
        {
            let end = #[trigger] t.run_all(reports);
            &&& end.run.pending() is None
            &&& end_state == t.state_after(state, reports)
            &&& end.result(end_state) == Some(crate::pipeline::result_view(r))
        }
}

/// A fresh transition that was carried out to its end either arrived or
/// changed nothing: it ends well with the machine in the target state, or
/// with the error of a vCPU operation and the machine in the state it was in.
pub proof fn lemma_arrives_or_stays(
    op: VcpuOp,
    nr_vcpus: u8,
    irq_chip: bool,
    from: MachineState,
    r: Result<(), MachineError>,
    end_state: MachineState,
)
    requires
        transfer_ends_as(
            TransferView::begin(op, nr_vcpus, irq_chip, from),
            TransferView::begin(op, nr_vcpus, irq_chip, from).settle(from),
            r,
            end_state,
        ),
    ensures
        r is Ok ==> end_state == target_state(op),
        r is Err ==> end_state == from && exists|k: u8|
            k < nr_vcpus && r->Err_0@ == #[trigger] crate::error::vcpu_failure(op, k),
{
    let t = TransferView::begin(op, nr_vcpus, irq_chip, from);
    let reports = choose|reports: Seq<bool>|
        {
            let end = #[trigger] t.run_all(reports);
            &&& end.run.pending() is None
            &&& end_state == t.state_after(t.settle(from), reports)
            &&& end.result(end_state) == Some(crate::pipeline::result_view(r))
        };
    let end = t.run_all(reports);
    lemma_begin_wf(op, nr_vcpus, irq_chip, from);
    crate::pipeline::lemma_run_keeps_plan(t.run, reports);
    if t.committed() {
        lemma_committed_stays(t, reports);
    } else {
        lemma_state_changes_only_on_success(t, from, reports);
        if end.run.failed {
            let at = end.run.done as int;
            let first = if op is Start {
                1int
            } else {
                0int
            };
            assert(end.run.steps[at].failure() is Some);
            assert(first <= at < first + nr_vcpus);
            lemma_plan_visits_in_order(op, nr_vcpus, irq_chip, at - first);
            let k = (at - first) as u8;
            assert(r->Err_0@ == crate::error::vcpu_failure(op, k));
        }
    }
}

/// A transition in the hands of the host.
#[derive(Debug)]
pub struct Transfer {
    run: Pipeline,
    from: MachineState,
    target: MachineState,
    commit_at: usize,
}

impl View for Transfer {
    type V = TransferView;

    closed spec fn view(&self) -> TransferView {
        TransferView {
            run: self.run@,
            from: self.from,
            target: self.target,
            commit_at: self.commit_at as nat,
        }
    }
}

/// The state a machine is in once the operation has reached every vCPU.
pub fn target_of(op: VcpuOp) -> (state: MachineState)
    ensures
        state == target_state(op),
{
    match op {
        VcpuOp::Start { paused } => if paused {
            MachineState::Paused
        } else {
            MachineState::Running
        },
        VcpuOp::Pause => MachineState::Paused,
        VcpuOp::Resume => MachineState::Running,
        VcpuOp::Destroy => MachineState::Shutdown,
    }
}

/// Decides which per-vCPU operation a state change stands for.
pub fn dispatch(old_state: MachineState, new_state: MachineState) -> (op: Option<VcpuOp>)
    ensures
        op == transition_op(old_state, new_state),
{
    match (old_state, new_state) {
        (MachineState::Created, MachineState::Running) => Some(VcpuOp::Start { paused: false }),
        (MachineState::Running, MachineState::Paused) => Some(VcpuOp::Pause),
        (MachineState::Paused, MachineState::Running) => Some(VcpuOp::Resume),
        (_, MachineState::Shutdown) => Some(VcpuOp::Destroy),
        _ => None,
    }
}

/// Appends the operation for the vCPUs `0..nr_vcpus` to a plan.
fn push_sweep(steps: &mut Vec<Action>, op: VcpuOp, nr_vcpus: u8)
    requires
        old(steps)@.len() <= 1,
    ensures
        final(steps)@ == old(steps)@ + vcpu_sweep(op, nr_vcpus as nat),
{
    let ghost before = steps@;
    let mut i: u8 = 0;
    assert(steps@ =~= before + vcpu_sweep(op, 0));
    while i < nr_vcpus
        invariant
            i <= nr_vcpus,
            before.len() <= 1,
            steps@ == before + vcpu_sweep(op, i as nat),
        decreases nr_vcpus - i,
    {
        steps.push(Action::Vcpu { op, index: i });
        assert(steps@ =~= before + vcpu_sweep(op, (i + 1) as nat));
        i = i + 1;
    }
}

/// The plan of a transition.
pub fn lifecycle_steps(op: VcpuOp, nr_vcpus: u8, irq_chip: bool) -> (steps: Vec<Action>)
    ensures
        steps@ == lifecycle_plan(op, nr_vcpus, irq_chip),
{
    let mut steps: Vec<Action> = Vec::new();
    match op {
        VcpuOp::Start { paused } => {
            steps.push(Action::PrepareBarrier { parties: nr_vcpus as u16 + 1 });
            assert(steps@ =~= seq![Action::PrepareBarrier { parties: (nr_vcpus + 1) as u16 }]);
            push_sweep(&mut steps, op, nr_vcpus);
            steps.push(Action::WaitBarrier);
            assert(steps@ =~= lifecycle_plan(op, nr_vcpus, irq_chip));
        },
        VcpuOp::Pause => {
            push_sweep(&mut steps, op, nr_vcpus);
            if irq_chip {
                steps.push(Action::StopInterruptController);
            }
            assert(steps@ =~= lifecycle_plan(op, nr_vcpus, irq_chip));
        },
        VcpuOp::Resume => {
            push_sweep(&mut steps, op, nr_vcpus);
            assert(steps@ =~= lifecycle_plan(op, nr_vcpus, irq_chip));
        },
        VcpuOp::Destroy => {
            push_sweep(&mut steps, op, nr_vcpus);
            assert(steps@ =~= lifecycle_plan(op, nr_vcpus, irq_chip));
        },
    }
    steps
}

impl Transfer {
    /// Begins the operation `op` on a machine with `nr_vcpus` vCPUs,
    /// whatever state the machine is in. With nothing to do before the
    /// state change, the state changes at once.
    fn begin(op: VcpuOp, nr_vcpus: u8, irq_chip: bool, vm_state: &mut MachineState) -> (t: Transfer)
        ensures
            t@ == TransferView::begin(op, nr_vcpus, irq_chip, *old(vm_state)),
            t@.wf(),
            *final(vm_state) == t@.settle(*old(vm_state)),
    {
        let steps = lifecycle_steps(op, nr_vcpus, irq_chip);
        let commit_at: usize = match op {
            VcpuOp::Start { paused } => nr_vcpus as usize + 1,
            _ => steps.len(),
        };
        proof {
            lemma_begin_wf(op, nr_vcpus, irq_chip, *vm_state);
        }
        let t = Transfer {
            run: Pipeline::new(steps, None),
            from: *vm_state,
            target: target_of(op),
            commit_at,
        };
        if commit_at == 0 {
            *vm_state = t.target;
        }
        t
    }

    /// The action to perform next; `None` once the transition has ended.
    pub fn pending(&self) -> (action: Option<Action>)
        ensures
            action == self@.run.pending(),
            self@.run.wf(),
    {
        self.run.pending()
    }

    /// Takes the host's report on the pending action. The machine enters
    /// the target state with the report that completes the last action
    /// before the state change, and with no other.
    pub fn record(&mut self, succeeded: bool, vm_state: &mut MachineState)
        ensures
            final(self)@ == old(self)@.record(succeeded),
            old(self)@.wf() ==> final(self)@.wf(),
            *final(vm_state) == final(self)@.settle(*old(vm_state)),
    {
        let ghost before = self@;
        self.run.record(succeeded);
        proof {
            assert(self@.run == before.run.record(succeeded));
        }
        if self.run.result_is_clean() && self.run.completed() >= self.commit_at {
            *vm_state = self.target;
        }
    }

    /// How the transition ended for a machine in `vm_state`; `None` while
    /// an action is pending.
    pub fn result(&self, vm_state: &MachineState) -> (outcome: Option<Result<(), MachineError>>)
        ensures
            outcome_view(outcome) == self@.result(*vm_state),
    {
        match self.run.result() {
            Some(Ok(())) => {
                if *vm_state != self.target {
                    Some(Err(MachineError::TransferFailed(self.from, self.target)))
                } else {
                    Some(Ok(()))
                }
            },
            other => other,
        }
    }
}

/// Starts every vCPU of a machine, to run or to wait paused.
///
/// The startup barrier has one party for each vCPU thread and one for the
/// caller, who waits at it after the state has changed.
pub fn vm_start(paused: bool, nr_vcpus: u8, vm_state: &mut MachineState) -> (t: Transfer)
    ensures
        t@ == TransferView::begin(VcpuOp::Start { paused }, nr_vcpus, false, *old(vm_state)),
        t@.wf(),
        *final(vm_state) == *old(vm_state),
{
    Transfer::begin(VcpuOp::Start { paused }, nr_vcpus, false, vm_state)
}

/// Pauses every vCPU of a machine and, where the platform has an external
/// interrupt controller (`irq_chip`), stops it afterwards.
pub fn vm_pause(nr_vcpus: u8, irq_chip: bool, vm_state: &mut MachineState) -> (t: Transfer)
    ensures
        t@ == TransferView::begin(VcpuOp::Pause, nr_vcpus, irq_chip, *old(vm_state)),
        t@.wf(),
        *final(vm_state) == t@.settle(*old(vm_state)),
{
    Transfer::begin(VcpuOp::Pause, nr_vcpus, irq_chip, vm_state)
}

/// Resumes every vCPU of a machine.
pub fn vm_resume(nr_vcpus: u8, vm_state: &mut MachineState) -> (t: Transfer)
    ensures
        t@ == TransferView::begin(VcpuOp::Resume, nr_vcpus, false, *old(vm_state)),
        t@.wf(),
        *final(vm_state) == t@.settle(*old(vm_state)),
{
    Transfer::begin(VcpuOp::Resume, nr_vcpus, false, vm_state)
}

/// Destroys every vCPU of a machine.
pub fn vm_destroy(nr_vcpus: u8, vm_state: &mut MachineState) -> (t: Transfer)
    ensures
        t@ == TransferView::begin(VcpuOp::Destroy, nr_vcpus, false, *old(vm_state)),
        t@.wf(),
        *final(vm_state) == t@.settle(*old(vm_state)),
{
    Transfer::begin(VcpuOp::Destroy, nr_vcpus, false, vm_state)
}

/// What a request to leave `old_state` for `new_state` comes to for a
/// machine in `state`: a refusal, or the operation to apply to the vCPUs.
pub open spec fn transfer_request(
    state: MachineState,
    old_state: MachineState,
    new_state: MachineState,
) -> Result<VcpuOp, MachineErrorView> {
    if state != old_state {
        Err(MachineErrorView::StateCheckFailed)
    } else if transition_op(old_state, new_state) is None {
        Err(MachineErrorView::IllegalTransition)
    } else {
        Ok(transition_op(old_state, new_state)->0)
    }
}

/// Begins the transition of a machine from `old_state` to `new_state`.
///
/// A machine that is not in `old_state` refuses, and so does one asked for
/// a change that no transition makes; a refusal leaves the state as it is
/// and hands out no action. Otherwise the transition begins, with the plan
/// of the operation that the change stands for.
pub fn vm_state_transfer(
    nr_vcpus: u8,
    irq_chip: bool,
    vm_state: &mut MachineState,
    old_state: MachineState,
    new_state: MachineState,
) -> (r: Result<Transfer, MachineError>)
    ensures
        match r {
            Ok(t) => {
                &&& transfer_request(*old(vm_state), old_state, new_state) is Ok
                &&& t@ == TransferView::begin(
                    transition_op(old_state, new_state)->0,
                    nr_vcpus,
                    irq_chip,
                    old_state,
                )
                &&& t@.wf()
                &&& t@.target == new_state
                &&& *final(vm_state) == t@.settle(old_state)
            },
            Err(e) => {
                &&& transfer_request(*old(vm_state), old_state, new_state) == Err::<
                    VcpuOp,
                    MachineErrorView,
                >(e@)
                &&& *final(vm_state) == *old(vm_state)
            },
        },
{
    if *vm_state != old_state {
        return Err(MachineError::StateCheckFailed);
    }
    match dispatch(old_state, new_state) {
        Some(op) => Ok(Transfer::begin(op, nr_vcpus, irq_chip, vm_state)),
        None => Err(MachineError::IllegalTransition),
    }
}

} // verus!
