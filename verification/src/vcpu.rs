//! Creation of the logical CPUs of a machine.

use vstd::prelude::*;
use crate::pipeline::Action;
use crate::pipeline::Pipeline;
use crate::pipeline::PipelineView;

verus! {

/// One virtual CPU of a machine: its index and the hypervisor descriptor it
/// is bound to.
#[derive(Clone, Copy, Debug, PartialEq, Eq, Structural)]
pub struct LogicalCPU {
    /// Index of the vCPU, counted from zero.
    pub id: u8,
    /// The hypervisor's file descriptor of the vCPU.
    pub fd: i32,
    /// Number of vCPUs of the machine the vCPU belongs to.
    pub nr_cpus: u8,
}

/// The vCPUs `0..n` of a machine with `nr_cpus` vCPUs, each bound to the
/// descriptor of its index.
pub open spec fn logical_cpus(nr_cpus: u8, fds: Seq<i32>) -> Seq<LogicalCPU> {
    Seq::new(nr_cpus as nat, |i: int| LogicalCPU { id: i as u8, fd: fds[i], nr_cpus })
}

/// The registration of the vCPUs `0..n` for migration, in index order.
pub open spec fn register_steps(n: nat) -> Seq<Action> {
    Seq::new(n, |i: int| Action::RegisterVcpu { index: i as u8 })
}

/// The initialization of the registers of the vCPUs `0..n`, in index order.
pub open spec fn realize_steps(n: nat) -> Seq<Action> {
    Seq::new(n, |i: int| Action::RealizeVcpu { index: i as u8 })
}

/// What creating the vCPUs asks of the host: every vCPU is registered for
/// migration; with a boot configuration the registers of every vCPU are
/// then initialized from it.
pub open spec fn vcpu_plan(nr_cpus: u8, boot: bool) -> Seq<Action> {
    if boot {
        register_steps(nr_cpus as nat) + realize_steps(nr_cpus as nat)
    } else {
        register_steps(nr_cpus as nat)
    }
}

/// Every vCPU is registered for migration exactly once, with or without a
/// boot configuration, and before any register is initialized.
pub proof fn lemma_each_vcpu_registered_once(nr_cpus: u8, boot: bool, index: u8)
    requires
        index < nr_cpus,
    ensures
        ({
            let plan = vcpu_plan(nr_cpus, boot);
            &&& plan[index as int] == Action::RegisterVcpu { index }
            &&& forall|i: int|
                0 <= i < plan.len() && #[trigger] plan[i] == (Action::RegisterVcpu { index }) ==> i
                    == index
            &&& forall|i: int|
                0 <= i < plan.len() && #[trigger] plan[i] is RealizeVcpu ==> i >= nr_cpus
            &&& boot ==> plan[nr_cpus + index] == Action::RealizeVcpu { index }
        }),
{
}

/// The first vCPU whose registers cannot be initialized ends the creation
/// and is the one reported; the vCPUs before it stay initialized.
pub proof fn lemma_first_unrealized_vcpu_is_reported(nr_cpus: u8, k: u8, reports: Seq<bool>)
    requires
        k < nr_cpus,
        crate::pipeline::first_failure(reports) == nr_cpus + k,
        crate::pipeline::first_failure(reports) < reports.len(),
    ensures
        ({
            let plan = vcpu_plan(nr_cpus, true);
            let end = PipelineView::start(plan, None).run(reports);
            &&& end.result() == Some(
                Err::<(), crate::error::MachineErrorView>(
                    crate::error::MachineErrorView::RealizeVcpuErr(k),
                ),
            )
            &&& end.performed() == plan.take(nr_cpus + k)
            &&& end.pending() is None
        }),
{
    let plan = vcpu_plan(nr_cpus, true);
    lemma_each_vcpu_registered_once(nr_cpus, true, k);
    crate::pipeline::lemma_fails_at(PipelineView::start(plan, None), reports);
}

/// Creates the logical CPUs of a machine and plans their registration and
/// initialization.
///
/// `fds` holds the hypervisor's descriptor of each vCPU, by index. With
/// `boot` the registers of every vCPU are initialized from the boot
/// configuration; without it they are left for a migration to fill.
pub fn init_vcpu(nr_cpus: u8, fds: &Vec<i32>, boot: bool) -> (created: (Vec<LogicalCPU>, Pipeline))
    requires
        fds@.len() >= nr_cpus,
    ensures
        created.0@ == logical_cpus(nr_cpus, fds@),
        created.1@ == PipelineView::start(vcpu_plan(nr_cpus, boot), None),
{
    let mut cpus: Vec<LogicalCPU> = Vec::new();
    let mut steps: Vec<Action> = Vec::new();
    let mut vcpu_id: u8 = 0;
    while vcpu_id < nr_cpus
        invariant
            vcpu_id <= nr_cpus,
            fds@.len() >= nr_cpus,
            cpus@ == logical_cpus(nr_cpus, fds@).take(vcpu_id as int),
            steps@ == register_steps(vcpu_id as nat),
        decreases nr_cpus - vcpu_id,
    {
        cpus.push(LogicalCPU { id: vcpu_id, fd: fds[vcpu_id as usize], nr_cpus });
        steps.push(Action::RegisterVcpu { index: vcpu_id });
        assert(cpus@ =~= logical_cpus(nr_cpus, fds@).take(vcpu_id + 1));
        assert(steps@ =~= register_steps((vcpu_id + 1) as nat));
        vcpu_id = vcpu_id + 1;
    }
    assert(cpus@ =~= logical_cpus(nr_cpus, fds@));
    if boot {
        let mut cpu_index: u8 = 0;
        assert(steps@ =~= register_steps(nr_cpus as nat) + realize_steps(0));
        while cpu_index < nr_cpus
            invariant
                cpu_index <= nr_cpus,
                steps@ == register_steps(nr_cpus as nat) + realize_steps(cpu_index as nat),
            decreases nr_cpus - cpu_index,
        {
            steps.push(Action::RealizeVcpu { index: cpu_index });
            assert(steps@ =~= register_steps(nr_cpus as nat) + realize_steps(
                (cpu_index + 1) as nat,
            ));
            cpu_index = cpu_index + 1;
        }
    }
    (cpus, Pipeline::new(steps, None))
}

} // verus!
