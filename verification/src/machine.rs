//! The operations of a machine.
//!
//! A machine type says how one unit of outside work is performed; the
//! orchestration is the same for all machine types and is written once,
//! here: the plans of the core are carried out action by action, and a
//! transition moves the machine's state while it is carried out.

use vstd::prelude::*;
use crate::config::VmConfig;
use crate::devices::device_plan;
use crate::devices::plan_bound;
use crate::error::MachineError;
use crate::lifecycle::MachineState;
use crate::lifecycle::Transfer;
use crate::lifecycle::VcpuOp;
use crate::lifecycle::lemma_arrives_or_stays;
use crate::lifecycle::lemma_report_once_more;
use crate::lifecycle::target_state;
use crate::lifecycle::transfer_ends_as;
use crate::lifecycle::transfer_request;
use crate::lifecycle::transition_op;
use crate::memory::GuestAddressSpace;
use crate::memory::PlatformProfile;
use crate::memory::mapped_ram;
use crate::memory::memory_plan;
use crate::pipeline::Action;
use crate::pipeline::Pipeline;
use crate::pipeline::PipelineView;
use crate::pipeline::ends_as;
use crate::pipeline::lemma_how_a_plan_ends;
use crate::pipeline::lemma_run_push;
use crate::pipeline::lemma_single_action;
use crate::pipeline::result_view;
use crate::power::EventNotifier;
use crate::power::power_plan;
use crate::seccomp::SyscallPolicy;
use crate::seccomp::seccomp_plan;
use crate::vcpu::LogicalCPU;
use crate::vcpu::logical_cpus;
use crate::vcpu::vcpu_plan;

verus! {

/// How building a machine ended: with the error of the first stage that
/// failed, the stages before it having ended well and the stages after it
/// not begun; or well, every stage having ended well.
pub open spec fn built_as(
    memory: PipelineView,
    vcpus: PipelineView,
    devices: PipelineView,
    filter: PipelineView,
    r: Result<(), MachineError>,
) -> bool {
    ||| r is Err && ends_as(memory, r)
    ||| r is Err && ends_as(memory, Ok(())) && ends_as(vcpus, r)
    ||| r is Err && ends_as(memory, Ok(())) && ends_as(vcpus, Ok(())) && ends_as(devices, r)
    ||| ends_as(memory, Ok(())) && ends_as(vcpus, Ok(())) && ends_as(devices, Ok(())) && ends_as(
        filter,
        r,
    )
}

/// A result without its value: how an operation ended.
pub open spec fn without_value<T>(r: Result<T, MachineError>) -> Result<(), MachineError> {
    match r {
        Ok(_) => Ok(()),
        Err(e) => Err(e),
    }
}

/// What a machine is able to do.
///
/// A machine type implements the first five operations: they reach the
/// hypervisor, the address space, the device models, the filter compiler
/// and the event loop, and nothing is promised of them. The others are the
/// same for every machine type and are built on the first.
pub trait MachineOps {
    /// A rule of the system-call filter.
    type Rule;

    /// Carries out one unit of outside work and tells whether it succeeded.
    fn perform(&mut self, action: Action) -> bool;

    /// The machine's own system-call allow-list.
    fn syscall_whitelist(&self) -> Vec<Self::Rule>;

    /// The system calls that only a memory balloon needs.
    fn balloon_allow_list(&self) -> Vec<Self::Rule>;

    /// Compiles a policy into a filter and installs it into the process;
    /// tells whether that succeeded.
    fn install_filter(&mut self, policy: &SyscallPolicy<Self::Rule>) -> bool;

    /// Hands a request to the event loop and tells whether it was taken.
    fn update_event(&mut self, notifier: EventNotifier) -> bool;

    /// Carries out a plan: performs the pending action and records how it
    /// went, until the plan has ended.
    fn carry_out(&mut self, pipeline: &mut Pipeline) -> (r: Result<(), MachineError>)
        ensures
            final(pipeline)@.pending() is None,
            final(pipeline)@.result() == Some(result_view(r)),
            exists|reports: Seq<bool>| #[trigger] old(pipeline)@.run(reports) == final(pipeline)@,
            ends_as(old(pipeline)@, r),
    {
        let ghost before = pipeline@;
        let ghost mut reports = Seq::<bool>::empty();
        loop
            invariant
                before.run(reports) == pipeline@,
            ensures
                pipeline@.pending() is None,
                before.run(reports) == pipeline@,
            decreases
                    (if pipeline@.failed {
                        0
                    } else {
                        pipeline@.steps.len() - pipeline@.done + 1
                    }),
        {
            let pending = pipeline.pending();
            match pending {
                None => {
                    break ;
                },
                Some(action) => {
                    let succeeded = self.perform(action);
                    proof {
                        lemma_run_push(before, reports, succeeded);
                        reports = reports.push(succeeded);
                    }
                    pipeline.record(succeeded);
                },
            }
        }
        let r = match pipeline.result() {
            Some(r) => r,
            None => Ok(()),
        };
        proof {
            let end = before.run(reports);
            assert(end.pending() is None && end.result() == Some(result_view(r)));
        }
        r
    }

    /// Builds the guest address space of a machine with `mem_size` bytes of
    /// RAM on the given platform.
    ///
    /// The hypervisor's listeners are registered before any RAM is mapped.
    /// The first action that fails ends the construction with its error;
    /// the address space is then not registered for migration and none is
    /// handed back. On success the address space holds the platform's RAM
    /// ranges; that of a migration target holds none.
    fn init_memory(&mut self, profile: &PlatformProfile, mem_size: u64, is_migrate: bool) -> (r:
        Result<GuestAddressSpace, MachineError>)
        requires
            profile.wf(),
            !is_migrate ==> profile.fits(mem_size),
        ensures
            r matches Ok(space) ==> space@ == mapped_ram(*profile, mem_size, is_migrate),
            ends_as(
                PipelineView::start(
                    memory_plan(
                        mapped_ram(*profile, mem_size, is_migrate),
                        profile.io_space,
                        is_migrate,
                    ),
                    None,
                ),
                without_value(r),
            ),
    {
        let mut pipeline = crate::memory::init_memory(profile, mem_size, is_migrate);
        match self.carry_out(&mut pipeline) {
            Ok(()) => Ok(
                if is_migrate {
                    GuestAddressSpace::new()
                } else {
                    crate::memory::guest_ram(profile, mem_size)
                },
            ),
            Err(e) => Err(e),
        }
    }

    /// Creates the vCPUs of a machine, registers each for migration and,
    /// with a boot configuration, initializes the registers of each.
    ///
    /// The first vCPU whose registers cannot be initialized ends the
    /// creation with an error that names it.
    fn init_vcpu(&mut self, nr_cpus: u8, fds: &Vec<i32>, boot: bool) -> (r: Result<
        Vec<LogicalCPU>,
        MachineError,
    >)
        requires
            fds@.len() >= nr_cpus,
        ensures
            match r {
                Ok(cpus) => cpus@ == logical_cpus(nr_cpus, fds@) && ends_as(
                    PipelineView::start(vcpu_plan(nr_cpus, boot), None),
                    Ok(()),
                ),
                Err(e) => ends_as(PipelineView::start(vcpu_plan(nr_cpus, boot), None), Err(e)),
            },
            !boot || nr_cpus == 0 ==> r is Ok,
    {
        let (cpus, mut pipeline) = crate::vcpu::init_vcpu(nr_cpus, fds, boot);
        match self.carry_out(&mut pipeline) {
            Ok(()) => Ok(cpus),
            Err(e) => {
                proof {
                    lemma_how_a_plan_ends(
                        PipelineView::start(vcpu_plan(nr_cpus, boot), None),
                        Err(e),
                    );
                }
                Err(e)
            },
        }
    }

    /// Realizes the devices of a configuration, in their fixed order.
    ///
    /// The first device that fails ends the pipeline with the error of its
    /// category; a generically declared device of an unknown type ends it
    /// with an error that names the type. Devices realized before are not
    /// torn down.
    fn add_devices(&mut self, vm_config: &VmConfig) -> (r: Result<(), MachineError>)
        requires
            plan_bound(*vm_config) <= usize::MAX,
        ensures
            ends_as(device_plan(*vm_config), r),
    {
        let mut pipeline = crate::devices::add_devices(vm_config);
        self.carry_out(&mut pipeline)
    }

    /// Installs the system-call filter: the machine's allow-list, extended
    /// by the balloon's rules when `balloon_enable` is set.
    fn register_seccomp(&mut self, balloon_enable: bool) -> (r: Result<(), MachineError>)
        ensures
            ends_as(PipelineView::start(seccomp_plan(), None), r),
    {
        let (policy, mut pipeline) = crate::seccomp::register_seccomp(
            self.syscall_whitelist(),
            self.balloon_allow_list(),
            balloon_enable,
        );
        let installed = self.install_filter(&policy);
        pipeline.record(installed);
        let r = match pipeline.result() {
            Some(r) => r,
            None => Ok(()),
        };
        proof {
            lemma_single_action(Action::InstallFilter, installed, r);
        }
        r
    }

    /// Registers the power button with the event loop. `button_fd` is the
    /// host's duplicate of the button's event descriptor.
    fn register_power_event(&mut self, button_fd: i32) -> (r: Result<(), MachineError>)
        ensures
            ends_as(PipelineView::start(power_plan(), None), r),
    {
        let (notifier, mut pipeline) = crate::power::register_power_event(button_fd);
        let registered = self.update_event(notifier);
        pipeline.record(registered);
        let r = match pipeline.result() {
            Some(r) => r,
            None => Ok(()),
        };
        proof {
            lemma_single_action(Action::RegisterNotifier, registered, r);
        }
        r
    }

    /// Builds a machine from its configuration, stage by stage: the guest
    /// address space; the vCPUs; the devices; and last, when nothing needs
    /// broader access to the host any more, the system-call filter.
    ///
    /// The first stage that fails ends the construction with its error; no
    /// later stage is begun, and what earlier stages built is left as it is.
    fn realize(
        &mut self,
        profile: &PlatformProfile,
        vm_config: &VmConfig,
        fds: &Vec<i32>,
        boot: bool,
        is_migrate: bool,
    ) -> (r: Result<(GuestAddressSpace, Vec<LogicalCPU>), MachineError>)
        requires
            profile.wf(),
            !is_migrate ==> profile.fits(vm_config.mem_size),
            fds@.len() >= vm_config.nr_cpus,
            plan_bound(*vm_config) <= usize::MAX,
        ensures
            r matches Ok(built) ==> built.0@ == mapped_ram(*profile, vm_config.mem_size, is_migrate)
                && built.1@ == logical_cpus(vm_config.nr_cpus, fds@),
            built_as(
                PipelineView::start(
                    memory_plan(
                        mapped_ram(*profile, vm_config.mem_size, is_migrate),
                        profile.io_space,
                        is_migrate,
                    ),
                    None,
                ),
                PipelineView::start(vcpu_plan(vm_config.nr_cpus, boot), None),
                device_plan(*vm_config),
                PipelineView::start(seccomp_plan(), None),
                without_value(r),
            ),
    {
        let sys_mem = match self.init_memory(profile, vm_config.mem_size, is_migrate) {
            Err(e) => {
                return Err(e);
            },
            Ok(space) => space,
        };
        let cpus = match self.init_vcpu(vm_config.nr_cpus, fds, boot) {
            Err(e) => {
                return Err(e);
            },
            Ok(cpus) => cpus,
        };
        match self.add_devices(vm_config) {
            Err(e) => {
                return Err(e);
            },
            Ok(()) => {},
        }
        match self.register_seccomp(vm_config.balloon) {
            Err(e) => {
                return Err(e);
            },
            Ok(()) => {},
        }
        Ok((sys_mem, cpus))
    }

    /// Carries out a transition that has begun: performs the pending
    /// action and records how it went, until the transition has ended.
    fn transfer(&mut self, transfer: &mut Transfer, vm_state: &mut MachineState) -> (r: Result<
        (),
        MachineError,
    >)
        ensures
            transfer_ends_as(old(transfer)@, *old(vm_state), r, *final(vm_state)),
    {
        let ghost before = transfer@;
        let ghost state = *vm_state;
        let ghost mut reports = Seq::<bool>::empty();
        loop
            invariant
                before.run_all(reports) == transfer@,
                *vm_state == before.state_after(state, reports),
            ensures
                transfer@.run.pending() is None,
                before.run_all(reports) == transfer@,
                *vm_state == before.state_after(state, reports),
            decreases
                    (if transfer@.run.failed {
                        0
                    } else {
                        transfer@.run.steps.len() - transfer@.run.done + 1
                    }),
        {
            let pending = transfer.pending();
            match pending {
                None => {
                    break ;
                },
                Some(action) => {
                    let succeeded = self.perform(action);
                    proof {
                        lemma_report_once_more(before, state, reports, succeeded);
                        reports = reports.push(succeeded);
                    }
                    transfer.record(succeeded, vm_state);
                },
            }
        }
        let r = match transfer.result(vm_state) {
            Some(r) => r,
            None => Ok(()),
        };
        proof {
            let end = before.run_all(reports);
            assert(end.run.pending() is None && *vm_state == before.state_after(state, reports)
                && end.result(*vm_state) == Some(result_view(r)));
        }
        r
    }

    /// Starts every vCPU of the machine, to run or to wait paused, and
    /// waits at the startup barrier until all of them have arrived.
    ///
    /// On success the machine is running, or paused when `paused` is set;
    /// on failure its state is the one it had.
    fn vm_start(&mut self, paused: bool, nr_vcpus: u8, vm_state: &mut MachineState) -> (r: Result<
        (),
        MachineError,
    >)
        ensures
            r is Ok ==> *final(vm_state) == target_state(VcpuOp::Start { paused }),
            r is Err ==> *final(vm_state) == *old(vm_state) && exists|k: u8|
                k < nr_vcpus && r->Err_0@ == #[trigger] crate::error::vcpu_failure(
                    VcpuOp::Start { paused },
                    k,
                ),
    {
        let ghost from = *vm_state;
        let mut transfer = crate::lifecycle::vm_start(paused, nr_vcpus, vm_state);
        let r = self.transfer(&mut transfer, vm_state);
        proof {
            lemma_arrives_or_stays(VcpuOp::Start { paused }, nr_vcpus, false, from, r, *vm_state);
        }
        r
    }

    /// Pauses every vCPU of the machine, in index order, and stops the
    /// external interrupt controller where the platform has one.
    ///
    /// The first vCPU that fails ends the pause with an error that names
    /// it; the vCPUs before it stay paused, and the machine's state is the
    /// one it had.
    fn vm_pause(&mut self, nr_vcpus: u8, irq_chip: bool, vm_state: &mut MachineState) -> (r: Result<
        (),
        MachineError,
    >)
        ensures
            r is Ok ==> *final(vm_state) == MachineState::Paused,
            r is Err ==> *final(vm_state) == *old(vm_state) && exists|k: u8|
                k < nr_vcpus && r->Err_0@ == #[trigger] crate::error::vcpu_failure(
                    VcpuOp::Pause,
                    k,
                ),
    {
        let ghost from = *vm_state;
        let mut transfer = crate::lifecycle::vm_pause(nr_vcpus, irq_chip, vm_state);
        let r = self.transfer(&mut transfer, vm_state);
        proof {
            lemma_arrives_or_stays(VcpuOp::Pause, nr_vcpus, irq_chip, from, r, *vm_state);
        }
        r
    }

    /// Resumes every vCPU of the machine, in index order.
    fn vm_resume(&mut self, nr_vcpus: u8, vm_state: &mut MachineState) -> (r: Result<
        (),
        MachineError,
    >)
        ensures
            r is Ok ==> *final(vm_state) == MachineState::Running,
            r is Err ==> *final(vm_state) == *old(vm_state) && exists|k: u8|
                k < nr_vcpus && r->Err_0@ == #[trigger] crate::error::vcpu_failure(
                    VcpuOp::Resume,
                    k,
                ),
    {
        let ghost from = *vm_state;
        let mut transfer = crate::lifecycle::vm_resume(nr_vcpus, vm_state);
        let r = self.transfer(&mut transfer, vm_state);
        proof {
            lemma_arrives_or_stays(VcpuOp::Resume, nr_vcpus, false, from, r, *vm_state);
        }
        r
    }

    /// Destroys every vCPU of the machine, in index order.
    fn vm_destroy(&mut self, nr_vcpus: u8, vm_state: &mut MachineState) -> (r: Result<
        (),
        MachineError,
    >)
        ensures
            r is Ok ==> *final(vm_state) == MachineState::Shutdown,
            r is Err ==> *final(vm_state) == *old(vm_state) && exists|k: u8|
                k < nr_vcpus && r->Err_0@ == #[trigger] crate::error::vcpu_failure(
                    VcpuOp::Destroy,
                    k,
                ),
    {
        let ghost from = *vm_state;
        let mut transfer = crate::lifecycle::vm_destroy(nr_vcpus, vm_state);
        let r = self.transfer(&mut transfer, vm_state);
        proof {
            lemma_arrives_or_stays(VcpuOp::Destroy, nr_vcpus, false, from, r, *vm_state);
        }
        r
    }

    /// Takes the machine from `old_state` to `new_state`.
    ///
    /// A machine that is not in `old_state` refuses, and so does one asked
    /// for a change that no transition makes. Otherwise the operation that
    /// the change stands for is applied to the vCPUs in index order. The
    /// machine is in `new_state` exactly when the transition succeeded;
    /// after any error it is in the state it was in.
    fn vm_state_transfer(
        &mut self,
        nr_vcpus: u8,
        irq_chip: bool,
        vm_state: &mut MachineState,
        old_state: MachineState,
        new_state: MachineState,
    ) -> (r: Result<(), MachineError>)
        ensures
            r is Ok ==> *final(vm_state) == new_state,
            r is Err ==> *final(vm_state) == *old(vm_state),
            r is Ok ==> transfer_request(*old(vm_state), old_state, new_state) is Ok,
            transfer_request(*old(vm_state), old_state, new_state) matches Err(e) ==> r is Err
                && r->Err_0@ == e,
            transfer_request(*old(vm_state), old_state, new_state) matches Ok(op) ==> (r
                matches Err(e) ==> exists|k: u8|
                k < nr_vcpus && e@ == #[trigger] crate::error::vcpu_failure(op, k)),
    {
        let ghost from = *vm_state;
        let mut transfer = match crate::lifecycle::vm_state_transfer(
            nr_vcpus,
            irq_chip,
            vm_state,
            old_state,
            new_state,
        ) {
            Ok(transfer) => transfer,
            Err(e) => {
                return Err(e);
            },
        };
        let r = self.transfer(&mut transfer, vm_state);
        proof {
            let op = transition_op(old_state, new_state)->0;
            lemma_arrives_or_stays(op, nr_vcpus, irq_chip, from, r, *vm_state);
        }
        r
    }
}

} // verus!
