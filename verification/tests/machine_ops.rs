use machine::config::{DriveConfig, VmConfig};
use machine::error::{DeviceKind, MachineError};
use machine::lifecycle::{MachineState, VcpuOp};
use machine::machine::MachineOps;
use machine::memory::PlatformProfile;
use machine::pipeline::{Action, Pipeline};
use machine::power::{EventNotifier, NotifierOperation};
use machine::seccomp::{SeccompOpt, SyscallPolicy};
use machine::vcpu::LogicalCPU;

const GIB: u64 = 1 << 30;

/// A host that performs nothing and fails where it is told to.
struct Host {
    failing: Vec<Action>,
    log: Vec<Action>,
    filter_installs: bool,
    installed: Option<(SeccompOpt, Vec<i64>)>,
    event_loop_takes: bool,
    notifiers: Vec<EventNotifier>,
}

impl Host {
    fn new() -> Host {
        Host {
            failing: Vec::new(),
            log: Vec::new(),
            filter_installs: true,
            installed: None,
            event_loop_takes: true,
            notifiers: Vec::new(),
        }
    }

    fn failing(action: Action) -> Host {
        let mut host = Host::new();
        host.failing.push(action);
        host
    }
}

impl MachineOps for Host {
    type Rule = i64;

    fn perform(&mut self, action: Action) -> bool {
        self.log.push(action);
        !self.failing.contains(&action)
    }

    fn syscall_whitelist(&self) -> Vec<i64> {
        vec![0, 1, 3, 16]
    }

    fn balloon_allow_list(&self) -> Vec<i64> {
        vec![283, 286, 287]
    }

    fn install_filter(&mut self, policy: &SyscallPolicy<i64>) -> bool {
        if self.filter_installs {
            self.installed = Some((policy.on_violation, policy.rules.clone()));
        }
        self.filter_installs
    }

    fn update_event(&mut self, notifier: EventNotifier) -> bool {
        if self.event_loop_takes {
            self.notifiers.push(notifier);
        }
        self.event_loop_takes
    }
}

fn config() -> VmConfig {
    VmConfig {
        mem_size: 8 * GIB,
        nr_cpus: 4,
        serial: true,
        pflashs: 0,
        drives: Vec::new(),
        nets: 0,
        consoles: 0,
        balloon: false,
        rng: false,
        devices: Vec::new(),
    }
}

fn drive(id: &str) -> DriveConfig {
    DriveConfig {
        id: id.to_string(),
        path_on_host: String::new(),
        read_only: false,
        direct: false,
        aio: None,
    }
}

#[test]
fn a_machine_with_four_vcpus_and_two_ram_ranges_comes_up() {
    let vm = config();
    let x86 = PlatformProfile::x86_64();
    let mut host = Host::new();
    let mut state = MachineState::Created;

    assert_eq!(x86.arch_ram_ranges(vm.mem_size).len(), 2);
    let sys_mem = host.init_memory(&x86, vm.mem_size, false).unwrap();
    assert_eq!(sys_mem.regions(), &vec![(0, 3 * GIB), (4 * GIB, 5 * GIB)]);
    assert_eq!(
        host.log,
        vec![
            Action::RegisterMemoryListener,
            Action::RegisterIoListener,
            Action::MapGuestRam,
            Action::AddRamRegion { base: 0, size: 3 * GIB },
            Action::AddRamRegion { base: 4 * GIB, size: 5 * GIB },
            Action::RegisterMemoryInstance,
        ]
    );

    host.log.clear();
    let cpus = host.init_vcpu(vm.nr_cpus, &vec![10, 11, 12, 13], true).unwrap();
    assert_eq!(cpus.len(), 4);
    assert_eq!(cpus[3], LogicalCPU { id: 3, fd: 13, nr_cpus: 4 });
    assert_eq!(host.log.len(), 8);

    host.log.clear();
    assert_eq!(host.add_devices(&vm), Ok(()));
    assert_eq!(host.register_seccomp(vm.balloon), Ok(()));

    host.log.clear();
    let r = host.vm_state_transfer(
        vm.nr_cpus,
        x86.irq_chip,
        &mut state,
        MachineState::Created,
        MachineState::Running,
    );
    assert_eq!(r, Ok(()));
    assert_eq!(state, MachineState::Running);
    let start = VcpuOp::Start { paused: false };
    assert_eq!(
        host.log,
        vec![
            Action::PrepareBarrier { parties: 5 },
            Action::Vcpu { op: start, index: 0 },
            Action::Vcpu { op: start, index: 1 },
            Action::Vcpu { op: start, index: 2 },
            Action::Vcpu { op: start, index: 3 },
            Action::WaitBarrier,
        ]
    );
}

#[test]
fn a_pause_that_fails_on_the_third_of_four_vcpus() {
    let mut host = Host::failing(Action::Vcpu { op: VcpuOp::Pause, index: 2 });
    let mut state = MachineState::Running;
    let r = host.vm_state_transfer(
        4,
        false,
        &mut state,
        MachineState::Running,
        MachineState::Paused,
    );
    assert_eq!(r, Err(MachineError::PauseVcpuErr(2)));
    assert_eq!(state, MachineState::Running);
    // vCPUs 0 and 1 were paused, vCPU 3 was never reached.
    assert_eq!(
        host.log,
        vec![
            Action::Vcpu { op: VcpuOp::Pause, index: 0 },
            Action::Vcpu { op: VcpuOp::Pause, index: 1 },
            Action::Vcpu { op: VcpuOp::Pause, index: 2 },
        ]
    );
}

#[test]
fn a_refused_transition_reaches_no_vcpu() {
    let mut host = Host::new();
    let mut state = MachineState::Paused;
    let r = host.vm_state_transfer(
        4,
        true,
        &mut state,
        MachineState::Running,
        MachineState::Paused,
    );
    assert_eq!(r, Err(MachineError::StateCheckFailed));
    assert_eq!(state, MachineState::Paused);
    assert!(host.log.is_empty());

    let r = host.vm_state_transfer(
        4,
        true,
        &mut state,
        MachineState::Paused,
        MachineState::Created,
    );
    assert_eq!(r, Err(MachineError::IllegalTransition));
    assert_eq!(state, MachineState::Paused);
    assert!(host.log.is_empty());
    // Refused again and again, with the same answer.
    let again = host.vm_state_transfer(
        4,
        true,
        &mut state,
        MachineState::Paused,
        MachineState::Created,
    );
    assert_eq!(again, r);
}

#[test]
fn the_life_of_a_machine() {
    let mut host = Host::new();
    let mut state = MachineState::Created;
    assert_eq!(host.vm_start(true, 2, &mut state), Ok(()));
    assert_eq!(state, MachineState::Paused);
    assert_eq!(host.vm_resume(2, &mut state), Ok(()));
    assert_eq!(state, MachineState::Running);
    host.log.clear();
    assert_eq!(host.vm_pause(2, true, &mut state), Ok(()));
    assert_eq!(state, MachineState::Paused);
    assert_eq!(host.log.last(), Some(&Action::StopInterruptController));
    assert_eq!(host.vm_destroy(2, &mut state), Ok(()));
    assert_eq!(state, MachineState::Shutdown);
    // Destroying again is safe.
    assert_eq!(
        host.vm_state_transfer(
            2,
            true,
            &mut state,
            MachineState::Shutdown,
            MachineState::Shutdown
        ),
        Ok(())
    );
    assert_eq!(state, MachineState::Shutdown);
}

#[test]
fn handlers_report_the_failing_vcpu_and_keep_the_state() {
    let mut state = MachineState::Created;
    let mut host = Host::failing(Action::Vcpu { op: VcpuOp::Start { paused: false }, index: 0 });
    assert_eq!(host.vm_start(false, 3, &mut state), Err(MachineError::StartVcpuErr(0)));
    assert_eq!(state, MachineState::Created);
    assert_eq!(host.log.len(), 2);

    let mut state = MachineState::Paused;
    let mut host = Host::failing(Action::Vcpu { op: VcpuOp::Resume, index: 2 });
    assert_eq!(host.vm_resume(3, &mut state), Err(MachineError::ResumeVcpuErr(2)));
    assert_eq!(state, MachineState::Paused);

    let mut host = Host::failing(Action::Vcpu { op: VcpuOp::Destroy, index: 1 });
    assert_eq!(host.vm_destroy(3, &mut state), Err(MachineError::DestroyVcpuErr(1)));
    assert_eq!(state, MachineState::Paused);
    assert_eq!(host.log.len(), 2);
}

#[test]
fn a_region_that_cannot_be_inserted_aborts_the_address_space() {
    let x86 = PlatformProfile::x86_64();
    let mut host = Host::failing(Action::AddRamRegion { base: 0, size: 3 * GIB });
    assert_eq!(
        host.init_memory(&x86, 8 * GIB, false).err(),
        Some(MachineError::RegMemRegionErr(0, 3 * GIB))
    );
    assert!(!host.log.contains(&Action::RegisterMemoryInstance));
    assert!(!host.log.contains(&Action::AddRamRegion { base: 4 * GIB, size: 5 * GIB }));

    let mut host = Host::new();
    let sys_mem = host.init_memory(&x86, 8 * GIB, true).unwrap();
    assert!(sys_mem.regions().is_empty());
    assert!(!host.log.contains(&Action::MapGuestRam));
    assert_eq!(host.log.last(), Some(&Action::RegisterMemoryInstance));
}

#[test]
fn vcpus_that_cannot_be_initialized() {
    let mut host = Host::failing(Action::RealizeVcpu { index: 2 });
    assert_eq!(
        host.init_vcpu(4, &vec![1, 2, 3, 4], true),
        Err(MachineError::RealizeVcpuErr(2))
    );
    let registered =
        host.log.iter().filter(|a| matches!(a, Action::RegisterVcpu { .. })).count();
    assert_eq!(registered, 4);
    assert!(!host.log.contains(&Action::RealizeVcpu { index: 3 }));
    // Without a boot configuration there is nothing that could fail.
    let mut host = Host::failing(Action::RealizeVcpu { index: 2 });
    assert_eq!(host.init_vcpu(4, &vec![1, 2, 3, 4], false).unwrap().len(), 4);
}

#[test]
fn one_bad_drive_among_four_ends_the_pipeline() {
    let mut vm = config();
    vm.drives = vec![drive("a"), drive("b"), drive("c"), drive("d")];
    vm.nets = 1;
    let mut host = Host::failing(Action::AddDevice { kind: DeviceKind::Block, index: 1 });
    assert_eq!(host.add_devices(&vm), Err(MachineError::AddDevErr(DeviceKind::Block)));
    assert_eq!(
        host.log,
        vec![
            Action::AddDevice { kind: DeviceKind::Rtc, index: 0 },
            Action::AddDevice { kind: DeviceKind::Serial, index: 0 },
            Action::AddDevice { kind: DeviceKind::Block, index: 0 },
            Action::AddDevice { kind: DeviceKind::Block, index: 1 },
        ]
    );
}

#[test]
fn an_unknown_device_ends_the_pipeline_after_the_known_ones() {
    let mut vm = config();
    vm.devices = vec![
        ("vhost-vsock-device".to_string(), "id=v0".to_string()),
        ("teleporter".to_string(), String::new()),
    ];
    let mut host = Host::new();
    assert_eq!(
        host.add_devices(&vm),
        Err(MachineError::UnsupportedDevice("teleporter".to_string()))
    );
    assert_eq!(host.log.len(), 6);
}

#[test]
fn the_filter_holds_the_balloon_rules_only_with_a_balloon() {
    let mut host = Host::new();
    assert_eq!(host.register_seccomp(false), Ok(()));
    assert_eq!(host.installed, Some((SeccompOpt::Trap, vec![0, 1, 3, 16])));
    assert_eq!(host.register_seccomp(true), Ok(()));
    assert_eq!(host.installed, Some((SeccompOpt::Trap, vec![0, 1, 3, 16, 283, 286, 287])));
    assert!(host.log.is_empty());

    let mut host = Host::new();
    host.filter_installs = false;
    assert_eq!(host.register_seccomp(true), Err(MachineError::SeccompErr));
    assert_eq!(host.installed, None);
}

#[test]
fn the_power_button_goes_to_the_event_loop() {
    let mut host = Host::new();
    assert_eq!(host.register_power_event(9), Ok(()));
    assert_eq!(
        host.notifiers,
        vec![EventNotifier {
            raw_fd: 9,
            op: NotifierOperation::AddShared,
            parked_fd: None,
            event: 1,
        }]
    );
    host.event_loop_takes = false;
    assert_eq!(host.register_power_event(9), Err(MachineError::RegNotifierErr));
    assert_eq!(host.notifiers.len(), 1);
}

#[test]
fn a_host_carries_out_a_plan() {
    let steps = vec![Action::MapGuestRam, Action::RegisterVcpu { index: 0 }, Action::InstallFilter];
    let mut host = Host::new();
    let mut pipeline = Pipeline::new(steps.clone(), None);
    assert_eq!(host.carry_out(&mut pipeline), Ok(()));
    assert_eq!(host.log, steps);
    assert_eq!(pipeline.completed(), 3);

    // A failure of an action that cannot fail is passed over.
    let mut host = Host::failing(Action::RegisterVcpu { index: 0 });
    let mut pipeline = Pipeline::new(steps.clone(), None);
    assert_eq!(host.carry_out(&mut pipeline), Ok(()));
    assert_eq!(host.log, steps);

    let mut host = Host::failing(Action::MapGuestRam);
    let mut pipeline = Pipeline::new(steps, None);
    assert_eq!(host.carry_out(&mut pipeline), Err(MachineError::MapRamErr));
    assert_eq!(host.log, vec![Action::MapGuestRam]);
    assert_eq!(pipeline.completed(), 0);
    // Carrying out an ended plan performs nothing.
    assert_eq!(host.carry_out(&mut pipeline), Err(MachineError::MapRamErr));
    assert_eq!(host.log.len(), 1);
}

#[test]
fn a_machine_is_built_stage_by_stage() {
    let mut vm = config();
    vm.balloon = true;
    vm.drives = vec![drive("a")];
    let x86 = PlatformProfile::x86_64();
    let fds = vec![10, 11, 12, 13];

    let mut host = Host::new();
    let (sys_mem, cpus) = host.realize(&x86, &vm, &fds, true, false).unwrap();
    assert_eq!(sys_mem.regions(), &vec![(0, 3 * GIB), (4 * GIB, 5 * GIB)]);
    assert_eq!(cpus.len(), 4);
    // Address space first, then the vCPUs, then the devices.
    assert_eq!(host.log.len(), 6 + 8 + 4);
    assert_eq!(host.log[5], Action::RegisterMemoryInstance);
    assert_eq!(host.log[6], Action::RegisterVcpu { index: 0 });
    assert_eq!(host.log[14], Action::AddDevice { kind: DeviceKind::Rtc, index: 0 });
    assert_eq!(host.log[17], Action::AddDevice { kind: DeviceKind::Balloon, index: 0 });
    // The filter comes last and knows of the balloon.
    assert_eq!(host.installed, Some((SeccompOpt::Trap, vec![0, 1, 3, 16, 283, 286, 287])));
}

#[test]
fn a_stage_that_fails_ends_the_build() {
    let vm = config();
    let x86 = PlatformProfile::x86_64();
    let fds = vec![10, 11, 12, 13];

    let mut host = Host::failing(Action::MapGuestRam);
    assert_eq!(host.realize(&x86, &vm, &fds, true, false).err(), Some(MachineError::MapRamErr));
    assert_eq!(host.log.len(), 3);
    assert_eq!(host.installed, None);

    let mut host = Host::failing(Action::RealizeVcpu { index: 0 });
    assert_eq!(
        host.realize(&x86, &vm, &fds, true, false).err(),
        Some(MachineError::RealizeVcpuErr(0))
    );
    assert!(!host.log.contains(&Action::AddDevice { kind: DeviceKind::Rtc, index: 0 }));
    assert_eq!(host.installed, None);

    let mut host = Host::failing(Action::AddDevice { kind: DeviceKind::Serial, index: 0 });
    assert_eq!(
        host.realize(&x86, &vm, &fds, true, false).err(),
        Some(MachineError::AddDevErr(DeviceKind::Serial))
    );
    assert_eq!(host.installed, None);

    let mut host = Host::new();
    host.filter_installs = false;
    assert_eq!(host.realize(&x86, &vm, &fds, true, false).err(), Some(MachineError::SeccompErr));
    assert_eq!(host.log.len(), 6 + 8 + 2);
}

#[test]
fn a_migration_target_is_built_without_ram_and_registers() {
    let vm = config();
    let x86 = PlatformProfile::x86_64();
    let mut host = Host::new();
    let (sys_mem, cpus) = host.realize(&x86, &vm, &vec![1, 2, 3, 4], false, true).unwrap();
    assert!(sys_mem.regions().is_empty());
    assert_eq!(cpus.len(), 4);
    assert!(!host.log.contains(&Action::MapGuestRam));
    assert!(!host.log.iter().any(|a| matches!(a, Action::RealizeVcpu { .. })));
    assert_eq!(host.installed, Some((SeccompOpt::Trap, vec![0, 1, 3, 16])));
}
