use machine::config::{DriveConfig, VmConfig};
use machine::devices::{
    add_devices, add_pflash_device, add_rng_device, add_virtio_vsock, plan_fits,
    realize_virtio_mmio_device,
};
use machine::error::{DeviceKind, MachineError};
use machine::pipeline::{Action, Pipeline};

fn config() -> VmConfig {
    VmConfig {
        mem_size: 1 << 30,
        nr_cpus: 1,
        serial: false,
        pflashs: 0,
        drives: Vec::new(),
        nets: 0,
        consoles: 0,
        balloon: false,
        rng: false,
        devices: Vec::new(),
    }
}

fn drive(id: &str) -> DriveConfig {
    DriveConfig {
        id: id.to_string(),
        path_on_host: format!("/img/{}", id),
        read_only: false,
        direct: false,
        aio: None,
    }
}

fn add(kind: DeviceKind, index: usize) -> Action {
    Action::AddDevice { kind, index }
}

fn run(pipeline: &mut Pipeline, failing: Option<Action>) -> Vec<Action> {
    let mut issued = Vec::new();
    while let Some(action) = pipeline.pending() {
        issued.push(action);
        pipeline.record(Some(action) != failing);
    }
    issued
}

#[test]
fn a_bare_machine_has_a_clock() {
    let mut pipeline = add_devices(&config());
    assert_eq!(run(&mut pipeline, None), vec![add(DeviceKind::Rtc, 0)]);
    assert_eq!(pipeline.result(), Some(Ok(())));
}

#[test]
fn devices_are_realized_in_the_fixed_order() {
    let mut vm = config();
    vm.serial = true;
    vm.pflashs = 2;
    vm.drives = vec![drive("a"), drive("b")];
    vm.nets = 2;
    vm.consoles = 1;
    vm.balloon = true;
    vm.rng = true;
    vm.devices = vec![
        ("vhost-vsock-device".to_string(), "id=vsock0,guest-cid=3".to_string()),
        ("vhost-vsock-device".to_string(), "id=vsock1,guest-cid=4".to_string()),
    ];
    let mut pipeline = add_devices(&vm);
    let issued = run(&mut pipeline, None);
    assert_eq!(
        issued,
        vec![
            add(DeviceKind::Rtc, 0),
            add(DeviceKind::Serial, 0),
            add(DeviceKind::Pflash, 0),
            add(DeviceKind::Pflash, 1),
            add(DeviceKind::Block, 0),
            add(DeviceKind::Block, 1),
            add(DeviceKind::Net, 0),
            add(DeviceKind::Net, 1),
            add(DeviceKind::Console, 0),
            add(DeviceKind::Balloon, 0),
            add(DeviceKind::Rng, 0),
            Action::ConfigureVsock { index: 0 },
            Action::RealizeVirtioMmio { index: 0 },
            Action::RegisterVirtioMmio { index: 0 },
            Action::RegisterVsock { index: 0 },
            Action::ConfigureVsock { index: 1 },
            Action::RealizeVirtioMmio { index: 1 },
            Action::RegisterVirtioMmio { index: 1 },
            Action::RegisterVsock { index: 1 },
        ]
    );
    assert_eq!(pipeline.result(), Some(Ok(())));
}

#[test]
fn one_bad_drive_among_four_names_the_block_category() {
    let mut vm = config();
    vm.serial = true;
    vm.pflashs = 1;
    vm.drives = vec![drive("a"), drive("b"), drive("bad"), drive("c")];
    vm.nets = 1;
    let mut pipeline = add_devices(&vm);
    let issued = run(&mut pipeline, Some(add(DeviceKind::Block, 2)));
    let error = match pipeline.result() {
        Some(Err(e)) => e,
        other => panic!("unexpected {:?}", other),
    };
    assert_eq!(error, MachineError::AddDevErr(DeviceKind::Block));
    match &error {
        MachineError::AddDevErr(kind) => assert_eq!(kind.label(), "block"),
        _ => unreachable!(),
    }
    // Realized: what came before the failing drive, in order; nothing after it.
    assert_eq!(
        issued,
        vec![
            add(DeviceKind::Rtc, 0),
            add(DeviceKind::Serial, 0),
            add(DeviceKind::Pflash, 0),
            add(DeviceKind::Block, 0),
            add(DeviceKind::Block, 1),
            add(DeviceKind::Block, 2),
        ]
    );
    assert_eq!(pipeline.completed(), 5);
    assert_eq!(pipeline.pending(), None);
}

#[test]
fn every_category_fails_under_its_own_label() {
    let kinds = [
        (DeviceKind::Rtc, "RTC"),
        (DeviceKind::Serial, "serial"),
        (DeviceKind::Pflash, "pflash"),
        (DeviceKind::Block, "block"),
        (DeviceKind::Net, "net"),
        (DeviceKind::Console, "console"),
        (DeviceKind::Balloon, "balloon"),
        (DeviceKind::Rng, "rng"),
    ];
    for (kind, label) in kinds {
        let mut vm = config();
        vm.serial = true;
        vm.pflashs = 1;
        vm.drives = vec![drive("a")];
        vm.nets = 1;
        vm.consoles = 1;
        vm.balloon = true;
        vm.rng = true;
        let mut pipeline = add_devices(&vm);
        run(&mut pipeline, Some(add(kind, 0)));
        assert_eq!(pipeline.result(), Some(Err(MachineError::AddDevErr(kind))));
        assert_eq!(kind.label(), label);
    }
    assert_eq!(DeviceKind::Vsock.label(), "vsock");
}

#[test]
fn an_unknown_device_type_is_named() {
    let mut vm = config();
    vm.devices = vec![
        ("vhost-vsock-device".to_string(), "id=v0".to_string()),
        ("flux-capacitor".to_string(), "id=f0".to_string()),
        ("vhost-vsock-device".to_string(), "id=v1".to_string()),
    ];
    let mut pipeline = add_devices(&vm);
    assert_eq!(pipeline.result(), None);
    let issued = run(&mut pipeline, None);
    // The device before the unknown one is realized, the one after it is not.
    assert_eq!(issued.len(), 5);
    assert_eq!(issued[4], Action::RegisterVsock { index: 0 });
    assert_eq!(
        pipeline.result(),
        Some(Err(MachineError::UnsupportedDevice("flux-capacitor".to_string())))
    );
}

#[test]
fn an_unknown_first_device_fails_after_the_fixed_devices() {
    let mut vm = config();
    vm.devices = vec![("".to_string(), "".to_string())];
    let mut pipeline = add_devices(&vm);
    assert_eq!(run(&mut pipeline, None), vec![add(DeviceKind::Rtc, 0)]);
    assert_eq!(pipeline.result(), Some(Err(MachineError::UnsupportedDevice("".to_string()))));
}

#[test]
fn an_earlier_failure_wins_over_an_unknown_device() {
    let mut vm = config();
    vm.devices = vec![("nope".to_string(), "".to_string())];
    let mut pipeline = add_devices(&vm);
    run(&mut pipeline, Some(add(DeviceKind::Rtc, 0)));
    assert_eq!(pipeline.result(), Some(Err(MachineError::AddDevErr(DeviceKind::Rtc))));
}

#[test]
fn vsock_failures() {
    assert_eq!(
        add_virtio_vsock(7),
        vec![
            Action::ConfigureVsock { index: 7 },
            Action::RealizeVirtioMmio { index: 7 },
            Action::RegisterVirtioMmio { index: 7 },
            Action::RegisterVsock { index: 7 },
        ]
    );
    let mut vm = config();
    vm.devices = vec![("vhost-vsock-device".to_string(), "id=v0".to_string())];

    let mut pipeline = add_devices(&vm);
    run(&mut pipeline, Some(Action::ConfigureVsock { index: 0 }));
    assert_eq!(pipeline.result(), Some(Err(MachineError::AddDevErr(DeviceKind::Vsock))));

    let mut pipeline = add_devices(&vm);
    let issued = run(&mut pipeline, Some(Action::RealizeVirtioMmio { index: 0 }));
    assert_eq!(pipeline.result(), Some(Err(MachineError::RlzVirtioMmioErr)));
    assert!(!issued.contains(&Action::RegisterVsock { index: 0 }));

    // Registration for migration cannot fail.
    let mut pipeline = add_devices(&vm);
    run(&mut pipeline, Some(Action::RegisterVirtioMmio { index: 0 }));
    assert_eq!(pipeline.result(), Some(Ok(())));
}

#[test]
fn machines_without_a_device_say_so() {
    assert_eq!(realize_virtio_mmio_device(), Err(MachineError::VirtioMmioNotSupported));
    assert_eq!(add_pflash_device(), Err(MachineError::PflashNotSupported));
    assert_eq!(add_rng_device(), Ok(()));
}

#[test]
fn a_plan_must_be_countable() {
    let mut vm = config();
    assert!(plan_fits(&vm));
    vm.nets = usize::MAX - 4;
    assert!(plan_fits(&vm));
    vm.nets = usize::MAX - 3;
    assert!(!plan_fits(&vm));
    vm.nets = usize::MAX / 2;
    vm.consoles = usize::MAX / 2;
    assert!(!plan_fits(&vm));
    vm.consoles = 0;
    vm.pflashs = usize::MAX / 2;
    assert!(!plan_fits(&vm));
}
