use machine::config::{ConfigError, DriveConfig, VmConfig};
use machine::scsi::{parse_scsi_controller, parse_scsi_device, ScsiCntlrConfig};

fn empty_config() -> VmConfig {
    VmConfig {
        mem_size: 0,
        nr_cpus: 1,
        serial: false,
        pflashs: 0,
        drives: Vec::new(),
        nets: 0,
        consoles: 0,
        balloon: false,
        rng: false,
        devices: Vec::new(),
    }
}

fn drive(id: &str, path: &str) -> DriveConfig {
    DriveConfig {
        id: id.to_string(),
        path_on_host: path.to_string(),
        read_only: true,
        direct: true,
        aio: Some("native".to_string()),
    }
}

#[test]
fn controller_with_all_arguments() {
    let cfg = parse_scsi_controller(
        "virtio-scsi-pci,id=scsi0,bus=pcie.0,addr=0x3.0x1,multifunction=on,iothread=io1,num-queues=4",
        Some(8),
    )
    .unwrap();
    assert_eq!(cfg.id, "scsi0");
    assert_eq!(cfg.iothread, Some("io1".to_string()));
    assert_eq!(cfg.queues, 4);
}

#[test]
fn controller_default_has_one_queue() {
    let cfg = ScsiCntlrConfig::default();
    assert_eq!(cfg.id, "");
    assert_eq!(cfg.iothread, None);
    assert_eq!(cfg.queues, 1);
    assert_eq!(cfg.check(), Ok(()));
}

#[test]
fn controller_queues_fall_back_to_proposal_then_to_one() {
    let cfg = parse_scsi_controller("virtio-scsi-pci,id=scsi0", Some(8)).unwrap();
    assert_eq!(cfg.queues, 8);
    let cfg = parse_scsi_controller("virtio-scsi-pci,id=scsi0", None).unwrap();
    assert_eq!(cfg.queues, 1);
}

#[test]
fn controller_without_id_is_rejected() {
    assert_eq!(
        parse_scsi_controller("virtio-scsi-pci,num-queues=2", None),
        Err(ConfigError::FieldIsMissing("id".to_string(), "virtio scsi pci".to_string()))
    );
}

#[test]
fn controller_queue_bounds() {
    let illegal = ConfigError::IllegalValue(
        "queues number of scsi controller".to_string(),
        1,
        true,
        32,
        true,
    );
    assert_eq!(
        parse_scsi_controller("virtio-scsi-pci,id=a,num-queues=0", None),
        Err(illegal.clone())
    );
    assert_eq!(
        parse_scsi_controller("virtio-scsi-pci,id=a,num-queues=33", None),
        Err(illegal.clone())
    );
    assert_eq!(parse_scsi_controller("virtio-scsi-pci,id=a", Some(33)), Err(illegal));
    assert_eq!(
        parse_scsi_controller("virtio-scsi-pci,id=a,num-queues=32", None).unwrap().queues,
        32
    );
    assert_eq!(
        parse_scsi_controller("virtio-scsi-pci,id=a,num-queues=+7", None).unwrap().queues,
        7
    );
}

#[test]
fn controller_queue_number_must_be_a_number() {
    for raw in ["x", "", "-1", "4294967296", "1_0", " 1", "+"] {
        let arg = format!("virtio-scsi-pci,id=a,num-queues={}", raw);
        let got = parse_scsi_controller(&arg, None);
        if raw.is_empty() {
            assert_eq!(
                got,
                Err(ConfigError::InvalidParam(
                    "num-queues=".to_string(),
                    "virtio-scsi-pci".to_string()
                ))
            );
        } else {
            assert_eq!(
                got,
                Err(ConfigError::ConvertValueFailed("num-queues".to_string(), raw.to_string()))
            );
        }
    }
    assert_eq!(
        parse_scsi_controller("virtio-scsi-pci,id=a,num-queues=4294967295", None),
        Err(ConfigError::IllegalValue(
            "queues number of scsi controller".to_string(),
            1,
            true,
            32,
            true
        ))
    );
}

#[test]
fn controller_text_lengths() {
    let long = "a".repeat(256);
    assert_eq!(
        parse_scsi_controller(&format!("virtio-scsi-pci,id={}", long), None),
        Err(ConfigError::StringLengthTooLong("virtio-scsi-pci device id".to_string(), 255))
    );
    assert_eq!(
        parse_scsi_controller(&format!("virtio-scsi-pci,id=a,iothread={}", long), None),
        Err(ConfigError::StringLengthTooLong("iothread name".to_string(), 255))
    );
    let fits = "a".repeat(255);
    assert!(parse_scsi_controller(&format!("virtio-scsi-pci,id={}", fits), None).is_ok());
    // Lengths are counted in bytes: 128 two-byte characters are too long.
    let wide = "é".repeat(128);
    assert_eq!(
        parse_scsi_controller(&format!("virtio-scsi-pci,id={}", wide), None),
        Err(ConfigError::StringLengthTooLong("virtio-scsi-pci device id".to_string(), 255))
    );
}

#[test]
fn malformed_argument_texts() {
    let name = "virtio-scsi-pci".to_string();
    assert_eq!(
        parse_scsi_controller(",virtio-scsi-pci,id=a", None),
        Err(ConfigError::InvalidParam(",virtio-scsi-pci,id=a".to_string(), name.clone()))
    );
    assert_eq!(
        parse_scsi_controller("virtio-scsi-pci,id=a,", None),
        Err(ConfigError::InvalidParam("virtio-scsi-pci,id=a,".to_string(), name.clone()))
    );
    assert_eq!(
        parse_scsi_controller("virtio-scsi-pci,=a", None),
        Err(ConfigError::InvalidParam("=a".to_string(), name.clone()))
    );
    assert_eq!(
        parse_scsi_controller("virtio-scsi-pci,colour=red", None),
        Err(ConfigError::InvalidParam("colour".to_string(), name.clone()))
    );
    assert_eq!(
        parse_scsi_controller("virtio-scsi-pci,colour", None),
        Err(ConfigError::InvalidParam("colour".to_string(), name.clone()))
    );
    assert_eq!(
        parse_scsi_controller("virtio-scsi-pci,id=a,id=b", None),
        Err(ConfigError::FieldRepeat(name.clone(), "id".to_string()))
    );
    assert_eq!(
        parse_scsi_controller("virtio-scsi-pci,,id=a", None),
        Err(ConfigError::FieldRepeat(name.clone(), "".to_string()))
    );
}

#[test]
fn value_keeps_later_equal_signs() {
    let cfg = parse_scsi_controller("virtio-scsi-pci,id=a=b", None).unwrap();
    assert_eq!(cfg.id, "a=b");
}

#[test]
fn bare_key_after_the_first_item_has_an_empty_value() {
    let cfg = parse_scsi_controller("virtio-scsi-pci,id", None).unwrap();
    assert_eq!(cfg.id, "");
}

#[test]
fn missing_device_type_is_rejected() {
    assert_eq!(
        parse_scsi_controller("id=scsi0", None),
        Err(ConfigError::FieldIsMissing("".to_string(), "virtio-scsi-pci".to_string()))
    );
}

#[test]
fn memory_mapped_type_takes_no_bus_arguments() {
    assert_eq!(
        parse_scsi_controller("virtio-scsi-device,id=a,bus=pcie.0", None),
        Err(ConfigError::UnsupportedArgument("bus".to_string()))
    );
    assert_eq!(
        parse_scsi_controller("virtio-scsi-device,id=a,addr=1", None),
        Err(ConfigError::UnsupportedArgument("addr".to_string()))
    );
    assert_eq!(
        parse_scsi_controller("virtio-scsi-device,id=a,multifunction=off", None),
        Err(ConfigError::UnsupportedArgument("multifunction".to_string()))
    );
    assert_eq!(
        parse_scsi_controller("virtio-scsi-device,id=a,multifunction=maybe", None),
        Err(ConfigError::ConvertValueFailed("multifunction".to_string(), "maybe".to_string()))
    );
    assert!(parse_scsi_controller("virtio-scsi-device,id=a", None).is_ok());
    // On a PCI type the switch is not even read.
    assert!(parse_scsi_controller("virtio-scsi-pci,id=a,multifunction=maybe", None).is_ok());
}

#[test]
fn device_takes_its_drive() {
    let mut vm = empty_config();
    vm.drives.push(drive("d0", "/img/zero"));
    vm.drives.push(drive("d1", "/img/one"));
    vm.drives.push(drive("d2", "/img/two"));
    let dev = parse_scsi_device(
        &mut vm,
        "scsi-hd,bus=scsi0.0,scsi-id=3,lun=7,serial=s1,id=hd0,drive=d1",
    )
    .unwrap();
    assert_eq!(dev.id, "hd0");
    assert_eq!(dev.bus, "scsi0.0");
    assert_eq!(dev.serial, Some("s1".to_string()));
    assert_eq!(dev.channel, 0);
    assert_eq!(dev.target, 3);
    assert_eq!(dev.lun, 7);
    assert_eq!(dev.path_on_host, "/img/one");
    assert!(dev.read_only);
    assert!(dev.direct);
    assert_eq!(dev.aio_type, Some("native".to_string()));
    let left: Vec<&str> = vm.drives.iter().map(|d| d.id.as_str()).collect();
    assert_eq!(left, vec!["d0", "d2"]);
}

#[test]
fn device_with_unknown_drive_has_no_backing_file() {
    let mut vm = empty_config();
    vm.drives.push(drive("d0", "/img/zero"));
    let before = vm.clone();
    let dev = parse_scsi_device(&mut vm, "scsi-hd,bus=b,id=hd0,drive=nope").unwrap();
    assert_eq!(dev.path_on_host, "");
    assert!(!dev.read_only);
    assert!(!dev.direct);
    assert_eq!(dev.aio_type, None);
    assert_eq!(dev.target, 0);
    assert_eq!(dev.lun, 0);
    assert_eq!(vm, before);
}

#[test]
fn device_required_fields() {
    let mut vm = empty_config();
    vm.drives.push(drive("d0", "/img/zero"));
    let before = vm.clone();
    let missing = |f: &str| ConfigError::FieldIsMissing(f.to_string(), "scsi device".to_string());
    assert_eq!(parse_scsi_device(&mut vm, "scsi-hd,bus=b,id=hd0"), Err(missing("drive")));
    assert_eq!(parse_scsi_device(&mut vm, "scsi-hd,bus=b,drive=d0"), Err(missing("id")));
    assert_eq!(parse_scsi_device(&mut vm, "scsi-hd,id=hd0,drive=d0"), Err(missing("bus")));
    assert_eq!(vm, before);
}

#[test]
fn device_address_bounds() {
    let mut vm = empty_config();
    vm.drives.push(drive("d0", "/img/zero"));
    let before = vm.clone();
    assert_eq!(
        parse_scsi_device(&mut vm, "scsi-hd,bus=b,id=hd0,drive=d0,scsi-id=256"),
        Err(ConfigError::ConvertValueFailed("scsi-id".to_string(), "256".to_string()))
    );
    assert_eq!(
        parse_scsi_device(&mut vm, "scsi-hd,bus=b,id=hd0,drive=d0,lun=256"),
        Err(ConfigError::IllegalValue("lun of scsi device".to_string(), 0, true, 255, true))
    );
    assert_eq!(
        parse_scsi_device(&mut vm, "scsi-hd,bus=b,id=hd0,drive=d0,lun=65536"),
        Err(ConfigError::ConvertValueFailed("lun".to_string(), "65536".to_string()))
    );
    assert_eq!(vm, before);
    let dev =
        parse_scsi_device(&mut vm, "scsi-hd,bus=b,id=hd0,drive=d0,scsi-id=255,lun=255").unwrap();
    assert_eq!(dev.target, 255);
    assert_eq!(dev.lun, 255);
    assert!(vm.drives.is_empty());
}

#[test]
fn a_drive_is_taken_once() {
    let mut vm = empty_config();
    vm.drives.push(drive("d0", "/img/zero"));
    let first = parse_scsi_device(&mut vm, "scsi-hd,bus=b,id=hd0,drive=d0").unwrap();
    let second = parse_scsi_device(&mut vm, "scsi-hd,bus=b,id=hd1,drive=d0").unwrap();
    assert_eq!(first.path_on_host, "/img/zero");
    assert_eq!(second.path_on_host, "");
}
