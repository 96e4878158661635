//! Configuration of the virtio SCSI controller and of the SCSI devices
//! attached to it, read from their command-line arguments.

use vstd::prelude::*;
use vstd::string::*;
use vstd::utf8::encode_utf8;
use crate::cmd_parser::CmdParser;
use crate::cmd_parser::Fields;
use crate::cmd_parser::declare;
use crate::cmd_parser::number_of;
use crate::cmd_parser::read_params;
use crate::cmd_parser::switch_of;
use crate::cmd_parser::value_of;
use crate::config::ConfigError;
use crate::config::ConfigErrorView;
use crate::config::DriveConfigView;
use crate::config::VmConfig;
use crate::config::drive_index;
use crate::config::drive_views;
use crate::config::text_view;
use crate::config::MAX_STRING_LENGTH;
use crate::config::MAX_VIRTIO_QUEUE;
use crate::text::ends_with;
use crate::text::str_ends_with;

verus! {

/// Largest target the virtio specification allows.
pub const VIRTIO_SCSI_MAX_TARGET: u16 = 255;

/// Largest logical unit number the virtio specification allows.
pub const VIRTIO_SCSI_MAX_LUN: u16 = 16383;

/// Largest logical unit number that can be addressed: only the peripheral
/// device addressing format, with eight bits for the unit, is offered.
pub const SUPPORT_SCSI_MAX_LUN: u16 = 255;

/// Length of a text in bytes.
pub open spec fn byte_len(s: Seq<char>) -> nat {
    encode_utf8(s).len()
}

/// Settings of a virtio SCSI controller.
#[derive(Debug, Clone, PartialEq, Eq)]
pub struct ScsiCntlrConfig {
    /// Device id of the controller.
    pub id: String,
    /// Thread name of the I/O handler.
    pub iothread: Option<String>,
    /// Number of command queues.
    pub queues: u32,
}

/// A `ScsiCntlrConfig` with its texts as character sequences.
pub struct ScsiCntlrConfigView {
    pub id: Seq<char>,
    pub iothread: Option<Seq<char>>,
    pub queues: u32,
}

impl View for ScsiCntlrConfig {
    type V = ScsiCntlrConfigView;

    open spec fn view(&self) -> ScsiCntlrConfigView {
        ScsiCntlrConfigView {
            id: self.id@,
            iothread: text_view(self.iothread),
            queues: self.queues,
        }
    }
}

/// The first rule a controller's settings break, if any: the id and the
/// thread name fit in 255 bytes, and there are 1 to 32 queues.
pub open spec fn controller_fault(c: ScsiCntlrConfigView) -> Option<ConfigErrorView> {
    if byte_len(c.id) > MAX_STRING_LENGTH {
        Some(ConfigErrorView::StringLengthTooLong("virtio-scsi-pci device id"@, MAX_STRING_LENGTH))
    } else if c.iothread is Some && byte_len(c.iothread->0) > MAX_STRING_LENGTH {
        Some(ConfigErrorView::StringLengthTooLong("iothread name"@, MAX_STRING_LENGTH))
    } else if c.queues < 1 || c.queues > MAX_VIRTIO_QUEUE {
        Some(
            ConfigErrorView::IllegalValue(
                "queues number of scsi controller"@,
                1,
                true,
                MAX_VIRTIO_QUEUE as u64,
                true,
            ),
        )
    } else {
        None
    }
}

impl Default for ScsiCntlrConfig {
    /// A nameless controller with one command queue.
    fn default() -> (c: ScsiCntlrConfig)
        ensures
            c@.id == Seq::<char>::empty(),
            c@.iothread is None,
            c@.queues == 1,
    {
        ScsiCntlrConfig { id: String::new(), iothread: None, queues: 1 }
    }
}

impl ScsiCntlrConfig {
    /// Holds the settings to the controller's rules.
    pub fn check(&self) -> (r: Result<(), ConfigError>)
        ensures
            match r {
                Ok(()) => controller_fault(self@) is None,
                Err(e) => controller_fault(self@) == Some(e@),
            },
    {
        if self.id.as_str().as_bytes().len() > MAX_STRING_LENGTH {
            return Err(
                ConfigError::StringLengthTooLong(
                    String::from_str("virtio-scsi-pci device id"),
                    MAX_STRING_LENGTH,
                ),
            );
        }
        if self.iothread.is_some() && self.iothread.as_ref().unwrap().as_str().as_bytes().len()
            > MAX_STRING_LENGTH {
            return Err(
                ConfigError::StringLengthTooLong(
                    String::from_str("iothread name"),
                    MAX_STRING_LENGTH,
                ),
            );
        }
        if self.queues < 1 || self.queues > MAX_VIRTIO_QUEUE as u32 {
            return Err(
                ConfigError::IllegalValue(
                    String::from_str("queues number of scsi controller"),
                    1,
                    true,
                    MAX_VIRTIO_QUEUE as u64,
                    true,
                ),
            );
        }
        Ok(())
    }
}

/// What keeps the parsed arguments from describing a device on the bus the
/// device type stands for: the type itself is missing, or a memory-mapped
/// device (its type ends in `-device`) was given a bus address.
pub open spec fn pci_args_fault(fields: Fields, name: Seq<char>) -> Option<ConfigErrorView> {
    match value_of(fields, Seq::<char>::empty()) {
        None => Some(ConfigErrorView::FieldIsMissing(Seq::<char>::empty(), name)),
        Some(device_type) => if !ends_with(device_type, "-device"@) {
            None
        } else if value_of(fields, "bus"@) is Some {
            Some(ConfigErrorView::UnsupportedArgument("bus"@))
        } else if value_of(fields, "addr"@) is Some {
            Some(ConfigErrorView::UnsupportedArgument("addr"@))
        } else {
            match switch_of(fields, name, "multifunction"@) {
                Err(e) => Some(e),
                Ok(Some(_)) => Some(ConfigErrorView::UnsupportedArgument("multifunction"@)),
                Ok(None) => None,
            }
        },
    }
}

/// Checks the bus arguments of a parsed device against its type.
pub fn pci_args_check(cmd_parser: &CmdParser) -> (r: Result<(), ConfigError>)
    ensures
        match r {
            Ok(()) => pci_args_fault(cmd_parser@.fields, cmd_parser@.name) is None,
            Err(e) => pci_args_fault(cmd_parser@.fields, cmd_parser@.name) == Some(e@),
        },
{
    let empty = String::new();
    let device_type = match cmd_parser.get_value(empty.as_str()) {
        Some(t) => t,
        None => {
            let name = CmdParser::name(cmd_parser);
            return Err(ConfigError::FieldIsMissing(empty, name));
        },
    };
    if !str_ends_with(device_type.as_str(), "-device") {
        return Ok(());
    }
    if cmd_parser.get_value("bus").is_some() {
        return Err(ConfigError::UnsupportedArgument(String::from_str("bus")));
    }
    if cmd_parser.get_value("addr").is_some() {
        return Err(ConfigError::UnsupportedArgument(String::from_str("addr")));
    }
    match cmd_parser.get_switch("multifunction") {
        Err(e) => Err(e),
        Ok(Some(_)) => Err(ConfigError::UnsupportedArgument(String::from_str("multifunction"))),
        Ok(None) => Ok(()),
    }
}

/// The parameters a virtio SCSI controller knows.
pub open spec fn controller_params() -> Fields {
    declare(
        declare(
            declare(
                declare(
                    declare(
                        declare(
                            declare(
                                Seq::<(Seq<char>, Option<Seq<char>>)>::empty(),
                                Seq::<char>::empty(),
                            ),
                            "id"@,
                        ),
                        "bus"@,
                    ),
                    "addr"@,
                ),
                "multifunction"@,
            ),
            "iothread"@,
        ),
        "num-queues"@,
    )
}

/// The number of queues of a controller: the one given, else the one the
/// machine proposes, else one.
pub open spec fn controller_queues(given: Option<int>, queues_auto: Option<u16>) -> u32 {
    match given {
        Some(n) => n as u32,
        None => match queues_auto {
            Some(n) => n as u32,
            None => 1,
        },
    }
}

/// The controller that the argument text `arg` describes, or the first
/// error in it: a malformed text, bus arguments that do not fit the device
/// type, a missing id, a queue number that is no number, and last the
/// controller's own rules.
pub open spec fn scsi_controller_of(arg: Seq<char>, queues_auto: Option<u16>) -> Result<
    ScsiCntlrConfigView,
    ConfigErrorView,
> {
    let name = "virtio-scsi-pci"@;
    let reading = read_params(controller_params(), name, arg);
    if reading.error is Some {
        Err(reading.error->0)
    } else if pci_args_fault(reading.fields, name) is Some {
        Err(pci_args_fault(reading.fields, name)->0)
    } else if value_of(reading.fields, "id"@) is None {
        Err(ConfigErrorView::FieldIsMissing("id"@, "virtio scsi pci"@))
    } else {
        match number_of(reading.fields, name, "num-queues"@, u32::MAX as int) {
            Err(e) => Err(e),
            Ok(given) => {
                let controller = ScsiCntlrConfigView {
                    id: value_of(reading.fields, "id"@)->0,
                    iothread: value_of(reading.fields, "iothread"@),
                    queues: controller_queues(given, queues_auto),
                };
                if controller_fault(controller) is Some {
                    Err(controller_fault(controller)->0)
                } else {
                    Ok(controller)
                }
            },
        }
    }
}

/// Reads the settings of a virtio SCSI controller from its argument text.
///
/// `queues_auto` is the number of queues to use when the text names none.
pub fn parse_scsi_controller(drive_config: &str, queues_auto: Option<u16>) -> (r: Result<
    ScsiCntlrConfig,
    ConfigError,
>)
    ensures
        match r {
            Ok(c) => scsi_controller_of(drive_config@, queues_auto) == Ok::<
                ScsiCntlrConfigView,
                ConfigErrorView,
            >(c@),
            Err(e) => scsi_controller_of(drive_config@, queues_auto) == Err::<
                ScsiCntlrConfigView,
                ConfigErrorView,
            >(e@),
        },
{
    let mut cmd_parser = CmdParser::new("virtio-scsi-pci");
    let empty = String::new();
    cmd_parser.push(empty.as_str());
    cmd_parser.push("id");
    cmd_parser.push("bus");
    cmd_parser.push("addr");
    cmd_parser.push("multifunction");
    cmd_parser.push("iothread");
    cmd_parser.push("num-queues");

    match cmd_parser.parse(drive_config) {
        Err(e) => {
            return Err(e);
        },
        Ok(()) => {},
    }
    match pci_args_check(&cmd_parser) {
        Err(e) => {
            return Err(e);
        },
        Ok(()) => {},
    }
    let mut cntlr_cfg = ScsiCntlrConfig::default();
    cntlr_cfg.iothread = cmd_parser.get_value("iothread");
    match cmd_parser.get_value("id") {
        Some(id) => {
            cntlr_cfg.id = id;
        },
        None => {
            return Err(
                ConfigError::FieldIsMissing(
                    String::from_str("id"),
                    String::from_str("virtio scsi pci"),
                ),
            );
        },
    }
    match cmd_parser.get_number("num-queues", u32::MAX) {
        Err(e) => {
            return Err(e);
        },
        Ok(Some(queues)) => {
            cntlr_cfg.queues = queues;
        },
        Ok(None) => {
            match queues_auto {
                Some(queues) => {
                    cntlr_cfg.queues = queues as u32;
                },
                None => {},
            }
        },
    }
    match cntlr_cfg.check() {
        Err(e) => Err(e),
        Ok(()) => Ok(cntlr_cfg),
    }
}

/// Settings of a SCSI device.
#[derive(Debug, Clone, PartialEq, Eq)]
pub struct ScsiDevConfig {
    /// Device id.
    pub id: String,
    /// The image file path.
    pub path_on_host: String,
    /// Serial number of the device.
    pub serial: Option<String>,
    /// The SCSI bus the device is attached to.
    pub bus: String,
    /// The device cannot be written.
    pub read_only: bool,
    /// Use direct access I/O.
    pub direct: bool,
    /// Asynchronous I/O type.
    pub aio_type: Option<String>,
    /// Channel of the four-level address; always zero.
    pub channel: u8,
    /// Target of the four-level address.
    pub target: u8,
    /// Logical unit of the four-level address.
    pub lun: u16,
}

/// A `ScsiDevConfig` with its texts as character sequences.
pub struct ScsiDevConfigView {
    pub id: Seq<char>,
    pub path_on_host: Seq<char>,
    pub serial: Option<Seq<char>>,
    pub bus: Seq<char>,
    pub read_only: bool,
    pub direct: bool,
    pub aio_type: Option<Seq<char>>,
    pub channel: u8,
    pub target: u8,
    pub lun: u16,
}

impl View for ScsiDevConfig {
    type V = ScsiDevConfigView;

    open spec fn view(&self) -> ScsiDevConfigView {
        ScsiDevConfigView {
            id: self.id@,
            path_on_host: self.path_on_host@,
            serial: text_view(self.serial),
            bus: self.bus@,
            read_only: self.read_only,
            direct: self.direct,
            aio_type: text_view(self.aio_type),
            channel: self.channel,
            target: self.target,
            lun: self.lun,
        }
    }
}

impl Default for ScsiDevConfig {
    /// A nameless device at address zero, with no backing file.
    fn default() -> (d: ScsiDevConfig)
        ensures
            d@ == (ScsiDevConfigView {
                id: Seq::<char>::empty(),
                path_on_host: Seq::<char>::empty(),
                serial: None,
                bus: Seq::<char>::empty(),
                read_only: false,
                direct: false,
                aio_type: None,
                channel: 0,
                target: 0,
                lun: 0,
            }),
    {
        ScsiDevConfig {
            id: String::new(),
            path_on_host: String::new(),
            serial: None,
            bus: String::new(),
            read_only: false,
            direct: false,
            aio_type: None,
            channel: 0,
            target: 0,
            lun: 0,
        }
    }
}

/// The parameters a SCSI device knows.
pub open spec fn device_params() -> Fields {
    declare(
        declare(
            declare(
                declare(
                    declare(
                        declare(
                            declare(
                                Seq::<(Seq<char>, Option<Seq<char>>)>::empty(),
                                Seq::<char>::empty(),
                            ),
                            "id"@,
                        ),
                        "bus"@,
                    ),
                    "scsi-id"@,
                ),
                "lun"@,
            ),
            "serial"@,
        ),
        "drive"@,
    )
}

/// A number that was given, or zero.
pub open spec fn given_or_zero(given: Option<int>) -> int {
    match given {
        Some(n) => n,
        None => 0,
    }
}

/// The first error in the arguments of a SCSI device, if any: a malformed
/// text, a missing drive, id or bus, a target that is no number up to 255,
/// a unit that is no 16-bit number or lies above 255.
pub open spec fn scsi_device_fault(fields: Fields, error: Option<ConfigErrorView>) -> Option<
    ConfigErrorView,
> {
    let name = "scsi-device"@;
    let target = number_of(fields, name, "scsi-id"@, u8::MAX as int);
    let lun = number_of(fields, name, "lun"@, u16::MAX as int);
    if error is Some {
        error
    } else if value_of(fields, "drive"@) is None {
        Some(ConfigErrorView::FieldIsMissing("drive"@, "scsi device"@))
    } else if value_of(fields, "id"@) is None {
        Some(ConfigErrorView::FieldIsMissing("id"@, "scsi device"@))
    } else if value_of(fields, "bus"@) is None {
        Some(ConfigErrorView::FieldIsMissing("bus"@, "scsi device"@))
    } else if target is Err {
        Some(target->Err_0)
    } else if lun is Err {
        Some(lun->Err_0)
    } else if given_or_zero(lun->Ok_0) > SUPPORT_SCSI_MAX_LUN {
        Some(
            ConfigErrorView::IllegalValue(
                "lun of scsi device"@,
                0,
                true,
                SUPPORT_SCSI_MAX_LUN as u64,
                true,
            ),
        )
    } else {
        None
    }
}

/// The device that faultless arguments describe, backed by the drive they
/// name when the configuration holds it and by nothing otherwise.
pub open spec fn scsi_device_from(fields: Fields, drives: Seq<DriveConfigView>) -> ScsiDevConfigView {
    let name = "scsi-device"@;
    let at = drive_index(drives, value_of(fields, "drive"@)->0, 0);
    let found = at < drives.len();
    ScsiDevConfigView {
        id: value_of(fields, "id"@)->0,
        path_on_host: if found {
            drives[at].path_on_host
        } else {
            Seq::<char>::empty()
        },
        serial: value_of(fields, "serial"@),
        bus: value_of(fields, "bus"@)->0,
        read_only: found && drives[at].read_only,
        direct: found && drives[at].direct,
        aio_type: if found {
            drives[at].aio
        } else {
            None
        },
        channel: 0,
        target: given_or_zero(number_of(fields, name, "scsi-id"@, u8::MAX as int)->Ok_0) as u8,
        lun: given_or_zero(number_of(fields, name, "lun"@, u16::MAX as int)->Ok_0) as u16,
    }
}

/// The drives that are left once a device has taken the one named `id`.
pub open spec fn drives_without(drives: Seq<DriveConfigView>, id: Seq<char>) -> Seq<
    DriveConfigView,
> {
    let at = drive_index(drives, id, 0);
    if at < drives.len() {
        drives.remove(at)
    } else {
        drives
    }
}

/// Reads the settings of a SCSI device from its argument text and gives it
/// the drive it names.
///
/// The drive leaves the configuration: no second device can take it. When
/// the text is rejected the configuration stays as it was.
pub fn parse_scsi_device(vm_config: &mut VmConfig, drive_config: &str) -> (r: Result<
    ScsiDevConfig,
    ConfigError,
>)
    ensures
        ({
            let reading = read_params(device_params(), "scsi-device"@, drive_config@);
            let fault = scsi_device_fault(reading.fields, reading.error);
            let drives = drive_views(old(vm_config).drives@);
            match r {
                Ok(d) => fault is None && d@ == scsi_device_from(reading.fields, drives)
                    && drive_views(final(vm_config).drives@) == drives_without(
                    drives,
                    value_of(reading.fields, "drive"@)->0,
                ),
                Err(e) => fault == Some(e@) && final(vm_config).drives@ == old(vm_config).drives@,
            }
        }),
        final(vm_config).mem_size == old(vm_config).mem_size,
        final(vm_config).nr_cpus == old(vm_config).nr_cpus,
        final(vm_config).serial == old(vm_config).serial,
        final(vm_config).pflashs == old(vm_config).pflashs,
        final(vm_config).nets == old(vm_config).nets,
        final(vm_config).consoles == old(vm_config).consoles,
        final(vm_config).balloon == old(vm_config).balloon,
        final(vm_config).rng == old(vm_config).rng,
        final(vm_config).devices == old(vm_config).devices,
        old(vm_config).wf() ==> final(vm_config).wf(),
{
    let mut cmd_parser = CmdParser::new("scsi-device");
    let empty = String::new();
    cmd_parser.push(empty.as_str());
    cmd_parser.push("id");
    cmd_parser.push("bus");
    cmd_parser.push("scsi-id");
    cmd_parser.push("lun");
    cmd_parser.push("serial");
    cmd_parser.push("drive");

    match cmd_parser.parse(drive_config) {
        Err(e) => {
            return Err(e);
        },
        Ok(()) => {},
    }
    let mut scsi_dev_cfg = ScsiDevConfig::default();

    let scsi_drive = match cmd_parser.get_value("drive") {
        Some(drive) => drive,
        None => {
            return Err(
                ConfigError::FieldIsMissing(
                    String::from_str("drive"),
                    String::from_str("scsi device"),
                ),
            );
        },
    };
    scsi_dev_cfg.serial = cmd_parser.get_value("serial");
    match cmd_parser.get_value("id") {
        Some(id) => {
            scsi_dev_cfg.id = id;
        },
        None => {
            return Err(
                ConfigError::FieldIsMissing(String::from_str("id"), String::from_str("scsi device")),
            );
        },
    }
    match cmd_parser.get_value("bus") {
        Some(bus) => {
            scsi_dev_cfg.bus = bus;
        },
        None => {
            return Err(
                ConfigError::FieldIsMissing(
                    String::from_str("bus"),
                    String::from_str("scsi device"),
                ),
            );
        },
    }
    match cmd_parser.get_number("scsi-id", VIRTIO_SCSI_MAX_TARGET as u32) {
        Err(e) => {
            return Err(e);
        },
        Ok(Some(target)) => {
            scsi_dev_cfg.target = target as u8;
        },
        Ok(None) => {},
    }
    match cmd_parser.get_number("lun", u16::MAX as u32) {
        Err(e) => {
            return Err(e);
        },
        Ok(Some(lun)) => {
            if lun > SUPPORT_SCSI_MAX_LUN as u32 {
                return Err(
                    ConfigError::IllegalValue(
                        String::from_str("lun of scsi device"),
                        0,
                        true,
                        SUPPORT_SCSI_MAX_LUN as u64,
                        true,
                    ),
                );
            }
            scsi_dev_cfg.lun = lun as u16;
        },
        Ok(None) => {},
    }
    match vm_config.take_drive(scsi_drive.as_str()) {
        Some(drive_arg) => {
            scsi_dev_cfg.path_on_host = drive_arg.path_on_host;
            scsi_dev_cfg.read_only = drive_arg.read_only;
            scsi_dev_cfg.direct = drive_arg.direct;
            scsi_dev_cfg.aio_type = drive_arg.aio;
        },
        None => {},
    }
    Ok(scsi_dev_cfg)
}

} // verus!
