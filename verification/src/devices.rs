//! The device realization pipeline: which devices a configuration asks
//! for, and in which order they are realized.

use vstd::prelude::*;
use crate::config::VmConfig;
use crate::error::DeviceKind;
use crate::error::MachineError;
use crate::error::MachineErrorView;
use crate::pipeline::Action;
use crate::pipeline::Pipeline;
use crate::pipeline::PipelineView;
use crate::pipeline::first_failure;
use crate::pipeline::lemma_fails_at;
use crate::text::str_equal;

verus! {

/// The devices `0..n` of one category, in the order they were configured.
pub open spec fn batch(kind: DeviceKind, n: nat) -> Seq<Action> {
    Seq::new(n, |i: int| Action::AddDevice { kind, index: i as usize })
}

/// The one device of a category of which a machine has at most one.
pub open spec fn single(kind: DeviceKind, present: bool) -> Seq<Action> {
    if present {
        seq![Action::AddDevice { kind, index: 0 }]
    } else {
        Seq::<Action>::empty()
    }
}

/// What adding a virtual-socket transport asks of the host: read its
/// arguments and construct it, realize it on the memory-mapped virtio bus,
/// and register the bus device and the transport for migration.
pub open spec fn vsock_plan(index: usize) -> Seq<Action> {
    seq![
        Action::ConfigureVsock { index },
        Action::RealizeVirtioMmio { index },
        Action::RegisterVirtioMmio { index },
        Action::RegisterVsock { index },
    ]
}

/// The type names of the generically declared devices.
pub open spec fn device_names(devices: Seq<(String, String)>) -> Seq<Seq<char>> {
    devices.map_values(|d: (String, String)| d.0@)
}

/// True for the device types the generic pass knows.
pub open spec fn known_device(name: Seq<char>) -> bool {
    name == "vhost-vsock-device"@
}

/// Index of the first generically declared device at or after `from`
/// whose type is not known, or the number of devices.
pub open spec fn first_unknown(names: Seq<Seq<char>>, from: int) -> int
    decreases names.len() - from,
{
    if from < 0 || from >= names.len() {
        names.len() as int
    } else if !known_device(names[from]) {
        from
    } else {
        first_unknown(names, from + 1)
    }
}

/// The plans of the generically declared devices `0..upto`, one after the other.
pub open spec fn generic_plan(upto: nat) -> Seq<Action>
    decreases upto,
{
    if upto == 0 {
        Seq::<Action>::empty()
    } else {
        generic_plan((upto - 1) as nat) + vsock_plan((upto - 1) as usize)
    }
}

/// The devices with a configuration of their own, in the order in which
/// they are realized: the real-time clock, the serial port, the parallel
/// flashes, the block drives, the network interfaces, the consoles, the
/// memory balloon and the entropy device.
pub open spec fn fixed_plan(
    serial: bool,
    pflashs: nat,
    drives: nat,
    nets: nat,
    consoles: nat,
    balloon: bool,
    rng: bool,
) -> Seq<Action> {
    seq![Action::AddDevice { kind: DeviceKind::Rtc, index: 0 }] + single(DeviceKind::Serial, serial)
        + batch(DeviceKind::Pflash, pflashs) + batch(DeviceKind::Block, drives) + batch(
        DeviceKind::Net,
        nets,
    ) + batch(DeviceKind::Console, consoles) + single(DeviceKind::Balloon, balloon) + single(
        DeviceKind::Rng,
        rng,
    )
}

/// The devices of a configuration that have a configuration of their own.
pub open spec fn fixed_plan_of(vm_config: VmConfig) -> Seq<Action> {
    fixed_plan(
        vm_config.serial,
        vm_config.pflashs as nat,
        vm_config.drives@.len(),
        vm_config.nets as nat,
        vm_config.consoles as nat,
        vm_config.balloon,
        vm_config.rng,
    )
}

/// The number of actions that realizing a configuration can take.
pub open spec fn plan_bound(vm_config: VmConfig) -> int {
    4 + vm_config.pflashs + vm_config.drives@.len() + vm_config.nets + vm_config.consoles + 4
        * vm_config.devices@.len()
}

/// What realizing the devices of a configuration asks of the host.
///
/// The devices with a configuration of their own come first, in their
/// fixed order; the generically declared devices follow in the order they
/// were declared. The first of these whose type is not known ends the plan:
/// the devices before it are realized, then the pipeline fails with an
/// error that names the type.
pub open spec fn device_plan(vm_config: VmConfig) -> PipelineView {
    let names = device_names(vm_config.devices@);
    let stop = first_unknown(names, 0);
    PipelineView::start(
        fixed_plan_of(vm_config) + generic_plan(stop as nat),
        if stop < names.len() {
            Some(names[stop])
        } else {
            None
        },
    )
}

/// The position of the `index`-th block drive in the plan.
pub open spec fn drive_position(vm_config: VmConfig, index: nat) -> nat {
    1 + (if vm_config.serial {
        1nat
    } else {
        0nat
    }) + vm_config.pflashs as nat + index
}

/// The plan realizes the block drives in list order, after the clock, the
/// serial port and the parallel flashes.
pub proof fn lemma_drive_position(vm_config: VmConfig, index: nat)
    requires
        index < vm_config.drives@.len(),
        plan_bound(vm_config) <= usize::MAX,
    ensures
        drive_position(vm_config, index) < device_plan(vm_config).steps.len(),
        device_plan(vm_config).steps[drive_position(vm_config, index) as int] == (
        Action::AddDevice { kind: DeviceKind::Block, index: index as usize }),
        forall|i: int|
            0 <= i < drive_position(vm_config, index) ==> (
            #[trigger] device_plan(vm_config).steps[i] matches Action::AddDevice { kind, index: at }
                && (kind == DeviceKind::Rtc || kind == DeviceKind::Serial || kind
                == DeviceKind::Pflash || (kind == DeviceKind::Block && at < index))),
{
}

/// A block drive that cannot be realized ends the pipeline with an error
/// that names the block category.
///
/// If the host's first failure report falls on the `index`-th drive, the
/// pipeline ends there with the error for a block device; the devices
/// realized are exactly those before the drive in plan order, and nothing
/// after the drive is attempted.
pub proof fn lemma_bad_drive_is_reported(vm_config: VmConfig, index: nat, reports: Seq<bool>)
    requires
        index < vm_config.drives@.len(),
        plan_bound(vm_config) <= usize::MAX,
        first_failure(reports) == drive_position(vm_config, index),
        first_failure(reports) < reports.len(),
    ensures
        ({
            let plan = device_plan(vm_config);
            let end = plan.run(reports);
            &&& end.result() == Some(
                Err::<(), MachineErrorView>(MachineErrorView::AddDevErr(DeviceKind::Block)),
            )
            &&& end.performed() == plan.steps.take(drive_position(vm_config, index) as int)
            &&& end.issued() == plan.steps.take(drive_position(vm_config, index) as int + 1)
            &&& end.pending() is None
        }),
{
    lemma_drive_position(vm_config, index);
    lemma_fails_at(device_plan(vm_config), reports);
}

/// A configuration that declares a device of an unknown type is rejected
/// with an error that names the type, once the devices before it are
/// realized; it never ends well.
pub proof fn lemma_unknown_device_is_rejected(vm_config: VmConfig, reports: Seq<bool>)
    requires
        first_unknown(device_names(vm_config.devices@), 0) < vm_config.devices@.len(),
    ensures
        ({
            let names = device_names(vm_config.devices@);
            let end = device_plan(vm_config).run(reports);
            &&& end.result() != Some(Ok::<(), MachineErrorView>(()))
            &&& !end.failed && end.pending() is None ==> end.result() == Some(
                Err::<(), MachineErrorView>(
                    MachineErrorView::UnsupportedDevice(names[first_unknown(names, 0)]),
                ),
            )
        }),
{
    crate::pipeline::lemma_run_keeps_plan(device_plan(vm_config), reports);
}

/// `first_unknown` stays between its starting point and the end.
proof fn lemma_first_unknown_bounds(names: Seq<Seq<char>>, from: int)
    requires
        0 <= from <= names.len(),
    ensures
        from <= first_unknown(names, from) <= names.len(),
    decreases names.len() - from,
{
    if from < names.len() && known_device(names[from]) {
        lemma_first_unknown_bounds(names, from + 1);
    }
}

/// The number of actions of the plan of generically declared devices.
proof fn lemma_generic_plan_len(upto: nat)
    ensures
        generic_plan(upto).len() == 4 * upto,
    decreases upto,
{
    if upto > 0 {
        lemma_generic_plan_len((upto - 1) as nat);
    }
}

/// Plans the addition of a virtual-socket transport whose arguments are
/// those of the `index`-th generically declared device.
pub fn add_virtio_vsock(index: usize) -> (steps: Vec<Action>)
    ensures
        steps@ == vsock_plan(index),
{
    let mut steps: Vec<Action> = Vec::new();
    steps.push(Action::ConfigureVsock { index });
    steps.push(Action::RealizeVirtioMmio { index });
    steps.push(Action::RegisterVirtioMmio { index });
    steps.push(Action::RegisterVsock { index });
    assert(steps@ =~= vsock_plan(index));
    steps
}

/// What a machine without a memory-mapped virtio transport answers to the
/// request to realize a device on it.
pub fn realize_virtio_mmio_device() -> (r: Result<(), MachineError>)
    ensures
        r == Err::<(), MachineError>(MachineError::VirtioMmioNotSupported),
{
    Err(MachineError::VirtioMmioNotSupported)
}

/// What a machine without parallel flash answers to the request to add one.
pub fn add_pflash_device() -> (r: Result<(), MachineError>)
    ensures
        r == Err::<(), MachineError>(MachineError::PflashNotSupported),
{
    Err(MachineError::PflashNotSupported)
}

/// What a machine without an entropy device does with the request to add
/// one: nothing, successfully.
pub fn add_rng_device() -> (r: Result<(), MachineError>)
    ensures
        r == Ok::<(), MachineError>(()),
{
    Ok(())
}

/// Appends the devices `0..n` of one category to a plan.
fn push_batch(steps: &mut Vec<Action>, kind: DeviceKind, n: usize)
    requires
        old(steps)@.len() + n <= usize::MAX,
    ensures
        final(steps)@ == old(steps)@ + batch(kind, n as nat),
{
    let ghost before = steps@;
    let mut i: usize = 0;
    assert(steps@ =~= before + batch(kind, 0));
    while i < n
        invariant
            i <= n,
            before.len() + n <= usize::MAX,
            steps@ == before + batch(kind, i as nat),
        decreases n - i,
    {
        steps.push(Action::AddDevice { kind, index: i });
        assert(steps@ =~= before + batch(kind, (i + 1) as nat));
        i = i + 1;
    }
}

/// Appends the one device of a category to a plan, if it is configured.
fn push_single(steps: &mut Vec<Action>, kind: DeviceKind, present: bool)
    requires
        old(steps)@.len() < usize::MAX,
    ensures
        final(steps)@ == old(steps)@ + single(kind, present),
{
    let ghost before = steps@;
    if present {
        steps.push(Action::AddDevice { kind, index: 0 });
    }
    assert(steps@ =~= before + single(kind, present));
}

/// Tells whether realizing the configuration takes a number of actions
/// that can be counted.
pub fn plan_fits(vm_config: &VmConfig) -> (fits: bool)
    ensures
        fits == (plan_bound(*vm_config) <= usize::MAX),
{
    let generic = vm_config.devices.len();
    if generic > (usize::MAX - 4) / 4 {
        return false;
    }
    let mut total: usize = 4 + 4 * generic;
    if vm_config.pflashs > usize::MAX - total {
        return false;
    }
    total = total + vm_config.pflashs;
    if vm_config.drives.len() > usize::MAX - total {
        return false;
    }
    total = total + vm_config.drives.len();
    if vm_config.nets > usize::MAX - total {
        return false;
    }
    total = total + vm_config.nets;
    vm_config.consoles <= usize::MAX - total
}

/// Plans the realization of the devices of a configuration.
pub fn add_devices(vm_config: &VmConfig) -> (pipeline: Pipeline)
    requires
        plan_bound(*vm_config) <= usize::MAX,
    ensures
        pipeline@ == device_plan(*vm_config),
{
    let mut steps: Vec<Action> = Vec::new();
    steps.push(Action::AddDevice { kind: DeviceKind::Rtc, index: 0 });
    assert(steps@ =~= seq![Action::AddDevice { kind: DeviceKind::Rtc, index: 0 }]);
    push_single(&mut steps, DeviceKind::Serial, vm_config.serial);
    push_batch(&mut steps, DeviceKind::Pflash, vm_config.pflashs);
    push_batch(&mut steps, DeviceKind::Block, vm_config.drives.len());
    push_batch(&mut steps, DeviceKind::Net, vm_config.nets);
    push_batch(&mut steps, DeviceKind::Console, vm_config.consoles);
    push_single(&mut steps, DeviceKind::Balloon, vm_config.balloon);
    push_single(&mut steps, DeviceKind::Rng, vm_config.rng);
    assert(steps@ == fixed_plan_of(*vm_config));

    let ghost names = device_names(vm_config.devices@);
    let ghost fixed = steps@;
    let mut unsupported: Option<String> = None;
    let mut i: usize = 0;
    assert(steps@ =~= fixed + generic_plan(0));
    while i < vm_config.devices.len()
        invariant_except_break
            first_unknown(names, 0) == first_unknown(names, i as int),
            unsupported is None,
        invariant
            i <= vm_config.devices@.len(),
            names == device_names(vm_config.devices@),
            fixed == fixed_plan_of(*vm_config),
            plan_bound(*vm_config) <= usize::MAX,
            steps@ == fixed + generic_plan(i as nat),
        ensures
            i == first_unknown(names, 0),
            crate::config::text_view(unsupported) == (if i < names.len() {
                Some(names[i as int])
            } else {
                None
            }),
        decreases vm_config.devices@.len() - i,
    {
        let dev = &vm_config.devices[i];
        assert(names[i as int] == dev.0@);
        if !str_equal(dev.0.as_str(), "vhost-vsock-device") {
            unsupported = Some(dev.0.clone());
            break ;
        }
        proof {
            lemma_generic_plan_len(i as nat);
        }
        let mut vsock = add_virtio_vsock(i);
        steps.append(&mut vsock);
        assert(steps@ =~= fixed + generic_plan((i + 1) as nat));
        i = i + 1;
    }
    proof {
        lemma_first_unknown_bounds(names, 0);
    }
    Pipeline::new(steps, unsupported)
}

} // verus!
