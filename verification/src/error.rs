//! Errors of machine construction and of life-cycle transitions.

use vstd::prelude::*;
use crate::lifecycle::MachineState;
use crate::lifecycle::VcpuOp;

verus! {

/// The categories of device the realization pipeline knows.
#[derive(Clone, Copy, Debug, PartialEq, Eq, Structural)]
pub enum DeviceKind {
    Rtc,
    Serial,
    Pflash,
    Block,
    Net,
    Console,
    Balloon,
    Rng,
    Vsock,
}

impl DeviceKind {
    /// The label under which failures of this category are reported.
    pub open spec fn spec_label(self) -> Seq<char> {
        match self {
            DeviceKind::Rtc => "RTC"@,
            DeviceKind::Serial => "serial"@,
            DeviceKind::Pflash => "pflash"@,
            DeviceKind::Block => "block"@,
            DeviceKind::Net => "net"@,
            DeviceKind::Console => "console"@,
            DeviceKind::Balloon => "balloon"@,
            DeviceKind::Rng => "rng"@,
            DeviceKind::Vsock => "vsock"@,
        }
    }

    /// The label under which failures of this category are reported.
    pub fn label(&self) -> (label: &'static str)
        ensures
            label@ == self.spec_label(),
    {
        match self {
            DeviceKind::Rtc => "RTC",
            DeviceKind::Serial => "serial",
            DeviceKind::Pflash => "pflash",
            DeviceKind::Block => "block",
            DeviceKind::Net => "net",
            DeviceKind::Console => "console",
            DeviceKind::Balloon => "balloon",
            DeviceKind::Rng => "rng",
            DeviceKind::Vsock => "vsock",
        }
    }
}

/// Why building or driving a machine failed.
#[derive(Debug, Clone, PartialEq, Eq)]
pub enum MachineError {
    /// A device of the given category could not be added.
    AddDevErr(DeviceKind),
    /// The configuration names a device type that is not known.
    UnsupportedDevice(String),
    /// The hypervisor listener of the memory address space was refused.
    RegMemListenerErr,
    /// The hypervisor listener of the I/O address space was refused.
    RegIoListenerErr,
    /// Host memory for the guest RAM could not be mapped.
    MapRamErr,
    /// The RAM region with this base and size could not be registered.
    RegMemRegionErr(u64, u64),
    /// The registers of the vCPU with this index could not be initialized.
    RealizeVcpuErr(u8),
    /// A memory-mapped virtio device could not be realized.
    RlzVirtioMmioErr,
    /// The machine has no memory-mapped virtio transport.
    VirtioMmioNotSupported,
    /// The machine has no parallel flash.
    PflashNotSupported,
    /// The system-call filter could not be installed.
    SeccompErr,
    /// The power button could not be registered with the event loop.
    RegNotifierErr,
    /// The vCPU with this index could not be started.
    StartVcpuErr(u8),
    /// The vCPU with this index could not be paused.
    PauseVcpuErr(u8),
    /// The vCPU with this index could not be resumed.
    ResumeVcpuErr(u8),
    /// The vCPU with this index could not be destroyed.
    DestroyVcpuErr(u8),
    /// The machine is not in the state the transition was to leave.
    StateCheckFailed,
    /// No transition leads from the one state to the other.
    IllegalTransition,
    /// The transition from the first state to the second did not arrive.
    TransferFailed(MachineState, MachineState),
}

/// A `MachineError` with its text as a character sequence.
pub enum MachineErrorView {
    AddDevErr(DeviceKind),
    UnsupportedDevice(Seq<char>),
    RegMemListenerErr,
    RegIoListenerErr,
    MapRamErr,
    RegMemRegionErr(u64, u64),
    RealizeVcpuErr(u8),
    RlzVirtioMmioErr,
    VirtioMmioNotSupported,
    PflashNotSupported,
    SeccompErr,
    RegNotifierErr,
    StartVcpuErr(u8),
    PauseVcpuErr(u8),
    ResumeVcpuErr(u8),
    DestroyVcpuErr(u8),
    StateCheckFailed,
    IllegalTransition,
    TransferFailed(MachineState, MachineState),
}

impl View for MachineError {
    type V = MachineErrorView;

    open spec fn view(&self) -> MachineErrorView {
        match *self {
            MachineError::AddDevErr(kind) => MachineErrorView::AddDevErr(kind),
            MachineError::UnsupportedDevice(name) => MachineErrorView::UnsupportedDevice(name@),
            MachineError::RegMemListenerErr => MachineErrorView::RegMemListenerErr,
            MachineError::RegIoListenerErr => MachineErrorView::RegIoListenerErr,
            MachineError::MapRamErr => MachineErrorView::MapRamErr,
            MachineError::RegMemRegionErr(base, size) => MachineErrorView::RegMemRegionErr(
                base,
                size,
            ),
            MachineError::RealizeVcpuErr(index) => MachineErrorView::RealizeVcpuErr(index),
            MachineError::RlzVirtioMmioErr => MachineErrorView::RlzVirtioMmioErr,
            MachineError::VirtioMmioNotSupported => MachineErrorView::VirtioMmioNotSupported,
            MachineError::PflashNotSupported => MachineErrorView::PflashNotSupported,
            MachineError::SeccompErr => MachineErrorView::SeccompErr,
            MachineError::RegNotifierErr => MachineErrorView::RegNotifierErr,
            MachineError::StartVcpuErr(index) => MachineErrorView::StartVcpuErr(index),
            MachineError::PauseVcpuErr(index) => MachineErrorView::PauseVcpuErr(index),
            MachineError::ResumeVcpuErr(index) => MachineErrorView::ResumeVcpuErr(index),
            MachineError::DestroyVcpuErr(index) => MachineErrorView::DestroyVcpuErr(index),
            MachineError::StateCheckFailed => MachineErrorView::StateCheckFailed,
            MachineError::IllegalTransition => MachineErrorView::IllegalTransition,
            MachineError::TransferFailed(from, to) => MachineErrorView::TransferFailed(from, to),
        }
    }
}

/// The error that names the vCPU on which a life-cycle operation failed.
pub open spec fn vcpu_failure(op: VcpuOp, index: u8) -> MachineErrorView {
    match op {
        VcpuOp::Start { paused } => MachineErrorView::StartVcpuErr(index),
        VcpuOp::Pause => MachineErrorView::PauseVcpuErr(index),
        VcpuOp::Resume => MachineErrorView::ResumeVcpuErr(index),
        VcpuOp::Destroy => MachineErrorView::DestroyVcpuErr(index),
    }
}

} // verus!
