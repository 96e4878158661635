//! The machine configuration as the core reads it, and the errors that
//! reading textual device arguments can give.

use vstd::prelude::*;

verus! {

/// Longest identifier or name accepted in a device argument, in bytes.
pub const MAX_STRING_LENGTH: usize = 255;

/// Largest number of queues a virtio device may have.
pub const MAX_VIRTIO_QUEUE: usize = 32;

/// Why a textual device argument was rejected.
#[derive(Debug, Clone, PartialEq, Eq)]
pub enum ConfigError {
    /// The text (first) is malformed or names a parameter the device (second) does not have.
    InvalidParam(String, String),
    /// The device (first) was given the field (second) twice.
    FieldRepeat(String, String),
    /// The field (first) holds a value (second) that is not of its type.
    ConvertValueFailed(String, String),
    /// The field (first) is required by the device (second) and absent.
    FieldIsMissing(String, String),
    /// The named text is longer than the given number of bytes.
    StringLengthTooLong(String, usize),
    /// The named value lies outside the bounds; each bound comes with
    /// whether it is itself allowed.
    IllegalValue(String, u64, bool, u64, bool),
    /// A memory-mapped device was given the named bus argument.
    UnsupportedArgument(String),
}

/// A `ConfigError` with its texts as character sequences.
pub enum ConfigErrorView {
    InvalidParam(Seq<char>, Seq<char>),
    FieldRepeat(Seq<char>, Seq<char>),
    ConvertValueFailed(Seq<char>, Seq<char>),
    FieldIsMissing(Seq<char>, Seq<char>),
    StringLengthTooLong(Seq<char>, usize),
    IllegalValue(Seq<char>, u64, bool, u64, bool),
    UnsupportedArgument(Seq<char>),
}

impl View for ConfigError {
    type V = ConfigErrorView;

    open spec fn view(&self) -> ConfigErrorView {
        match *self {
            ConfigError::InvalidParam(a, b) => ConfigErrorView::InvalidParam(a@, b@),
            ConfigError::FieldRepeat(a, b) => ConfigErrorView::FieldRepeat(a@, b@),
            ConfigError::ConvertValueFailed(a, b) => ConfigErrorView::ConvertValueFailed(a@, b@),
            ConfigError::FieldIsMissing(a, b) => ConfigErrorView::FieldIsMissing(a@, b@),
            ConfigError::StringLengthTooLong(a, n) => ConfigErrorView::StringLengthTooLong(a@, n),
            ConfigError::IllegalValue(a, lo, lo_in, hi, hi_in) => ConfigErrorView::IllegalValue(
                a@,
                lo,
                lo_in,
                hi,
                hi_in,
            ),
            ConfigError::UnsupportedArgument(a) => ConfigErrorView::UnsupportedArgument(a@),
        }
    }
}

/// The view of an optional text.
pub open spec fn text_view(text: Option<String>) -> Option<Seq<char>> {
    match text {
        Some(t) => Some(t@),
        None => None,
    }
}

/// A block drive backing file, as the command line declared it.
#[derive(Debug, Clone, PartialEq, Eq)]
pub struct DriveConfig {
    /// Name by which devices refer to the drive.
    pub id: String,
    /// The image file path.
    pub path_on_host: String,
    /// The drive cannot be written.
    pub read_only: bool,
    /// Use direct access I/O.
    pub direct: bool,
    /// Asynchronous I/O type.
    pub aio: Option<String>,
}

/// A `DriveConfig` with its texts as character sequences.
pub struct DriveConfigView {
    pub id: Seq<char>,
    pub path_on_host: Seq<char>,
    pub read_only: bool,
    pub direct: bool,
    pub aio: Option<Seq<char>>,
}

impl View for DriveConfig {
    type V = DriveConfigView;

    open spec fn view(&self) -> DriveConfigView {
        DriveConfigView {
            id: self.id@,
            path_on_host: self.path_on_host@,
            read_only: self.read_only,
            direct: self.direct,
            aio: text_view(self.aio),
        }
    }
}

/// What the core reads of a machine's configuration.
///
/// Device categories whose settings only the device models understand are
/// held by their number: the core decides the order in which they are
/// realized, not how.
#[derive(Debug, Clone, PartialEq, Eq)]
pub struct VmConfig {
    /// Guest memory size in bytes.
    pub mem_size: u64,
    /// Number of virtual CPUs.
    pub nr_cpus: u8,
    /// A serial port is configured.
    pub serial: bool,
    /// Number of parallel-flash devices.
    pub pflashs: usize,
    /// Block drives, in the order they were declared.
    pub drives: Vec<DriveConfig>,
    /// Number of network interfaces.
    pub nets: usize,
    /// Number of consoles.
    pub consoles: usize,
    /// A memory balloon is configured.
    pub balloon: bool,
    /// An entropy device is configured.
    pub rng: bool,
    /// Generically declared devices: type name and raw argument text.
    pub devices: Vec<(String, String)>,
}

/// The drives of a configuration, each by its view.
pub open spec fn drive_views(drives: Seq<DriveConfig>) -> Seq<DriveConfigView> {
    drives.map_values(|d: DriveConfig| d@)
}

/// Index of the first drive named `id`, or the number of drives when none is.
pub open spec fn drive_index(drives: Seq<DriveConfigView>, id: Seq<char>, from: int) -> int
    decreases drives.len() - from,
{
    if from < 0 || from >= drives.len() {
        drives.len() as int
    } else if drives[from].id == id {
        from
    } else {
        drive_index(drives, id, from + 1)
    }
}

/// No two drives share a name.
pub open spec fn distinct_drives(drives: Seq<DriveConfigView>) -> bool {
    forall|i: int, j: int|
        0 <= i < j < drives.len() ==> (#[trigger] drives[i]).id != (#[trigger] drives[j]).id
}

impl VmConfig {
    /// A configuration names each drive once.
    pub open spec fn wf(&self) -> bool {
        distinct_drives(drive_views(self.drives@))
    }

    /// Looks a drive up by name.
    pub fn find_drive(&self, id: &str) -> (at: usize)
        ensures
            at == drive_index(drive_views(self.drives@), id@, 0),
            at <= self.drives@.len(),
            at < self.drives@.len() ==> self.drives@[at as int]@.id == id@,
    {
        let wanted = id.to_owned();
        let mut i: usize = 0;
        while i < self.drives.len()
            invariant
                wanted@ == id@,
                i <= self.drives@.len(),
                drive_index(drive_views(self.drives@), id@, 0) == drive_index(
                    drive_views(self.drives@),
                    id@,
                    i as int,
                ),
            decreases self.drives@.len() - i,
        {
            if self.drives[i].id == wanted {
                return i;
            }
            i = i + 1;
        }
        i
    }

    /// Takes the drive named `id` out of the configuration, if there is one.
    pub fn take_drive(&mut self, id: &str) -> (drive: Option<DriveConfig>)
        ensures
            ({
                let before = drive_views(old(self).drives@);
                let at = drive_index(before, id@, 0);
                &&& at < before.len() ==> (drive matches Some(d) && d@ == before[at]
                    && drive_views(final(self).drives@) == before.remove(at))
                &&& at >= before.len() ==> (drive is None && final(self).drives@ == old(
                    self,
                ).drives@)
            }),
            final(self).mem_size == old(self).mem_size,
            final(self).nr_cpus == old(self).nr_cpus,
            final(self).serial == old(self).serial,
            final(self).pflashs == old(self).pflashs,
            final(self).nets == old(self).nets,
            final(self).consoles == old(self).consoles,
            final(self).balloon == old(self).balloon,
            final(self).rng == old(self).rng,
            final(self).devices == old(self).devices,
            old(self).wf() ==> final(self).wf(),
    {
        let at = self.find_drive(id);
        if at < self.drives.len() {
            let ghost before = drive_views(self.drives@);
            let drive = self.drives.remove(at);
            proof {
                let after = drive_views(self.drives@);
                assert(after =~= before.remove(at as int));
                if distinct_drives(before) {
                    assert forall|i: int, j: int| 0 <= i < j < after.len() implies (
                    #[trigger] after[i]).id != (#[trigger] after[j]).id by {
                        let oi = if i < at { i } else { i + 1 };
                        let oj = if j < at { j } else { j + 1 };
                        assert(after[i] == before[oi]);
                        assert(after[j] == before[oj]);
                    }
                }
            }
            Some(drive)
        } else {
            None
        }
    }
}

} // verus!
