//! The format of an audio stream that a guest announces in shared memory,
//! and what follows from a change of it for the host's sound stream.
//!
//! The host owns the connection to the sound server. The core decides the
//! sample specification and the channel layout for a new format, whether
//! the stream has to be reopened, and whether data may be played or
//! captured in the state the stream is in.

use vstd::prelude::*;

verus! {

/// Sample rate of the 44.1 kHz family, in Hz.
pub const AUDIO_SAMPLE_RATE_44KHZ: u32 = 44100;

/// Sample rate of the 48 kHz family, in Hz.
pub const AUDIO_SAMPLE_RATE_48KHZ: u32 = 48000;

/// Rate codes from here on belong to the 44.1 kHz family.
pub const WINDOWS_SAMPLE_BASE_RATE: u8 = 128;

/// Latency that the stream buffer is sized for, in milliseconds.
pub const TAGET_LATENCY_MS: u32 = 50;

/// Largest latency the stream buffer may reach, in milliseconds.
pub const MAX_LATENCY_MS: u32 = 100;

/// Number of speaker positions of a channel mask that have a counterpart.
pub const WINDOWS_POSITION_CNT: usize = 11;

/// The stream format as the guest announces it.
#[derive(Clone, Copy, Debug, PartialEq, Eq, Structural)]
pub struct ShmemStreamFmt {
    /// Counter of format changes.
    pub fmt_generation: u32,
    /// Code of the sample rate: a family bit and a multiplier.
    pub rate: u8,
    /// Bits per sample.
    pub size: u8,
    /// Number of channels.
    pub channels: u8,
    /// Mask of the speaker positions in use, lowest bit first.
    pub channel_map: u32,
}

impl Default for ShmemStreamFmt {
    /// A stereo stream whose rate and sample size are not announced yet.
    fn default() -> (fmt: ShmemStreamFmt)
        ensures
            fmt == (ShmemStreamFmt {
                fmt_generation: 0,
                rate: 0,
                size: 0,
                channels: 2,
                channel_map: 0x03,
            }),
    {
        ShmemStreamFmt { fmt_generation: 0, rate: 0, size: 0, channels: 2, channel_map: 0x03 }
    }
}

/// Sample encodings of the sound stream: signed little-endian integers.
#[derive(Clone, Copy, Debug, PartialEq, Eq, Structural)]
pub enum SampleFormat {
    S16le,
    S24le,
    S32le,
}

/// Speaker positions of the sound stream.
#[derive(Clone, Copy, Debug, PartialEq, Eq, Structural)]
pub enum ChannelPosition {
    FrontLeft,
    FrontRight,
    FrontCenter,
    Lfe,
    RearLeft,
    RearRight,
    FrontLeftOfCenter,
    FrontRightOfCenter,
    RearCenter,
    SideLeft,
    SideRight,
}

/// The sample specification of the sound stream. A rate of zero means that
/// nothing is played until the format changes again.
#[derive(Clone, Copy, Debug, PartialEq, Eq, Structural)]
pub struct SampleSpec {
    pub format: SampleFormat,
    pub rate: u32,
    pub channels: u8,
}

/// The channel layout of the sound stream.
#[derive(Clone, Debug, PartialEq, Eq)]
pub enum ChannelLayout {
    /// One channel.
    Mono,
    /// Left and right.
    Stereo,
    /// One position for each channel, in channel order.
    Positions(Vec<ChannelPosition>),
}

/// What a format announcement means for the sound stream.
#[derive(Clone, Debug, PartialEq, Eq)]
pub enum FormatChange {
    /// The format is the one in use.
    Unchanged,
    /// The stream has to be set up anew with this layout.
    Reconfigure(ChannelLayout),
}

/// The sample rate a rate code stands for: the family's base rate times
/// the multiplier in the lower seven bits.
pub open spec fn spec_sample_rate(code: u8) -> int {
    (if code >= WINDOWS_SAMPLE_BASE_RATE {
        AUDIO_SAMPLE_RATE_44KHZ as int
    } else {
        AUDIO_SAMPLE_RATE_48KHZ as int
    }) * (code as int % WINDOWS_SAMPLE_BASE_RATE as int)
}

/// The sample encoding for a sample size in bits, if there is one.
pub open spec fn spec_sample_format(size: u8) -> Option<SampleFormat> {
    if size == 16 {
        Some(SampleFormat::S16le)
    } else if size == 24 {
        Some(SampleFormat::S24le)
    } else if size == 32 {
        Some(SampleFormat::S32le)
    } else {
        None
    }
}

/// The speaker position for a bit of the channel mask. Bits without a
/// counterpart fall back to the front center.
pub open spec fn spec_speaker_position(key: int) -> ChannelPosition {
    if key == 0 {
        ChannelPosition::FrontLeft
    } else if key == 1 {
        ChannelPosition::FrontRight
    } else if key == 2 {
        ChannelPosition::FrontCenter
    } else if key == 3 {
        ChannelPosition::Lfe
    } else if key == 4 {
        ChannelPosition::RearLeft
    } else if key == 5 {
        ChannelPosition::RearRight
    } else if key == 6 {
        ChannelPosition::FrontLeftOfCenter
    } else if key == 7 {
        ChannelPosition::FrontRightOfCenter
    } else if key == 8 {
        ChannelPosition::RearCenter
    } else if key == 9 {
        ChannelPosition::SideLeft
    } else if key == 10 {
        ChannelPosition::SideRight
    } else {
        ChannelPosition::FrontCenter
    }
}

/// True when bit `j` of the mask is set.
pub open spec fn bit_set(mask: u32, j: u32) -> bool {
    (mask >> j) & 1 == 1
}

/// The lowest set bit of the mask at or above `j`, or `fallback`.
pub open spec fn set_bit_from(mask: u32, j: int, fallback: int) -> int
    decreases 32 - j,
{
    if j < 0 || j >= 32 {
        fallback
    } else if bit_set(mask, j as u32) {
        j
    } else {
        set_bit_from(mask, j + 1, fallback)
    }
}

/// The bit of the mask that the next channel takes: the lowest set bit
/// above `key`; when the mask has none left, `key` once more.
pub open spec fn next_speaker(mask: u32, key: int) -> int {
    set_bit_from(mask, key + 1, key)
}

/// The positions of `count` channels that follow the bit `key` of the mask.
pub open spec fn positions_after(mask: u32, key: int, count: nat) -> Seq<ChannelPosition>
    decreases count,
{
    if count == 0 {
        Seq::<ChannelPosition>::empty()
    } else {
        seq![spec_speaker_position(next_speaker(mask, key))] + positions_after(
            mask,
            next_speaker(mask, key),
            (count - 1) as nat,
        )
    }
}

/// The positions of the channels of a stream: channel by channel, the set
/// bits of the mask from the lowest on.
pub open spec fn channel_positions(channels: u8, mask: u32) -> Seq<ChannelPosition> {
    positions_after(mask, -1, channels as nat)
}

/// The channel layout for a format.
pub open spec fn spec_layout(fmt: ShmemStreamFmt) -> ChannelLayoutView {
    if fmt.channels == 1 {
        ChannelLayoutView::Mono
    } else if fmt.channels == 2 {
        ChannelLayoutView::Stereo
    } else {
        ChannelLayoutView::Positions(channel_positions(fmt.channels, fmt.channel_map))
    }
}

/// A `ChannelLayout` with its positions as a sequence.
pub enum ChannelLayoutView {
    Mono,
    Stereo,
    Positions(Seq<ChannelPosition>),
}

impl View for ChannelLayout {
    type V = ChannelLayoutView;

    open spec fn view(&self) -> ChannelLayoutView {
        match *self {
            ChannelLayout::Mono => ChannelLayoutView::Mono,
            ChannelLayout::Stereo => ChannelLayoutView::Stereo,
            ChannelLayout::Positions(p) => ChannelLayoutView::Positions(p@),
        }
    }
}

/// The sample specification for a format: a size without an encoding
/// keeps the encoding in use and silences the stream.
pub open spec fn spec_for(fmt: ShmemStreamFmt, current: SampleFormat) -> SampleSpec {
    match spec_sample_format(fmt.size) {
        Some(format) => SampleSpec {
            format,
            rate: spec_sample_rate(fmt.rate) as u32,
            channels: fmt.channels,
        },
        None => SampleSpec { format: current, rate: 0, channels: fmt.channels },
    }
}

/// The rate of every rate code fits the rate of a sample specification.
pub proof fn lemma_sample_rate_bounds(code: u8)
    ensures
        0 <= spec_sample_rate(code) <= 127 * AUDIO_SAMPLE_RATE_48KHZ,
        spec_sample_rate(code) == 0 <==> code % WINDOWS_SAMPLE_BASE_RATE == 0,
{
    let m = code as int % 128;
    assert(0 <= m <= 127);
    if code >= 128 {
        assert(44100 * m <= 44100 * 127) by (nonlinear_arith)
            requires
                0 <= m <= 127,
        ;
        assert(44100 * m == 0 <==> m == 0) by (nonlinear_arith)
            requires
                0 <= m <= 127,
        ;
    } else {
        assert(48000 * m <= 48000 * 127) by (nonlinear_arith)
            requires
                0 <= m <= 127,
        ;
        assert(48000 * m == 0 <==> m == 0) by (nonlinear_arith)
            requires
                0 <= m <= 127,
        ;
    }
}

/// Computes the sample rate a rate code stands for.
pub fn sample_rate(code: u8) -> (rate: u32)
    ensures
        rate == spec_sample_rate(code),
{
    proof {
        lemma_sample_rate_bounds(code);
    }
    let base: u32 = if code >= WINDOWS_SAMPLE_BASE_RATE {
        AUDIO_SAMPLE_RATE_44KHZ
    } else {
        AUDIO_SAMPLE_RATE_48KHZ
    };
    let multiplier: u32 = (code % WINDOWS_SAMPLE_BASE_RATE) as u32;
    assert(base * multiplier == spec_sample_rate(code));
    base * multiplier
}

/// Chooses the sample encoding for a sample size in bits.
pub fn sample_format(size: u8) -> (format: Option<SampleFormat>)
    ensures
        format == spec_sample_format(size),
{
    if size == 16 {
        Some(SampleFormat::S16le)
    } else if size == 24 {
        Some(SampleFormat::S24le)
    } else if size == 32 {
        Some(SampleFormat::S32le)
    } else {
        None
    }
}

/// Maps a bit of the channel mask to a speaker position.
pub fn speaker_position(key: i32) -> (position: ChannelPosition)
    ensures
        position == spec_speaker_position(key as int),
{
    if key == 0 {
        ChannelPosition::FrontLeft
    } else if key == 1 {
        ChannelPosition::FrontRight
    } else if key == 2 {
        ChannelPosition::FrontCenter
    } else if key == 3 {
        ChannelPosition::Lfe
    } else if key == 4 {
        ChannelPosition::RearLeft
    } else if key == 5 {
        ChannelPosition::RearRight
    } else if key == 6 {
        ChannelPosition::FrontLeftOfCenter
    } else if key == 7 {
        ChannelPosition::FrontRightOfCenter
    } else if key == 8 {
        ChannelPosition::RearCenter
    } else if key == 9 {
        ChannelPosition::SideLeft
    } else if key == 10 {
        ChannelPosition::SideRight
    } else {
        ChannelPosition::FrontCenter
    }
}

/// Finds the bit of the mask that the next channel takes.
fn find_next_speaker(mask: u32, key: i32) -> (next: i32)
    requires
        -1 <= key < 32,
    ensures
        next == next_speaker(mask, key as int),
        key <= next < 32,
{
    let mut j: i32 = key + 1;
    while j < 32
        invariant
            -1 <= key < 32,
            key < j <= 32,
            next_speaker(mask, key as int) == set_bit_from(mask, j as int, key as int),
        decreases 32 - j,
    {
        if (mask >> (j as u32)) & 0x01 == 1 {
            return j;
        }
        j = j + 1;
    }
    key
}

/// Maps the channels of a stream to speaker positions, following the
/// guest's channel mask.
pub fn transfer_channel_map(channels: u8, channel_map: u32) -> (positions: Vec<ChannelPosition>)
    ensures
        positions@ == channel_positions(channels, channel_map),
{
    let mut positions: Vec<ChannelPosition> = Vec::new();
    let mut key: i32 = -1;
    let mut i: u8 = 0;
    assert(positions@ + positions_after(channel_map, -1, channels as nat) =~= channel_positions(
        channels,
        channel_map,
    ));
    while i < channels
        invariant
            i <= channels,
            -1 <= key < 32,
            positions@ + positions_after(channel_map, key as int, (channels - i) as nat)
                == channel_positions(channels, channel_map),
        decreases channels - i,
    {
        let ghost before = positions@;
        key = find_next_speaker(channel_map, key);
        positions.push(speaker_position(key));
        assert(positions@ + positions_after(channel_map, key as int, (channels - i - 1) as nat)
            =~= before + (seq![spec_speaker_position(key as int)] + positions_after(
            channel_map,
            key as int,
            (channels - i - 1) as nat,
        )));
        i = i + 1;
    }
    assert(positions@ + Seq::<ChannelPosition>::empty() =~= positions@);
    positions
}

/// Chooses the channel layout for a format.
pub fn channel_layout(fmt: &ShmemStreamFmt) -> (layout: ChannelLayout)
    ensures
        layout@ == spec_layout(*fmt),
{
    if fmt.channels == 1 {
        ChannelLayout::Mono
    } else if fmt.channels == 2 {
        ChannelLayout::Stereo
    } else {
        ChannelLayout::Positions(transfer_channel_map(fmt.channels, fmt.channel_map))
    }
}

/// What the core knows of the host's sound stream.
#[derive(Clone, Copy, Debug, PartialEq, Eq, Structural)]
pub struct PulseStreamData {
    /// The format last announced by the guest.
    pub stream_fmt: ShmemStreamFmt,
    /// The sample specification in use.
    pub ss: SampleSpec,
    /// Latency the stream buffer is sized for, in milliseconds.
    pub latency: u32,
    /// The host has an open stream to the sound server.
    pub connected: bool,
}

impl PulseStreamData {
    /// The state of a stream that the host has just opened: 16-bit stereo
    /// at 44.1 kHz, to be replaced by the format the guest announces.
    pub fn init() -> (stream: PulseStreamData)
        ensures
            stream == (PulseStreamData {
                stream_fmt: ShmemStreamFmt {
                    fmt_generation: 0,
                    rate: 0,
                    size: 0,
                    channels: 2,
                    channel_map: 0x03,
                },
                ss: SampleSpec {
                    format: SampleFormat::S16le,
                    rate: AUDIO_SAMPLE_RATE_44KHZ,
                    channels: 2,
                },
                latency: TAGET_LATENCY_MS,
                connected: true,
            }),
    {
        PulseStreamData {
            stream_fmt: ShmemStreamFmt::default(),
            ss: SampleSpec { format: SampleFormat::S16le, rate: AUDIO_SAMPLE_RATE_44KHZ, channels: 2 },
            latency: TAGET_LATENCY_MS,
            connected: true,
        }
    }

    /// The length of the stream buffer's latency in microseconds.
    pub fn latency_usec(&self) -> (usec: u64)
        ensures
            usec == self.latency * 1000,
    {
        self.latency as u64 * 1000
    }

    /// Takes a format announcement of the guest.
    ///
    /// The format in use changes nothing. A new format is adopted: the
    /// sample specification follows it, and the stream has to be set up
    /// anew with the layout that is returned.
    pub fn check_fmt_update(&mut self, fmt: &ShmemStreamFmt) -> (change: FormatChange)
        ensures
            *fmt == old(self).stream_fmt ==> change is Unchanged && *final(self) == *old(self),
            *fmt != old(self).stream_fmt ==> {
                &&& change matches FormatChange::Reconfigure(layout) && layout@ == spec_layout(*fmt)
                &&& *final(self) == (PulseStreamData {
                    stream_fmt: *fmt,
                    ss: spec_for(*fmt, old(self).ss.format),
                    ..*old(self)
                })
            },
    {
        if self.stream_fmt == *fmt {
            return FormatChange::Unchanged;
        }
        self.stream_fmt = *fmt;
        self.ss.channels = fmt.channels;
        self.ss.rate = sample_rate(fmt.rate);
        match sample_format(fmt.size) {
            Some(format) => {
                self.ss.format = format;
            },
            None => {
                self.ss.rate = 0;
            },
        }
        FormatChange::Reconfigure(channel_layout(fmt))
    }

    /// Takes the host's finding on the channel map it built from the
    /// layout: whether the map fits the sample specification. A map that
    /// does not fit silences the stream. Returns whether the stream is to
    /// be reopened.
    pub fn channel_map_checked(&mut self, compatible: bool) -> (reopen: bool)
        ensures
            *final(self) == (PulseStreamData {
                ss: SampleSpec {
                    rate: if compatible {
                        old(self).ss.rate
                    } else {
                        0
                    },
                    ..old(self).ss
                },
                ..*old(self)
            }),
            reopen == (final(self).ss.rate > 0),
    {
        if !compatible {
            self.ss.rate = 0;
        }
        self.ss.rate > 0
    }

    /// Takes the host's report on reopening the stream.
    pub fn stream_reopened(&mut self, opened: bool)
        ensures
            *final(self) == (PulseStreamData { connected: opened, ..*old(self) }),
    {
        self.connected = opened;
    }

    /// Tells whether data may be played: the stream is open and not silenced.
    pub fn send(&self) -> (play: bool)
        ensures
            play == (self.ss.rate != 0 && self.connected),
    {
        !(self.ss.rate == 0 || !self.connected)
    }

    /// Tells whether data may be captured: the stream is open.
    pub fn receive(&self) -> (capture: bool)
        ensures
            capture == self.connected,
    {
        self.connected
    }

    /// Takes the host's report that capturing failed: the stream is
    /// silenced until the format changes again.
    pub fn capture_failed(&mut self)
        ensures
            *final(self) == (PulseStreamData {
                ss: SampleSpec { rate: 0, ..old(self).ss },
                ..*old(self)
            }),
    {
        self.ss.rate = 0;
    }
}

} // verus!
