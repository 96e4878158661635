use machine::scream::{
    channel_layout, sample_format, sample_rate, speaker_position, transfer_channel_map,
    ChannelLayout, ChannelPosition, FormatChange, PulseStreamData, SampleFormat, SampleSpec,
    ShmemStreamFmt, AUDIO_SAMPLE_RATE_44KHZ, MAX_LATENCY_MS, TAGET_LATENCY_MS,
};

fn fmt(rate: u8, size: u8, channels: u8, channel_map: u32) -> ShmemStreamFmt {
    ShmemStreamFmt { fmt_generation: 1, rate, size, channels, channel_map }
}

#[test]
fn rate_codes() {
    assert_eq!(sample_rate(0), 0);
    assert_eq!(sample_rate(1), 48000);
    assert_eq!(sample_rate(2), 96000);
    assert_eq!(sample_rate(127), 6_096_000);
    assert_eq!(sample_rate(128), 0);
    assert_eq!(sample_rate(129), 44100);
    assert_eq!(sample_rate(130), 88200);
    assert_eq!(sample_rate(255), 5_600_700);
}

#[test]
fn sample_sizes() {
    assert_eq!(sample_format(16), Some(SampleFormat::S16le));
    assert_eq!(sample_format(24), Some(SampleFormat::S24le));
    assert_eq!(sample_format(32), Some(SampleFormat::S32le));
    for size in [0u8, 8, 15, 17, 31, 33, 64, 255] {
        assert_eq!(sample_format(size), None);
    }
}

#[test]
fn speaker_positions() {
    let table = [
        ChannelPosition::FrontLeft,
        ChannelPosition::FrontRight,
        ChannelPosition::FrontCenter,
        ChannelPosition::Lfe,
        ChannelPosition::RearLeft,
        ChannelPosition::RearRight,
        ChannelPosition::FrontLeftOfCenter,
        ChannelPosition::FrontRightOfCenter,
        ChannelPosition::RearCenter,
        ChannelPosition::SideLeft,
        ChannelPosition::SideRight,
    ];
    for (key, position) in table.iter().enumerate() {
        assert_eq!(speaker_position(key as i32), *position);
    }
    assert_eq!(speaker_position(11), ChannelPosition::FrontCenter);
    assert_eq!(speaker_position(31), ChannelPosition::FrontCenter);
    assert_eq!(speaker_position(-1), ChannelPosition::FrontCenter);
}

#[test]
fn channels_follow_the_mask() {
    // 5.1: front left, front right, front center, lfe, rear left, rear right.
    assert_eq!(
        transfer_channel_map(6, 0x3f),
        vec![
            ChannelPosition::FrontLeft,
            ChannelPosition::FrontRight,
            ChannelPosition::FrontCenter,
            ChannelPosition::Lfe,
            ChannelPosition::RearLeft,
            ChannelPosition::RearRight,
        ]
    );
    // Quadraphonic with side speakers: bits 0, 1, 9 and 10.
    assert_eq!(
        transfer_channel_map(4, 0x603),
        vec![
            ChannelPosition::FrontLeft,
            ChannelPosition::FrontRight,
            ChannelPosition::SideLeft,
            ChannelPosition::SideRight,
        ]
    );
    assert_eq!(transfer_channel_map(0, 0xffff_ffff), Vec::new());
}

#[test]
fn channels_beyond_the_mask_repeat_its_last_speaker() {
    assert_eq!(
        transfer_channel_map(3, 0b1),
        vec![ChannelPosition::FrontLeft, ChannelPosition::FrontLeft, ChannelPosition::FrontLeft]
    );
    assert_eq!(
        transfer_channel_map(3, 0b1000),
        vec![ChannelPosition::Lfe, ChannelPosition::Lfe, ChannelPosition::Lfe]
    );
    // Without any speaker every channel falls back to the center.
    assert_eq!(
        transfer_channel_map(2, 0),
        vec![ChannelPosition::FrontCenter, ChannelPosition::FrontCenter]
    );
    // A speaker without a counterpart falls back to the center too.
    assert_eq!(
        transfer_channel_map(3, 0x8000_0801),
        vec![ChannelPosition::FrontLeft, ChannelPosition::FrontCenter, ChannelPosition::FrontCenter]
    );
    assert_eq!(transfer_channel_map(255, 0x3).len(), 255);
}

#[test]
fn layouts() {
    assert_eq!(channel_layout(&fmt(1, 16, 1, 0x3f)), ChannelLayout::Mono);
    assert_eq!(channel_layout(&fmt(1, 16, 2, 0)), ChannelLayout::Stereo);
    assert_eq!(
        channel_layout(&fmt(1, 16, 3, 0b111)),
        ChannelLayout::Positions(vec![
            ChannelPosition::FrontLeft,
            ChannelPosition::FrontRight,
            ChannelPosition::FrontCenter,
        ])
    );
    assert_eq!(channel_layout(&fmt(1, 16, 0, 0b111)), ChannelLayout::Positions(Vec::new()));
}

#[test]
fn a_fresh_stream() {
    let stream = PulseStreamData::init();
    assert_eq!(stream.stream_fmt, ShmemStreamFmt::default());
    assert_eq!(
        stream.stream_fmt,
        ShmemStreamFmt { fmt_generation: 0, rate: 0, size: 0, channels: 2, channel_map: 3 }
    );
    assert_eq!(
        stream.ss,
        SampleSpec { format: SampleFormat::S16le, rate: AUDIO_SAMPLE_RATE_44KHZ, channels: 2 }
    );
    assert_eq!(stream.latency, TAGET_LATENCY_MS);
    assert_eq!(stream.latency_usec(), 50_000);
    assert_eq!(MAX_LATENCY_MS, 100);
    assert!(stream.connected);
    assert!(stream.send());
    assert!(stream.receive());
}

#[test]
fn the_format_in_use_changes_nothing() {
    let mut stream = PulseStreamData::init();
    let before = stream;
    assert_eq!(stream.check_fmt_update(&ShmemStreamFmt::default()), FormatChange::Unchanged);
    assert_eq!(stream, before);
}

#[test]
fn a_new_format_is_adopted() {
    let mut stream = PulseStreamData::init();
    let new = fmt(130, 24, 6, 0x3f);
    let change = stream.check_fmt_update(&new);
    assert_eq!(
        change,
        FormatChange::Reconfigure(ChannelLayout::Positions(vec![
            ChannelPosition::FrontLeft,
            ChannelPosition::FrontRight,
            ChannelPosition::FrontCenter,
            ChannelPosition::Lfe,
            ChannelPosition::RearLeft,
            ChannelPosition::RearRight,
        ]))
    );
    assert_eq!(stream.stream_fmt, new);
    assert_eq!(stream.ss, SampleSpec { format: SampleFormat::S24le, rate: 88200, channels: 6 });
    assert!(stream.channel_map_checked(true));
    stream.stream_reopened(true);
    assert!(stream.send());
    // The same announcement again changes nothing.
    assert_eq!(stream.check_fmt_update(&new), FormatChange::Unchanged);
    // Only the generation counter differs: still a new format.
    let again = ShmemStreamFmt { fmt_generation: 2, ..new };
    assert_eq!(
        stream.check_fmt_update(&again),
        FormatChange::Reconfigure(channel_layout(&again))
    );
}

#[test]
fn an_unknown_sample_size_silences_the_stream() {
    let mut stream = PulseStreamData::init();
    stream.check_fmt_update(&fmt(129, 32, 2, 3));
    assert_eq!(stream.ss.format, SampleFormat::S32le);
    let change = stream.check_fmt_update(&fmt(129, 20, 2, 3));
    assert_eq!(change, FormatChange::Reconfigure(ChannelLayout::Stereo));
    // The encoding in use stays, the rate is gone.
    assert_eq!(stream.ss, SampleSpec { format: SampleFormat::S32le, rate: 0, channels: 2 });
    assert!(!stream.channel_map_checked(true));
    assert!(!stream.send());
    // Capturing only needs the stream.
    assert!(stream.receive());
}

#[test]
fn a_channel_map_that_does_not_fit_silences_the_stream() {
    let mut stream = PulseStreamData::init();
    stream.check_fmt_update(&fmt(1, 16, 4, 0x33));
    assert_eq!(stream.ss.rate, 48000);
    assert!(!stream.channel_map_checked(false));
    assert_eq!(stream.ss.rate, 0);
    assert_eq!(stream.ss.channels, 4);
    assert!(!stream.send());
}

#[test]
fn a_stream_that_cannot_be_reopened_plays_and_captures_nothing() {
    let mut stream = PulseStreamData::init();
    stream.check_fmt_update(&fmt(1, 16, 2, 3));
    assert!(stream.channel_map_checked(true));
    stream.stream_reopened(false);
    assert!(!stream.connected);
    assert!(!stream.send());
    assert!(!stream.receive());
    assert_eq!(stream.ss.rate, 48000);
}

#[test]
fn a_failed_capture_silences_the_stream() {
    let mut stream = PulseStreamData::init();
    stream.capture_failed();
    assert_eq!(stream.ss.rate, 0);
    assert!(stream.connected);
    assert!(!stream.send());
    assert!(stream.receive());
}
