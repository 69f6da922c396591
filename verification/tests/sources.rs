use timer_capture::channel::{Ch1, Ch2, Ch3, Ch4, Channel, ChannelMarker, InterruptFlag};

const SOURCES: [InterruptFlag; 8] = [
    InterruptFlag::Update,
    InterruptFlag::CaptureCompare1,
    InterruptFlag::CaptureCompare2,
    InterruptFlag::CaptureCompare3,
    InterruptFlag::CaptureCompare4,
    InterruptFlag::ComEvent,
    InterruptFlag::Trigger,
    InterruptFlag::Break,
];

#[test]
fn source_masks_are_the_eight_low_bits() {
    assert_eq!(u32::from(InterruptFlag::Update), 0x01);
    assert_eq!(u32::from(InterruptFlag::CaptureCompare1), 0x02);
    assert_eq!(u32::from(InterruptFlag::CaptureCompare2), 0x04);
    assert_eq!(u32::from(InterruptFlag::CaptureCompare3), 0x08);
    assert_eq!(u32::from(InterruptFlag::CaptureCompare4), 0x10);
    assert_eq!(u32::from(InterruptFlag::ComEvent), 0x20);
    assert_eq!(u32::from(InterruptFlag::Trigger), 0x40);
    assert_eq!(u32::from(InterruptFlag::Break), 0x80);
}

#[test]
fn source_bits_count_up_from_zero() {
    for (pos, source) in SOURCES.into_iter().enumerate() {
        assert_eq!(source.bit(), pos as u32);
        assert_eq!(u32::from(source), 1 << pos);
        assert_eq!(InterruptFlag::from_bit(pos as u32), Some(source));
    }
}

#[test]
fn positions_above_the_sources_name_none() {
    assert_eq!(InterruptFlag::from_bit(8), None);
    assert_eq!(InterruptFlag::from_bit(9), None);
    assert_eq!(InterruptFlag::from_bit(31), None);
    assert_eq!(InterruptFlag::from_bit(u32::MAX), None);
}

#[test]
fn sources_are_pairwise_distinct() {
    for a in SOURCES {
        for b in SOURCES {
            assert_eq!(a == b, u32::from(a) == u32::from(b));
        }
    }
}

#[test]
fn channel_maps_to_its_capture_compare_source() {
    assert_eq!(InterruptFlag::from(Channel::Ch1), InterruptFlag::CaptureCompare1);
    assert_eq!(InterruptFlag::from(Channel::Ch2), InterruptFlag::CaptureCompare2);
    assert_eq!(InterruptFlag::from(Channel::Ch3), InterruptFlag::CaptureCompare3);
    assert_eq!(InterruptFlag::from(Channel::Ch4), InterruptFlag::CaptureCompare4);
    for channel in [Channel::Ch1, Channel::Ch2, Channel::Ch3, Channel::Ch4] {
        assert_eq!(channel.interrupt_flag(), InterruptFlag::from(channel));
        assert_eq!(InterruptFlag::from(channel).channel(), Some(channel));
    }
}

#[test]
fn sources_without_a_channel() {
    assert_eq!(InterruptFlag::Update.channel(), None);
    assert_eq!(InterruptFlag::ComEvent.channel(), None);
    assert_eq!(InterruptFlag::Trigger.channel(), None);
    assert_eq!(InterruptFlag::Break.channel(), None);
}

#[test]
fn channel_index_is_its_number_minus_one() {
    assert_eq!(Channel::Ch1.index(), 0);
    assert_eq!(Channel::Ch2.index(), 1);
    assert_eq!(Channel::Ch3.index(), 2);
    assert_eq!(Channel::Ch4.index(), 3);
}

#[test]
fn markers_name_their_channels() {
    assert_eq!(<Ch1 as ChannelMarker>::channel(), Channel::Ch1);
    assert_eq!(<Ch2 as ChannelMarker>::channel(), Channel::Ch2);
    assert_eq!(<Ch3 as ChannelMarker>::channel(), Channel::Ch3);
    assert_eq!(<Ch4 as ChannelMarker>::channel(), Channel::Ch4);
}
