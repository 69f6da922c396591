use timer_capture::channel::Channel;
use timer_capture::codec::{
    ChannelClaimed, ChannelFactory, TimerCapture, TimerCaptureChannel, TimerCaptureCompareBase,
    TimerCompare, TimerCompareChannel,
};
use timer_capture::config::{CaptureInputPolarity, FilterValue, InputCaptureMode, Selection};
use timer_capture::regs::TimerRegs;

const CHANNELS: [Channel; 4] = [Channel::Ch1, Channel::Ch2, Channel::Ch3, Channel::Ch4];

const POLARITIES: [CaptureInputPolarity; 4] = [
    CaptureInputPolarity::RisingEdge,
    CaptureInputPolarity::FallingEdge,
    CaptureInputPolarity::Reserved,
    CaptureInputPolarity::BothEdge,
];

const FILTERS: [FilterValue; 16] = [
    FilterValue::NOFILTER,
    FilterValue::FCK_INT_N2,
    FilterValue::FCK_INT_N4,
    FilterValue::FCK_INT_N8,
    FilterValue::FDTS_DIV2_N6,
    FilterValue::FDTS_DIV2_N8,
    FilterValue::FDTS_DIV4_N6,
    FilterValue::FDTS_DIV4_N8,
    FilterValue::FDTS_DIV8_N6,
    FilterValue::FDTS_DIV8_N8,
    FilterValue::FDTS_DIV16_N5,
    FilterValue::FDTS_DIV16_N6,
    FilterValue::FDTS_DIV16_N8,
    FilterValue::FDTS_DIV32_N5,
    FilterValue::FDTS_DIV32_N6,
    FilterValue::FDTS_DIV32_N8,
];

fn capture(channel: Channel) -> TimerCaptureChannel {
    ChannelFactory::new().get_capture(channel).unwrap()
}

fn compare(channel: Channel) -> TimerCompareChannel {
    ChannelFactory::new().get_compare(channel).unwrap()
}

#[test]
fn view_knows_its_channel() {
    for channel in CHANNELS {
        assert_eq!(capture(channel).ch(), channel);
        assert_eq!(compare(channel).ch(), channel);
    }
}

#[test]
fn polarity_bits_follow_the_table() {
    assert_eq!((CaptureInputPolarity::RisingEdge.ccnp(), CaptureInputPolarity::RisingEdge.ccp()), (false, false));
    assert_eq!((CaptureInputPolarity::FallingEdge.ccnp(), CaptureInputPolarity::FallingEdge.ccp()), (false, true));
    assert_eq!((CaptureInputPolarity::Reserved.ccnp(), CaptureInputPolarity::Reserved.ccp()), (true, false));
    assert_eq!((CaptureInputPolarity::BothEdge.ccnp(), CaptureInputPolarity::BothEdge.ccp()), (true, true));
    assert_eq!(CaptureInputPolarity::from_bits(false, false), CaptureInputPolarity::RisingEdge);
    assert_eq!(CaptureInputPolarity::from_bits(false, true), CaptureInputPolarity::FallingEdge);
    assert_eq!(CaptureInputPolarity::from_bits(true, false), CaptureInputPolarity::Reserved);
    assert_eq!(CaptureInputPolarity::from_bits(true, true), CaptureInputPolarity::BothEdge);
}

#[test]
fn capture_mode_selects_its_polarity() {
    assert_eq!(InputCaptureMode::Rising.polarity(), CaptureInputPolarity::RisingEdge);
    assert_eq!(InputCaptureMode::Falling.polarity(), CaptureInputPolarity::FallingEdge);
    assert_eq!(InputCaptureMode::BothEdges.polarity(), CaptureInputPolarity::BothEdge);
}

#[test]
fn polarity_round_trips_on_every_channel() {
    for channel in CHANNELS {
        let view = capture(channel);
        for background in [0u32, 0xffff_ffff, 0x5555_5555, 0xaaaa_aaaa] {
            for polarity in POLARITIES {
                let mut regs = TimerRegs::reset();
                regs.ccer = background;
                view.write_input_polarity(&mut regs, polarity);
                assert_eq!(view.read_input_polarity(&regs), polarity);
            }
        }
    }
}

#[test]
fn polarity_words_are_bit_exact() {
    let view = capture(Channel::Ch1);
    let mut regs = TimerRegs::reset();
    view.write_input_polarity(&mut regs, CaptureInputPolarity::RisingEdge);
    assert_eq!(regs.ccer, 0b0000);
    view.write_input_polarity(&mut regs, CaptureInputPolarity::FallingEdge);
    assert_eq!(regs.ccer, 0b0010);
    view.write_input_polarity(&mut regs, CaptureInputPolarity::Reserved);
    assert_eq!(regs.ccer, 0b1000);
    view.write_input_polarity(&mut regs, CaptureInputPolarity::BothEdge);
    assert_eq!(regs.ccer, 0b1010);

    let view = capture(Channel::Ch3);
    let mut regs = TimerRegs::reset();
    view.write_input_polarity(&mut regs, CaptureInputPolarity::Reserved);
    assert_eq!(regs.ccer, 0x0800);
    view.write_input_polarity(&mut regs, CaptureInputPolarity::FallingEdge);
    assert_eq!(regs.ccer, 0x0200);
}

#[test]
fn polarity_is_read_from_two_distinct_bits() {
    // Only the complementary polarity bit of channel 1 is set.
    let mut regs = TimerRegs::reset();
    regs.ccer = 0b1000;
    assert_eq!(
        capture(Channel::Ch1).read_input_polarity(&regs),
        CaptureInputPolarity::Reserved
    );
    // Only the polarity bit of channel 1 is set.
    regs.ccer = 0b0010;
    assert_eq!(
        capture(Channel::Ch1).read_input_polarity(&regs),
        CaptureInputPolarity::FallingEdge
    );
}

#[test]
fn polarity_of_one_channel_leaves_the_others() {
    for channel in CHANNELS {
        for polarity in POLARITIES {
            let mut regs = TimerRegs::reset();
            for other in CHANNELS {
                capture(other)
                    .write_input_polarity(&mut regs, CaptureInputPolarity::Reserved);
            }
            capture(channel).write_input_polarity(&mut regs, polarity);
            for other in CHANNELS {
                let expected =
                    if other == channel { polarity } else { CaptureInputPolarity::Reserved };
                assert_eq!(capture(other).read_input_polarity(&regs), expected);
            }
        }
    }
}

#[test]
fn each_channel_uses_its_own_index() {
    // Writing through the views of channels 2, 3 and 4 must not land in the
    // fields of channel 1.
    let mut regs = TimerRegs::reset();
    for channel in [Channel::Ch2, Channel::Ch3, Channel::Ch4] {
        let view = capture(channel);
        view.write_capture_enable(&mut regs, true);
        view.write_prescaler(&mut regs, 3);
        view.write_filter(&mut regs, FilterValue::FDTS_DIV32_N8);
        view.write_selection_input(&mut regs, Selection::Trigger);
        view.write_capture_value(&mut regs, 0xffff);
        view.write_interrupt_enable(&mut regs, true);
        view.write_dma_request_enable(&mut regs, true);
    }
    let first = capture(Channel::Ch1);
    assert!(!first.read_capture_enable(&regs));
    assert_eq!(first.read_prescaler(&regs), 0);
    assert_eq!(first.read_filter(&regs), FilterValue::NOFILTER);
    assert_eq!(first.read_selection_input(&regs), Selection::Output);
    assert_eq!(first.read_capture_value(&regs), 0);
    assert!(!first.read_interrupt_enable(&regs));
    assert!(!first.read_dma_request_enable(&regs));
    assert_eq!(regs.ccer, 0x1110);
    assert_eq!(regs.ccmr1, 0xff00);
    assert_eq!(regs.ccmr2, 0xffff);
    assert_eq!((regs.ccr1, regs.ccr2, regs.ccr3, regs.ccr4), (0, 0xffff, 0xffff, 0xffff));
    assert_eq!(regs.dier, 0x1c1c);
}

#[test]
fn capture_enable_round_trips() {
    for channel in CHANNELS {
        let view = capture(channel);
        let mut regs = TimerRegs::reset();
        view.write_capture_enable(&mut regs, true);
        assert!(view.read_capture_enable(&regs));
        view.write_capture_enable(&mut regs, false);
        assert!(!view.read_capture_enable(&regs));
        assert_eq!(regs, TimerRegs::reset());
    }
}

#[test]
fn filter_round_trips_and_is_bit_exact() {
    for channel in CHANNELS {
        let view = capture(channel);
        for (bits, filter) in FILTERS.into_iter().enumerate() {
            assert_eq!(filter.bits(), bits as u32);
            assert_eq!(FilterValue::from_bits(bits as u32), filter);
            let mut regs = TimerRegs::reset();
            view.write_filter(&mut regs, filter);
            assert_eq!(view.read_filter(&regs), filter);
            let shift = 8 * (channel.index() % 2) + 4;
            let word = (bits as u32) << shift;
            if channel.index() < 2 {
                assert_eq!((regs.ccmr1, regs.ccmr2), (word, 0));
            } else {
                assert_eq!((regs.ccmr1, regs.ccmr2), (0, word));
            }
        }
    }
}

#[test]
fn filter_from_bits_reads_the_four_low_bits() {
    assert_eq!(FilterValue::from_bits(0x10), FilterValue::NOFILTER);
    assert_eq!(FilterValue::from_bits(0x1f), FilterValue::FDTS_DIV32_N8);
    assert_eq!(FilterValue::from_bits(0xffff_fff3), FilterValue::FCK_INT_N8);
}

#[test]
fn prescaler_round_trips() {
    for channel in CHANNELS {
        let view = capture(channel);
        for factor in 0..4u8 {
            let mut regs = TimerRegs::reset();
            regs.ccmr1 = 0xffff_ffff;
            regs.ccmr2 = 0xffff_ffff;
            view.write_prescaler(&mut regs, factor);
            assert_eq!(view.read_prescaler(&regs), factor);
        }
        let mut regs = TimerRegs::reset();
        view.write_prescaler(&mut regs, 6);
        assert_eq!(view.read_prescaler(&regs), 2);
    }
}

#[test]
fn selection_round_trips() {
    let selections =
        [Selection::Output, Selection::Normal, Selection::Alternate, Selection::Trigger];
    for channel in CHANNELS {
        for (bits, selection) in selections.into_iter().enumerate() {
            assert_eq!(selection.bits(), bits as u32);
            assert_eq!(Selection::from_bits(bits as u32), selection);
            let mut regs = TimerRegs::reset();
            capture(channel).write_selection_input(&mut regs, selection);
            assert_eq!(capture(channel).read_selection_input(&regs), selection);
            assert_eq!(compare(channel).read_selection_output(&regs), selection);
            let mut other = TimerRegs::reset();
            compare(channel).write_selection_output(&mut other, selection);
            assert_eq!(other, regs);
        }
    }
}

#[test]
fn selection_from_bits_reads_the_two_low_bits() {
    assert_eq!(Selection::from_bits(4), Selection::Output);
    assert_eq!(Selection::from_bits(5), Selection::Normal);
    assert_eq!(Selection::from_bits(0xffff_fffe), Selection::Alternate);
    assert_eq!(Selection::from_bits(7), Selection::Trigger);
}

#[test]
fn capture_value_is_the_low_half_of_the_data_register() {
    let view = capture(Channel::Ch2);
    let mut regs = TimerRegs::reset();
    regs.ccr2 = 0xabcd_0000;
    view.write_capture_value(&mut regs, 0x1234);
    assert_eq!(regs.ccr2, 0xabcd_1234);
    assert_eq!(view.read_capture_value(&regs), 0x1234);
    assert_eq!((regs.ccr1, regs.ccr3, regs.ccr4), (0, 0, 0));

    let view = compare(Channel::Ch4);
    view.write_compare_value(&mut regs, 0xffff);
    assert_eq!(regs.ccr4, 0xffff);
    assert_eq!(view.read_compare_value(&regs), 0xffff);
}

#[test]
fn interrupt_enable_round_trips_per_channel() {
    let words = [0x02, 0x04, 0x08, 0x10];
    for (i, channel) in CHANNELS.into_iter().enumerate() {
        let view = capture(channel);
        let mut regs = TimerRegs::reset();
        view.write_interrupt_enable(&mut regs, true);
        assert_eq!(regs.dier, words[i]);
        assert!(view.read_interrupt_enable(&regs));
        view.write_interrupt_enable(&mut regs, false);
        assert_eq!(regs.dier, 0);
        assert!(!view.read_interrupt_enable(&regs));
    }
}

#[test]
fn dma_request_enable_round_trips_per_channel() {
    let words = [0x0200, 0x0400, 0x0800, 0x1000];
    for (i, channel) in CHANNELS.into_iter().enumerate() {
        let view = compare(channel);
        let mut regs = TimerRegs::reset();
        view.write_dma_request_enable(&mut regs, true);
        assert_eq!(regs.dier, words[i]);
        assert!(view.read_dma_request_enable(&regs));
        view.write_dma_request_enable(&mut regs, false);
        assert_eq!(regs.dier, 0);
    }
}

#[test]
fn pending_flag_is_cleared_by_writing_zero() {
    let flags = [0x02, 0x04, 0x08, 0x10];
    for (i, channel) in CHANNELS.into_iter().enumerate() {
        let view = capture(channel);
        let mut regs = TimerRegs::reset();
        regs.sr = 0x1e1f;
        assert!(view.read_interrupt_flag(&regs));
        view.write_interrupt_flag(&mut regs);
        assert_eq!(regs.sr, 0x1e1f & !flags[i]);
        assert!(!view.read_interrupt_flag(&regs));
        view.write_interrupt_flag(&mut regs);
        assert_eq!(regs.sr, 0x1e1f & !flags[i]);
    }
}

#[test]
fn overcapture_flag_is_cleared_by_writing_zero() {
    let flags = [0x0200, 0x0400, 0x0800, 0x1000];
    for (i, channel) in CHANNELS.into_iter().enumerate() {
        let view = capture(channel);
        let mut regs = TimerRegs::reset();
        assert!(!view.read_overcapture_flag(&regs));
        regs.sr = 0x1e1f;
        assert!(view.read_overcapture_flag(&regs));
        view.write_overcapture_flag(&mut regs);
        assert_eq!(regs.sr, 0x1e1f & !flags[i]);
        assert!(!view.read_overcapture_flag(&regs));
    }
}

#[test]
fn generation_on_a_capture_channel_latches_the_counter() {
    let view = capture(Channel::Ch3);
    let mut regs = TimerRegs::reset();
    regs.cnt = 777;
    view.write_generation(&mut regs);
    assert_eq!(regs.ccr3, 777);
    assert!(view.read_interrupt_flag(&regs));
    assert!(!view.read_overcapture_flag(&regs));
    assert_eq!(regs.sr, 0x08);

    regs.cnt = 778;
    view.write_generation(&mut regs);
    assert_eq!(regs.ccr3, 778);
    assert!(view.read_interrupt_flag(&regs));
    assert!(view.read_overcapture_flag(&regs));
    assert_eq!(regs.sr, 0x0808);
}

#[test]
fn generation_on_a_compare_channel_only_raises_the_flag() {
    let view = compare(Channel::Ch3);
    let mut regs = TimerRegs::reset();
    regs.cnt = 777;
    regs.ccr3 = 5;
    view.write_generation(&mut regs);
    assert_eq!(regs.ccr3, 5);
    assert_eq!(regs.sr, 0x08);
    view.write_generation(&mut regs);
    assert_eq!(regs.sr, 0x08);
}

#[test]
fn compare_fields_share_the_bits_of_the_capture_fields() {
    let compare = compare(Channel::Ch1);
    let capture = capture(Channel::Ch1);
    let mut regs = TimerRegs::reset();

    compare.write_fast_enable(&mut regs, true);
    assert_eq!(regs.ccmr1, 0x04);
    assert!(compare.read_fast_enable(&regs));
    assert_eq!(capture.read_prescaler(&regs), 1);

    compare.write_preload_enable(&mut regs, true);
    assert_eq!(regs.ccmr1, 0x0c);
    assert!(compare.read_preload_enable(&regs));
    assert_eq!(capture.read_prescaler(&regs), 3);

    compare.write_mode(&mut regs, 6);
    assert_eq!(regs.ccmr1, 0x6c);
    assert_eq!(compare.read_mode(&regs), 6);
    assert_eq!(capture.read_filter(&regs), FilterValue::FDTS_DIV4_N6);

    compare.write_clear_enable(&mut regs, true);
    assert_eq!(regs.ccmr1, 0xec);
    assert!(compare.read_clear_enable(&regs));
    assert_eq!(capture.read_filter(&regs), FilterValue::FDTS_DIV32_N6);

    compare.write_mode(&mut regs, 0xf);
    assert_eq!(compare.read_mode(&regs), 7);
    assert_eq!(regs.ccmr1, 0xfc);
}

#[test]
fn compare_enable_and_polarity_use_the_enable_register() {
    let words = [(0x0001, 0x0003), (0x0010, 0x0030), (0x0100, 0x0300), (0x1000, 0x3000)];
    for (i, channel) in CHANNELS.into_iter().enumerate() {
        let view = compare(channel);
        let mut regs = TimerRegs::reset();
        view.write_output_enable(&mut regs, true);
        assert_eq!(regs.ccer, words[i].0);
        assert!(view.read_output_enable(&regs));
        view.write_output_polarity(&mut regs, true);
        assert_eq!(regs.ccer, words[i].1);
        assert!(view.read_output_polarity(&regs));
        view.write_output_enable(&mut regs, false);
        view.write_output_polarity(&mut regs, false);
        assert_eq!(regs.ccer, 0);
    }
}

#[test]
fn factory_hands_out_each_channel_once() {
    for channel in CHANNELS {
        let mut factory = ChannelFactory::new();
        assert!(!factory.is_claimed(channel));
        let view = factory.get_capture(channel).unwrap();
        assert_eq!(view.ch(), channel);
        assert!(factory.is_claimed(channel));
        assert_eq!(factory.get_capture(channel).unwrap_err(), ChannelClaimed(channel));
        assert_eq!(factory.get_compare(channel).unwrap_err(), ChannelClaimed(channel));
        assert!(factory.is_claimed(channel));
    }
}

#[test]
fn factory_keeps_a_channel_to_one_role() {
    let mut factory = ChannelFactory::new();
    assert!(factory.get_compare(Channel::Ch2).is_ok());
    assert!(factory.get_capture(Channel::Ch2).is_err());
    assert!(factory.get_capture(Channel::Ch1).is_ok());
    assert!(factory.get_compare(Channel::Ch1).is_err());
}

#[test]
fn factory_claims_are_per_channel() {
    for channel in CHANNELS {
        let mut factory = ChannelFactory::new();
        factory.get_capture(channel).unwrap();
        for other in CHANNELS {
            assert_eq!(factory.is_claimed(other), other == channel);
        }
        for other in CHANNELS {
            if other != channel {
                assert_eq!(factory.get_compare(other).unwrap().ch(), other);
            }
        }
        for other in CHANNELS {
            assert!(factory.is_claimed(other));
        }
    }
}
