use timer_capture::channel::Channel;
use timer_capture::config::{CountingMode, FilterValue, InputCaptureMode, InputTISelection};
use timer_capture::low_level::{can_tick_at, Hertz, InterruptLine, Timer, TimerPeripheral};
use timer_capture::regs::TimerRegs;

const CHANNELS: [Channel; 4] = [Channel::Ch1, Channel::Ch2, Channel::Ch3, Channel::Ch4];

fn peripheral(advanced: bool) -> TimerPeripheral {
    TimerPeripheral {
        regs: TimerRegs::reset(),
        clock: Hertz(84_000_000),
        advanced,
        irq: InterruptLine { pending: true, enabled: false },
    }
}

fn timer() -> Timer {
    Timer::new(peripheral(false))
}

#[test]
fn new_takes_the_instance_as_it_is() {
    let mut tim = peripheral(true);
    tim.regs.cnt = 42;
    let timer = Timer::new(tim);
    assert_eq!(*timer.peripheral(), tim);
    assert_eq!(*timer.regs(), tim.regs);
}

#[test]
fn enable_channel_sets_the_enable_bit_of_each_channel() {
    let expected = [0x0001, 0x0010, 0x0100, 0x1000];
    for (channel, word) in CHANNELS.into_iter().zip(expected) {
        let mut timer = timer();
        timer.enable_channel(channel, true);
        assert_eq!(timer.regs().ccer, word);
        assert!(timer.get_channel_enable_state(channel));
        timer.enable_channel(channel, false);
        assert_eq!(timer.regs().ccer, 0);
        assert!(!timer.get_channel_enable_state(channel));
    }
}

#[test]
fn enable_channel_touches_only_the_enable_register() {
    let mut timer = timer();
    timer.enable_channel(Channel::Ch3, true);
    let mut expected = TimerRegs::reset();
    expected.ccer = 0x0100;
    assert_eq!(*timer.regs(), expected);
}

#[test]
fn capture_mode_writes_the_two_polarity_bits() {
    let rising = [0x0000, 0x0000, 0x0000, 0x0000];
    let falling = [0x0002, 0x0020, 0x0200, 0x2000];
    let both = [0x000a, 0x00a0, 0x0a00, 0xa000];
    for (i, channel) in CHANNELS.into_iter().enumerate() {
        let mut timer = timer();
        timer.set_input_capture_mode(channel, InputCaptureMode::Falling);
        assert_eq!(timer.regs().ccer, falling[i]);
        timer.set_input_capture_mode(channel, InputCaptureMode::BothEdges);
        assert_eq!(timer.regs().ccer, both[i]);
        timer.set_input_capture_mode(channel, InputCaptureMode::Rising);
        assert_eq!(timer.regs().ccer, rising[i]);
    }
}

#[test]
fn capture_mode_keeps_the_enable_bits() {
    let mut timer = timer();
    timer.regs_mut().ccer = 0x1111;
    timer.set_input_capture_mode(Channel::Ch2, InputCaptureMode::BothEdges);
    assert_eq!(timer.regs().ccer, 0x11b1);
    timer.set_input_capture_mode(Channel::Ch2, InputCaptureMode::Rising);
    assert_eq!(timer.regs().ccer, 0x1111);
}

#[test]
fn ti_selection_writes_the_selection_field_of_the_pair() {
    let normal = [(0x0001, 0), (0x0100, 0), (0, 0x0001), (0, 0x0100)];
    let alternate = [(0x0002, 0), (0x0200, 0), (0, 0x0002), (0, 0x0200)];
    for (i, channel) in CHANNELS.into_iter().enumerate() {
        let mut timer = timer();
        timer.set_input_ti_selection(channel, InputTISelection::Normal);
        assert_eq!((timer.regs().ccmr1, timer.regs().ccmr2), normal[i]);
        timer.set_input_ti_selection(channel, InputTISelection::Alternate);
        assert_eq!((timer.regs().ccmr1, timer.regs().ccmr2), alternate[i]);
    }
}

#[test]
fn capture_filter_writes_four_bits() {
    let mut timer = timer();
    timer.set_input_capture_filter(Channel::Ch1, FilterValue::FDTS_DIV32_N8);
    assert_eq!(timer.regs().ccmr1, 0x00f0);
    timer.set_input_capture_filter(Channel::Ch2, FilterValue::FCK_INT_N4);
    assert_eq!(timer.regs().ccmr1, 0x20f0);
    timer.set_input_capture_filter(Channel::Ch1, FilterValue::NOFILTER);
    assert_eq!(timer.regs().ccmr1, 0x2000);
    timer.set_input_capture_filter(Channel::Ch4, FilterValue::FDTS_DIV2_N6);
    assert_eq!(timer.regs().ccmr2, 0x4000);
    timer.set_input_capture_filter(Channel::Ch3, FilterValue::FDTS_DIV16_N8);
    assert_eq!(timer.regs().ccmr2, 0x40c0);
}

#[test]
fn capture_prescaler_writes_two_bits() {
    let expected = [(0x0004, 0), (0x0400, 0), (0, 0x0004), (0, 0x0400)];
    for (i, channel) in CHANNELS.into_iter().enumerate() {
        let mut timer = timer();
        timer.set_input_capture_prescaler(channel, 1);
        assert_eq!((timer.regs().ccmr1, timer.regs().ccmr2), expected[i]);
    }
    let mut timer = timer();
    timer.set_input_capture_prescaler(Channel::Ch1, 3);
    assert_eq!(timer.regs().ccmr1, 0x000c);
    timer.set_input_capture_prescaler(Channel::Ch1, 2);
    assert_eq!(timer.regs().ccmr1, 0x0008);
    timer.set_input_capture_prescaler(Channel::Ch1, 0);
    assert_eq!(timer.regs().ccmr1, 0x0000);
}

#[test]
fn capture_prescaler_keeps_only_the_two_low_bits() {
    let mut timer = timer();
    timer.set_input_capture_prescaler(Channel::Ch1, 7);
    assert_eq!(timer.regs().ccmr1, 0x000c);
    timer.set_input_capture_prescaler(Channel::Ch1, 0xfc);
    assert_eq!(timer.regs().ccmr1, 0x0000);
}

#[test]
fn mode_fields_of_one_channel_do_not_overlap() {
    let mut timer = timer();
    timer.set_input_ti_selection(Channel::Ch2, InputTISelection::Alternate);
    timer.set_input_capture_prescaler(Channel::Ch2, 3);
    timer.set_input_capture_filter(Channel::Ch2, FilterValue::FDTS_DIV32_N8);
    assert_eq!(timer.regs().ccmr1, 0xfe00);
    timer.set_input_capture_prescaler(Channel::Ch2, 0);
    assert_eq!(timer.regs().ccmr1, 0xf200);
    timer.set_input_capture_filter(Channel::Ch2, FilterValue::NOFILTER);
    assert_eq!(timer.regs().ccmr1, 0x0200);
}

#[test]
fn capture_value_reads_the_data_register_of_the_channel() {
    let mut timer = timer();
    {
        let regs = timer.regs_mut();
        regs.ccr1 = 11;
        regs.ccr2 = 0xffff;
        regs.ccr3 = 0x1_0000;
        regs.ccr4 = 0xffff_ffff;
    }
    assert_eq!(timer.get_capture_value(Channel::Ch1), 11);
    assert_eq!(timer.get_capture_value(Channel::Ch2), 0xffff);
    assert_eq!(timer.get_capture_value(Channel::Ch3), 0x1_0000);
    assert_eq!(timer.get_capture_value(Channel::Ch4), 0xffff_ffff);
}

#[test]
fn input_interrupt_reads_the_pending_flag_of_the_channel() {
    let flags = [0x02, 0x04, 0x08, 0x10];
    for (i, channel) in CHANNELS.into_iter().enumerate() {
        let mut timer = timer();
        assert!(!timer.get_input_interrupt(channel));
        timer.regs_mut().sr = flags[i];
        for other in CHANNELS {
            assert_eq!(timer.get_input_interrupt(other), other == channel);
        }
        timer.regs_mut().sr = !flags[i];
        assert!(!timer.get_input_interrupt(channel));
    }
}

#[test]
fn counting_mode_writes_direction_and_alignment() {
    let cases = [
        (CountingMode::EdgeAlignedUp, 0x00),
        (CountingMode::EdgeAlignedDown, 0x10),
        (CountingMode::CenterAlignedDownInterrupts, 0x20),
        (CountingMode::CenterAlignedUpInterrupts, 0x40),
        (CountingMode::CenterAlignedBothInterrupts, 0x60),
    ];
    for (mode, word) in cases {
        let mut timer = timer();
        timer.set_counting_mode(mode);
        assert_eq!(timer.regs().cr1, word);

        let mut timer = Timer::new(peripheral(false));
        timer.regs_mut().cr1 = 0xffff_ffff;
        timer.set_counting_mode(mode);
        assert_eq!(timer.regs().cr1, 0xffff_ff8f | word);
    }
}

#[test]
fn tick_freq_writes_the_prescaler() {
    let mut timer = timer();
    timer.set_tick_freq(Hertz(1_000_000));
    assert_eq!(timer.regs().psc, 83);
    timer.set_tick_freq(Hertz(84_000_000));
    assert_eq!(timer.regs().psc, 0);
    timer.set_tick_freq(Hertz(50_000_000));
    assert_eq!(timer.regs().psc, 0);
    timer.set_tick_freq(Hertz(10_000));
    assert_eq!(timer.regs().psc, 8399);
    timer.set_tick_freq(Hertz(1282));
    assert_eq!(timer.regs().psc, 65521);
}

#[test]
fn can_tick_at_says_which_frequencies_fit() {
    let clock = Hertz(84_000_000);
    assert!(can_tick_at(clock, Hertz(1_000_000)));
    assert!(can_tick_at(clock, Hertz(84_000_000)));
    assert!(!can_tick_at(clock, Hertz(84_000_001)));
    assert!(!can_tick_at(clock, Hertz(0)));
    // 84_000_000 / 1282 = 65_522, the largest division that fits 16 bits + 1.
    assert!(can_tick_at(clock, Hertz(1282)));
    assert!(!can_tick_at(clock, Hertz(1281)));
    assert!(can_tick_at(Hertz(65_536), Hertz(1)));
    assert!(!can_tick_at(Hertz(65_537), Hertz(1)));
}

#[test]
fn enable_outputs_sets_the_main_output_enable_of_an_advanced_timer() {
    let mut timer = Timer::new(peripheral(true));
    timer.enable_outputs();
    assert_eq!(timer.regs().bdtr, 0x8000);
    let mut expected = TimerRegs::reset();
    expected.bdtr = 0x8000;
    assert_eq!(*timer.regs(), expected);
}

#[test]
fn enable_outputs_does_nothing_on_a_general_purpose_timer() {
    let mut timer = Timer::new(peripheral(false));
    timer.enable_outputs();
    assert_eq!(*timer.regs(), TimerRegs::reset());
}

#[test]
fn start_sets_the_counter_enable() {
    let mut timer = timer();
    timer.regs_mut().cr1 = 0x60;
    timer.start();
    assert_eq!(timer.regs().cr1, 0x61);
}

#[test]
fn interrupt_line_is_cleared_then_enabled() {
    let mut timer = timer();
    let tim = timer.peripheral_mut();
    tim.irq.unpend();
    assert_eq!(tim.irq, InterruptLine { pending: false, enabled: false });
    tim.irq.enable();
    assert_eq!(tim.irq, InterruptLine { pending: false, enabled: true });
    tim.irq.unpend();
    tim.irq.enable();
    assert_eq!(timer.peripheral().irq, InterruptLine { pending: false, enabled: true });
}
