use timer_capture::channel::{Channel, InterruptFlag};
use timer_capture::interrupt::{on_interrupt, State};
use timer_capture::low_level::{Hertz, InterruptLine, Timer, TimerPeripheral};
use timer_capture::regs::TimerRegs;

const SOURCES: [InterruptFlag; 8] = [
    InterruptFlag::Update,
    InterruptFlag::CaptureCompare1,
    InterruptFlag::CaptureCompare2,
    InterruptFlag::CaptureCompare3,
    InterruptFlag::CaptureCompare4,
    InterruptFlag::ComEvent,
    InterruptFlag::Trigger,
    InterruptFlag::Break,
];

fn served(regs: &mut TimerRegs, state: &mut State<u32>) -> Vec<u32> {
    on_interrupt(regs, state).into_iter().flatten().collect()
}

fn full_table() -> State<u32> {
    let mut state = State::new();
    for source in SOURCES {
        state.register(source, 100 + source.bit());
    }
    state
}

#[test]
fn new_table_is_empty() {
    let mut state: State<u32> = State::new();
    for source in SOURCES {
        assert!(!state.is_registered(source));
        assert_eq!(state.take(source), None);
    }
}

#[test]
fn register_fills_only_the_slot_of_the_source() {
    for source in SOURCES {
        let mut state: State<u32> = State::new();
        state.register(source, 5);
        for other in SOURCES {
            assert_eq!(state.is_registered(other), other == source);
        }
        assert_eq!(state.take(source), Some(5));
        assert!(!state.is_registered(source));
    }
}

#[test]
fn last_registration_wins() {
    let mut state: State<u32> = State::new();
    state.register(InterruptFlag::Update, 1);
    state.register(InterruptFlag::Update, 2);
    state.register(InterruptFlag::Break, 3);
    assert_eq!(state.take(InterruptFlag::Update), Some(2));
    assert_eq!(state.take(InterruptFlag::Update), None);
    assert_eq!(state.take(InterruptFlag::Break), Some(3));
}

#[test]
fn set_interrupt_enable_writes_one_bit() {
    for source in SOURCES {
        let mut regs = TimerRegs::reset();
        regs.set_interrupt_enable(source, true);
        assert_eq!(regs.dier, 1 << source.bit());
        assert!(regs.is_interrupt_enabled(source));
        regs.dier = 0xffff_ffff;
        regs.set_interrupt_enable(source, false);
        assert_eq!(regs.dier, !(1u32 << source.bit()));
        assert!(!regs.is_interrupt_enabled(source));
    }
}

#[test]
fn handler_does_nothing_when_no_source_fired() {
    let mut regs = TimerRegs::reset();
    regs.dier = 0xff;
    let before = regs;
    let mut state = full_table();
    assert_eq!(served(&mut regs, &mut state), Vec::<u32>::new());
    assert_eq!(regs, before);
    for source in SOURCES {
        assert!(state.is_registered(source));
    }
}

#[test]
fn handler_ignores_a_pending_flag_whose_interrupt_is_off() {
    let mut regs = TimerRegs::reset();
    regs.sr = 0xff;
    regs.dier = 0;
    let before = regs;
    let mut state = full_table();
    assert_eq!(served(&mut regs, &mut state), Vec::<u32>::new());
    assert_eq!(regs, before);
    for source in SOURCES {
        assert!(state.is_registered(source));
    }
}

#[test]
fn handler_disarms_and_wakes_each_fired_source() {
    for source in SOURCES {
        let mut regs = TimerRegs::reset();
        regs.dier = 0xffff_ffff;
        regs.cnt = 5;
        regs.raise_pending(source);
        assert_eq!(regs.sr, u32::from(source));
        let before = regs;
        let mut state = full_table();

        let woken = served(&mut regs, &mut state);

        assert_eq!(woken, vec![100 + source.bit()]);
        assert_eq!(regs.dier, !u32::from(source));
        let mut expected = before;
        expected.dier = !u32::from(source);
        assert_eq!(regs, expected);
        for other in SOURCES {
            assert_eq!(state.is_registered(other), other != source);
        }
    }
}

#[test]
fn handler_keeps_the_pending_flags_and_the_data() {
    let mut regs = TimerRegs::reset();
    regs.set_interrupt_enable(InterruptFlag::CaptureCompare2, true);
    regs.capture_event(Channel::Ch2, 77);
    let mut state: State<u32> = State::new();
    let _ = served(&mut regs, &mut state);
    assert_eq!(regs.sr, 0x04);
    assert_eq!(regs.ccr2, 77);
    assert_eq!(regs.dier, 0);
}

#[test]
fn handler_wakes_in_the_order_of_the_sources() {
    let mut regs = TimerRegs::reset();
    regs.dier = 0xff;
    regs.sr = 0b1010_0101;
    let mut state = full_table();
    assert_eq!(served(&mut regs, &mut state), vec![100, 102, 105, 107]);
    assert_eq!(regs.dier, 0b0101_1010);
    assert_eq!(regs.sr, 0b1010_0101);
}

#[test]
fn handler_hands_each_waker_out_at_the_position_of_its_source() {
    let mut regs = TimerRegs::reset();
    regs.dier = 0xff;
    regs.sr = 0b0001_0010;
    let mut state = full_table();
    let woken = on_interrupt(&mut regs, &mut state);
    assert_eq!(woken, [None, Some(101), None, None, Some(104), None, None, None]);
}

#[test]
fn handler_wakes_nobody_where_no_waker_is_registered() {
    let mut regs = TimerRegs::reset();
    regs.dier = 0xff;
    regs.sr = 0xff;
    let mut state: State<u32> = State::new();
    state.register(InterruptFlag::Trigger, 6);
    assert_eq!(served(&mut regs, &mut state), vec![6]);
    assert_eq!(regs.dier, 0);
}

#[test]
fn handler_leaves_the_bits_above_the_sources() {
    let mut regs = TimerRegs::reset();
    regs.dier = 0xffff_ffff;
    regs.sr = 0xffff_ffff;
    let mut state: State<u32> = State::new();
    let _ = served(&mut regs, &mut state);
    assert_eq!(regs.dier, 0xffff_ff00);
    assert_eq!(regs.sr, 0xffff_ffff);
}

#[test]
fn handler_run_twice_fires_nothing_the_second_time() {
    let mut regs = TimerRegs::reset();
    regs.dier = 0x1e;
    regs.sr = 0x0a;
    let mut state = full_table();
    assert_eq!(served(&mut regs, &mut state), vec![101, 103]);
    let after = regs;
    assert_eq!(served(&mut regs, &mut state), Vec::<u32>::new());
    assert_eq!(regs, after);
}

#[test]
fn capture_event_latches_and_flags() {
    let mut regs = TimerRegs::reset();
    regs.capture_event(Channel::Ch1, 10);
    assert_eq!((regs.ccr1, regs.sr), (10, 0x0002));
    regs.capture_event(Channel::Ch4, 40);
    assert_eq!((regs.ccr4, regs.sr), (40, 0x0012));
    let mut expected = TimerRegs::reset();
    expected.ccr1 = 10;
    expected.ccr4 = 40;
    expected.sr = 0x12;
    assert_eq!(regs, expected);
}

#[test]
fn second_capture_before_the_first_is_fetched_raises_overcapture() {
    let flags = [0x0200, 0x0400, 0x0800, 0x1000];
    for (i, channel) in [Channel::Ch1, Channel::Ch2, Channel::Ch3, Channel::Ch4]
        .into_iter()
        .enumerate()
    {
        let mut regs = TimerRegs::reset();
        regs.capture_event(channel, 1);
        assert_eq!(regs.sr & 0x1e00, 0);
        regs.capture_event(channel, 2);
        assert_eq!(regs.sr & 0x1e00, flags[i]);
        assert_eq!(regs.sr & 0x1e, u32::from(InterruptFlag::from(channel)));
    }
}

fn peripheral(advanced: bool) -> TimerPeripheral {
    TimerPeripheral {
        regs: TimerRegs::reset(),
        clock: Hertz(1_000_000),
        advanced,
        irq: InterruptLine { pending: false, enabled: false },
    }
}

#[test]
fn edge_on_a_disabled_channel_changes_nothing() {
    for advanced in [false, true] {
        let mut tim = peripheral(advanced);
        tim.regs.bdtr = 0x8000;
        tim.regs.ccer = 0x1101;
        tim.regs.cnt = 5;
        let before = tim;
        assert!(!tim.input_edge(Channel::Ch2));
        assert_eq!(tim, before);
    }
}

#[test]
fn edge_on_an_enabled_channel_is_latched() {
    let mut tim = peripheral(false);
    tim.regs.ccer = 0x0010;
    tim.regs.cnt = 5;
    assert!(tim.input_edge(Channel::Ch2));
    assert_eq!((tim.regs.ccr2, tim.regs.sr), (5, 0x04));
    tim.regs.cnt = 6;
    assert!(!tim.input_edge(Channel::Ch1));
    assert_eq!((tim.regs.ccr1, tim.regs.sr), (0, 0x04));
}

#[test]
fn advanced_timer_sees_no_edge_until_its_outputs_are_enabled() {
    let mut timer = Timer::new(peripheral(true));
    timer.enable_channel(Channel::Ch1, true);
    timer.regs_mut().cnt = 9;
    let before = *timer.peripheral();
    assert!(!timer.peripheral_mut().input_edge(Channel::Ch1));
    assert_eq!(*timer.peripheral(), before);

    timer.enable_outputs();
    assert!(timer.peripheral_mut().input_edge(Channel::Ch1));
    assert_eq!(timer.get_capture_value(Channel::Ch1), 9);
    assert!(timer.get_input_interrupt(Channel::Ch1));
}
