//! What holds of the driver on every register block.

use vstd::prelude::*;
use crate::bits::{
    bit_is_set, lemma_bit_reads_back, lemma_low_mask_values, lemma_mask_keeps_small_value, with_bit,
};
use crate::channel::{Channel, InterruptFlag};
use crate::config::{
    CaptureInputPolarity, CountingMode, FilterValue, InputCaptureMode, InputTISelection, Selection,
};
use crate::driver::Poll;
use crate::layout::{
    ccer_bit, ccmr_bit, ccmr_reg, overcapture_bit, BDTR_MOE, CCER_CCE, CCER_CCNP, CCER_CCP,
    CCMR_CCS, CCMR_ICF, CCMR_ICPSC, CR1_CEN,
};
use crate::low_level::{Hertz, TimerPeripheral};
use crate::interrupt::{slots_kept, slots_taken, SOURCES};
use crate::regs::{
    lemma_modified_bit_frame, lemma_modified_bit_keeps_other_bit, lemma_modified_bits_frame,
    lemma_status_write_back, Reg, TimerRegs,
};

verus! {

/// The eight interrupt sources own the eight low bits of the enable and
/// status registers, one each.
pub proof fn law_sources_own_distinct_bits(source: InterruptFlag, other: InterruptFlag)
    ensures
        source.bit() < 8,
        InterruptFlag::from_bit(source.bit()) == Some(source),
        source != other ==> source.bit() != other.bit(),
        source.mask() == match source {
            InterruptFlag::Update => 0x01u32,
            InterruptFlag::CaptureCompare1 => 0x02u32,
            InterruptFlag::CaptureCompare2 => 0x04u32,
            InterruptFlag::CaptureCompare3 => 0x08u32,
            InterruptFlag::CaptureCompare4 => 0x10u32,
            InterruptFlag::ComEvent => 0x20u32,
            InterruptFlag::Trigger => 0x40u32,
            InterruptFlag::Break => 0x80u32,
        },
{
    let pos = source.bit();
    assert(pos < 8 ==> 1u32 << pos == (if pos == 0 {
        0x01u32
    } else if pos == 1 {
        0x02u32
    } else if pos == 2 {
        0x04u32
    } else if pos == 3 {
        0x08u32
    } else if pos == 4 {
        0x10u32
    } else if pos == 5 {
        0x20u32
    } else if pos == 6 {
        0x40u32
    } else {
        0x80u32
    })) by (bit_vector);
}

/// The four channels report through four different sources, and each of
/// those sources leads back to its channel.
pub proof fn law_channels_own_distinct_sources(channel: Channel, other: Channel)
    ensures
        channel.interrupt_flag().channel() == Some(channel),
        channel.interrupt_flag().bit() == channel.index() + 1,
        channel != other ==> channel.interrupt_flag() != other.interrupt_flag(),
{
}

/// A status flag is only ever cleared by software: written as 0 it reads as
/// clear, written as 1 it stays as it was. No other flag changes either way.
pub proof fn law_status_flag_is_cleared_by_writing_zero(
    regs: TimerRegs,
    pos: u32,
    value: bool,
    other: u32,
)
    requires
        pos < 32,
        other < 32,
        other != pos,
    ensures
        !regs.with_bit(Reg::Sr, pos, false).bit(Reg::Sr, pos),
        regs.with_bit(Reg::Sr, pos, true) == regs,
        regs.with_bit(Reg::Sr, pos, value).bit(Reg::Sr, other) == regs.bit(Reg::Sr, other),
{
    lemma_status_write_back(regs.sr, with_bit(regs.sr, pos, false), pos);
    lemma_bit_reads_back(regs.sr, pos, false);
    let sr = regs.sr;
    assert(sr & (sr | (1u32 << pos)) == sr) by (bit_vector);
    lemma_modified_bit_keeps_other_bit(regs, Reg::Sr, pos, value, Reg::Sr, other);
}

/// Starting a wait on a channel leaves the channel wired to the requested
/// input line, without filter, latching on the requested edges, capturing on
/// every event, enabled, and with its interrupt armed.
pub proof fn law_wait_configures_channel(
    regs: TimerRegs,
    channel: Channel,
    mode: InputCaptureMode,
    tisel: InputTISelection,
)
    ensures
        ({
            let armed = regs.configured_for_capture(channel, mode, tisel).with_interrupt_enable(
                channel.interrupt_flag(),
                true,
            );
            &&& armed.ti_selection(channel) == Some(tisel)
            &&& armed.filter(channel) == FilterValue::NOFILTER
            &&& armed.input_polarity(channel) == mode.polarity()
            &&& armed.capture_prescaler(channel) == 0
            &&& armed.channel_enabled(channel)
            &&& armed.interrupt_enabled(channel.interrupt_flag())
        }),
{
    let mreg = ccmr_reg(channel);
    let polarity = mode.polarity();
    let r1 = regs.with_ti_selection(channel, tisel);
    let r2 = r1.with_capture_filter(channel, FilterValue::NOFILTER);
    let r3a = r2.with_bit(Reg::Ccer, ccer_bit(channel, CCER_CCNP), polarity.ccnp());
    let r3 = r3a.with_bit(Reg::Ccer, ccer_bit(channel, CCER_CCP), polarity.ccp());
    let r4 = r3.with_capture_prescaler(channel, 0);
    let r5 = r4.with_channel_enable(channel, true);
    lemma_low_mask_values();
    lemma_mask_keeps_small_value(tisel.bits(), 2);
    lemma_mask_keeps_small_value(0, 2);
    lemma_mask_keeps_small_value(0, 4);
    lemma_modified_bits_frame(regs, mreg, ccmr_bit(channel, CCMR_CCS), 2, tisel.bits());
    lemma_modified_bits_frame(r1, mreg, ccmr_bit(channel, CCMR_ICF), 4, 0);
    lemma_modified_bit_frame(r2, Reg::Ccer, ccer_bit(channel, CCER_CCNP), polarity.ccnp());
    lemma_modified_bit_frame(r3a, Reg::Ccer, ccer_bit(channel, CCER_CCP), polarity.ccp());
    lemma_modified_bits_frame(r3, mreg, ccmr_bit(channel, CCMR_ICPSC), 2, 0);
    lemma_modified_bit_frame(r4, Reg::Ccer, ccer_bit(channel, CCER_CCE), true);
    lemma_modified_bit_frame(r5, Reg::Dier, channel.interrupt_flag().bit(), true);
}

/// Starting a wait on one channel changes nothing that belongs to another
/// channel, and touches neither the counter, the data registers nor the
/// status register.
pub proof fn law_wait_keeps_other_channels(
    regs: TimerRegs,
    channel: Channel,
    mode: InputCaptureMode,
    tisel: InputTISelection,
    other: Channel,
)
    requires
        other != channel,
    ensures
        ({
            let armed = regs.configured_for_capture(channel, mode, tisel).with_interrupt_enable(
                channel.interrupt_flag(),
                true,
            );
            &&& armed.selection(other) == regs.selection(other)
            &&& armed.capture_filter(other) == regs.capture_filter(other)
            &&& armed.input_polarity(other) == regs.input_polarity(other)
            &&& armed.capture_prescaler(other) == regs.capture_prescaler(other)
            &&& armed.channel_enabled(other) == regs.channel_enabled(other)
            &&& armed.interrupt_enabled(other.interrupt_flag()) == regs.interrupt_enabled(
                other.interrupt_flag(),
            )
            &&& armed.cnt == regs.cnt
            &&& armed.sr == regs.sr
            &&& armed.ccr1 == regs.ccr1
            &&& armed.ccr2 == regs.ccr2
            &&& armed.ccr3 == regs.ccr3
            &&& armed.ccr4 == regs.ccr4
        }),
{
    let mreg = ccmr_reg(channel);
    let polarity = mode.polarity();
    let r1 = regs.with_ti_selection(channel, tisel);
    let r2 = r1.with_capture_filter(channel, FilterValue::NOFILTER);
    let r3a = r2.with_bit(Reg::Ccer, ccer_bit(channel, CCER_CCNP), polarity.ccnp());
    let r3 = r3a.with_bit(Reg::Ccer, ccer_bit(channel, CCER_CCP), polarity.ccp());
    let r4 = r3.with_capture_prescaler(channel, 0);
    let r5 = r4.with_channel_enable(channel, true);
    lemma_modified_bits_frame(regs, mreg, ccmr_bit(channel, CCMR_CCS), 2, tisel.bits());
    lemma_modified_bits_frame(r1, mreg, ccmr_bit(channel, CCMR_ICF), 4, 0);
    lemma_modified_bit_frame(r2, Reg::Ccer, ccer_bit(channel, CCER_CCNP), polarity.ccnp());
    lemma_modified_bit_frame(r3a, Reg::Ccer, ccer_bit(channel, CCER_CCP), polarity.ccp());
    lemma_modified_bits_frame(r3, mreg, ccmr_bit(channel, CCMR_ICPSC), 2, 0);
    lemma_modified_bit_frame(r4, Reg::Ccer, ccer_bit(channel, CCER_CCE), true);
    lemma_modified_bit_frame(r5, Reg::Dier, channel.interrupt_flag().bit(), true);
}

/// A timer that the driver has set up lets the edges of a channel through
/// once a wait was started on the channel, whether or not the timer has a
/// main output enable: the driver sets the enable where there is one, and
/// the wait enables the channel.
pub proof fn law_driver_lets_edges_through(
    tim: TimerPeripheral,
    freq: Hertz,
    counting_mode: CountingMode,
    channel: Channel,
    mode: InputCaptureMode,
    tisel: InputTISelection,
)
    ensures
        ({
            let ready = tim.initialized(freq, counting_mode);
            let waiting = ready.with_regs(
                ready.regs.configured_for_capture(channel, mode, tisel).with_interrupt_enable(
                    channel.interrupt_flag(),
                    true,
                ),
            );
            &&& waiting.lets_through(channel)
            &&& ready.regs.counter_enabled()
            &&& waiting.regs.counter_enabled()
        }),
{
    let ready = tim.initialized(freq, counting_mode);
    if tim.advanced {
        let counting = tim.regs.with_counting_mode(counting_mode).written(
            Reg::Psc,
            crate::low_level::prescaler_for(tim.clock, freq),
        );
        lemma_modified_bit_frame(counting, Reg::Bdtr, BDTR_MOE, true);
        lemma_modified_bit_frame(counting.with_outputs_enabled(), Reg::Cr1, CR1_CEN, true);
    } else {
        let counting = tim.regs.with_counting_mode(counting_mode).written(
            Reg::Psc,
            crate::low_level::prescaler_for(tim.clock, freq),
        );
        lemma_modified_bit_frame(counting, Reg::Cr1, CR1_CEN, true);
    }
    let mreg = ccmr_reg(channel);
    let polarity = mode.polarity();
    let r1 = ready.regs.with_ti_selection(channel, tisel);
    let r2 = r1.with_capture_filter(channel, FilterValue::NOFILTER);
    let r3a = r2.with_bit(Reg::Ccer, ccer_bit(channel, CCER_CCNP), polarity.ccnp());
    let r3 = r3a.with_bit(Reg::Ccer, ccer_bit(channel, CCER_CCP), polarity.ccp());
    let r4 = r3.with_capture_prescaler(channel, 0);
    let r5 = r4.with_channel_enable(channel, true);
    lemma_modified_bits_frame(ready.regs, mreg, ccmr_bit(channel, CCMR_CCS), 2, tisel.bits());
    lemma_modified_bits_frame(r1, mreg, ccmr_bit(channel, CCMR_ICF), 4, 0);
    lemma_modified_bit_frame(r2, Reg::Ccer, ccer_bit(channel, CCER_CCNP), polarity.ccnp());
    lemma_modified_bit_frame(r3a, Reg::Ccer, ccer_bit(channel, CCER_CCP), polarity.ccp());
    lemma_modified_bits_frame(r3, mreg, ccmr_bit(channel, CCMR_ICPSC), 2, 0);
    lemma_modified_bit_frame(r4, Reg::Ccer, ccer_bit(channel, CCER_CCE), true);
    lemma_modified_bit_frame(r5, Reg::Dier, channel.interrupt_flag().bit(), true);
}

/// A timer with a main output enable that is not set lets no edge through,
/// and neither does a channel that is not enabled: the edge changes nothing.
pub proof fn law_unopened_timer_sees_no_edge(tim: TimerPeripheral, channel: Channel)
    ensures
        tim.advanced && !tim.regs.outputs_enabled() ==> tim.after_edge(channel) == tim,
        !tim.regs.channel_enabled(channel) ==> tim.after_edge(channel) == tim,
{
}

/// A wait that was just started is pending.
pub proof fn law_new_wait_is_pending(regs: TimerRegs, source: InterruptFlag)
    ensures
        regs.with_interrupt_enable(source, true).poll_outcome(source) == Poll::<u32>::Pending,
{
    lemma_modified_bit_frame(regs, Reg::Dier, source.bit(), true);
}

/// A wait is pending on every block in which the enable bit of its source is
/// set, however often it is polled. On a block in which the bit is clear it
/// resolves to the data register of its channel, or to the counter where its
/// source is no channel's.
pub proof fn law_wait_resolves_once_disarmed(regs: TimerRegs, source: InterruptFlag)
    ensures
        regs.interrupt_enabled(source) ==> regs.poll_outcome(source) == Poll::<u32>::Pending,
        !regs.interrupt_enabled(source) ==> regs.poll_outcome(source) == Poll::Ready(
            match source.channel() {
                Some(channel) => regs.capture_value(channel),
                None => regs.cnt,
            },
        ),
{
}

/// Ending a wait clears the enable bit of its source, leaves the enable bit
/// of every other source as it was, and changes no other register.
pub proof fn law_disarm_clears_only_its_source(
    regs: TimerRegs,
    source: InterruptFlag,
    other: InterruptFlag,
)
    requires
        other != source,
    ensures
        !regs.with_interrupt_enable(source, false).interrupt_enabled(source),
        regs.with_interrupt_enable(source, false).interrupt_enabled(other)
            == regs.interrupt_enabled(other),
        regs.with_interrupt_enable(source, false) == regs.with_word(
            Reg::Dier,
            regs.with_interrupt_enable(source, false).dier,
        ),
        forall|pos: u32|
            pos < 32 && pos != source.bit() ==> #[trigger] regs.with_interrupt_enable(
                source,
                false,
            ).bit(Reg::Dier, pos) == regs.bit(Reg::Dier, pos),
{
    lemma_modified_bit_frame(regs, Reg::Dier, source.bit(), false);
}

/// A wait that is ended leaves no armed source behind: after a wait for a
/// source was started and ended, the enable bit of every source is as it
/// would be had the source never been armed.
pub proof fn law_wait_leaves_no_source_armed(
    regs: TimerRegs,
    source: InterruptFlag,
    any: InterruptFlag,
)
    ensures
        regs.with_interrupt_enable(source, true).with_interrupt_enable(
            source,
            false,
        ).interrupt_enabled(any) == (any != source && regs.interrupt_enabled(any)),
{
    let armed = regs.with_interrupt_enable(source, true);
    lemma_modified_bit_frame(regs, Reg::Dier, source.bit(), true);
    lemma_modified_bit_frame(armed, Reg::Dier, source.bit(), false);
}

/// The two polarity bits stand for the four polarities one to one.
pub proof fn law_polarity_bits_round_trip(polarity: CaptureInputPolarity, ccnp: bool, ccp: bool)
    ensures
        CaptureInputPolarity::from_bits(polarity.ccnp(), polarity.ccp()) == polarity,
        CaptureInputPolarity::from_bits(ccnp, ccp).ccnp() == ccnp,
        CaptureInputPolarity::from_bits(ccnp, ccp).ccp() == ccp,
{
}

/// A polarity written to a channel reads back as written, and the polarity
/// of every other channel stays as it was.
pub proof fn law_polarity_round_trip(
    regs: TimerRegs,
    channel: Channel,
    polarity: CaptureInputPolarity,
    other: Channel,
)
    ensures
        regs.with_input_polarity(channel, polarity).input_polarity(channel) == polarity,
        other != channel ==> regs.with_input_polarity(channel, polarity).input_polarity(other)
            == regs.input_polarity(other),
{
    let half = regs.with_bit(Reg::Ccer, ccer_bit(channel, CCER_CCNP), polarity.ccnp());
    lemma_modified_bit_frame(regs, Reg::Ccer, ccer_bit(channel, CCER_CCNP), polarity.ccnp());
    lemma_modified_bit_frame(half, Reg::Ccer, ccer_bit(channel, CCER_CCP), polarity.ccp());
}

/// The capture fields of a channel's mode register read back as written: the
/// filter, the two low bits of the prescaler, the selection and the input
/// line.
pub proof fn law_capture_fields_round_trip(
    regs: TimerRegs,
    channel: Channel,
    filter: FilterValue,
    factor: u8,
    selection: Selection,
    tisel: InputTISelection,
)
    ensures
        regs.with_capture_filter(channel, filter).filter(channel) == filter,
        regs.with_capture_prescaler(channel, factor).capture_prescaler(channel) == factor % 4,
        regs.with_selection(channel, selection.bits()).role(channel) == selection,
        regs.with_ti_selection(channel, tisel).ti_selection(channel) == Some(tisel),
{
    let mreg = ccmr_reg(channel);
    lemma_low_mask_values();
    lemma_mask_keeps_small_value(filter.bits(), 4);
    lemma_mask_keeps_small_value(selection.bits(), 2);
    lemma_mask_keeps_small_value(tisel.bits(), 2);
    lemma_modified_bits_frame(regs, mreg, ccmr_bit(channel, CCMR_ICF), 4, filter.bits());
    lemma_modified_bits_frame(regs, mreg, ccmr_bit(channel, CCMR_ICPSC), 2, factor as u32);
    lemma_modified_bits_frame(regs, mreg, ccmr_bit(channel, CCMR_CCS), 2, selection.bits());
    lemma_modified_bits_frame(regs, mreg, ccmr_bit(channel, CCMR_CCS), 2, tisel.bits());
    let wide = factor as u32;
    assert(wide & 0x3 == wide % 4) by (bit_vector);
}

/// The enable bit of a channel reads back as written, and writing it changes
/// the enable bit of no other channel.
pub proof fn law_channel_enable_round_trip(
    regs: TimerRegs,
    channel: Channel,
    enable: bool,
    other: Channel,
)
    ensures
        regs.with_channel_enable(channel, enable).channel_enabled(channel) == enable,
        other != channel ==> regs.with_channel_enable(channel, enable).channel_enabled(other)
            == regs.channel_enabled(other),
{
    lemma_modified_bit_frame(regs, Reg::Ccer, ccer_bit(channel, CCER_CCE), enable);
}

/// The interrupt handler disarms exactly the sources that fired: afterwards
/// a source is enabled if it was enabled and its pending flag was not
/// raised. Pending flags stay as they were.
pub proof fn law_handler_disarms_fired_sources(regs: TimerRegs, source: InterruptFlag)
    ensures
        regs.acknowledged().interrupt_enabled(source) == (regs.interrupt_enabled(source)
            && !regs.interrupt_pending(source)),
        regs.acknowledged().interrupt_pending(source) == regs.interrupt_pending(source),
        regs.acknowledged() == regs.with_word(Reg::Dier, regs.acknowledged().dier),
        bit_is_set(regs.fired_sources(), source.bit()) == (regs.interrupt_enabled(source)
            && regs.interrupt_pending(source)),
{
    let pos = source.bit();
    let dier = regs.dier;
    let sr = regs.sr;
    assert(bit_is_set(dier & !(sr & dier & 0xff), pos) == (bit_is_set(dier, pos) && !bit_is_set(
        sr,
        pos,
    ))) by (bit_vector)
        requires
            pos < 8,
    ;
    assert(bit_is_set(sr & dier & 0xff, pos) == (bit_is_set(dier, pos) && bit_is_set(sr, pos)))
        by (bit_vector)
        requires
            pos < 8,
    ;
}

/// A wait whose source fired resolves after the handler ran, to the value
/// that the hardware left in the data register of its channel, or in the
/// counter where its source is no channel's. A wait whose source did not
/// fire is answered after the handler as it was before.
pub proof fn law_handler_resolves_fired_wait(regs: TimerRegs, source: InterruptFlag)
    ensures
        regs.interrupt_enabled(source) && regs.interrupt_pending(source)
            ==> regs.acknowledged().poll_outcome(source) == Poll::Ready(regs.event_value(source)),
        !regs.interrupt_pending(source) ==> regs.acknowledged().poll_outcome(source)
            == regs.poll_outcome(source),
{
    law_handler_disarms_fired_sources(regs, source);
}

/// An edge that the hardware latches on a channel whose interrupt is armed
/// fires the interrupt of the channel, and the latched value is what a wait
/// for the channel resolves to.
proof fn lemma_latched_edge_fires(regs: TimerRegs, channel: Channel, value: u32)
    ensures
        ({
            let source = channel.interrupt_flag();
            let latched = regs.with_interrupt_enable(source, true).with_capture_event(
                channel,
                value,
            );
            &&& latched.interrupt_enabled(source)
            &&& latched.interrupt_pending(source)
            &&& latched.event_value(source) == value
        }),
{
    let source = channel.interrupt_flag();
    let armed = regs.with_interrupt_enable(source, true);
    lemma_modified_bit_frame(regs, Reg::Dier, source.bit(), true);
    let held = if armed.interrupt_pending(source) {
        with_bit(armed.sr, overcapture_bit(channel), true)
    } else {
        armed.sr
    };
    lemma_bit_reads_back(held, source.bit(), true);
}

/// An edge that the hardware latches while a wait for its channel is armed
/// resolves the wait once the handler has run: the wait answers with the
/// latched value, and the source is left disarmed.
pub proof fn law_latched_edge_resolves_wait(regs: TimerRegs, channel: Channel, value: u32)
    ensures
        ({
            let source = channel.interrupt_flag();
            let latched = regs.with_interrupt_enable(source, true).with_capture_event(
                channel,
                value,
            );
            &&& latched.poll_outcome(source) == Poll::<u32>::Pending
            &&& latched.acknowledged().poll_outcome(source) == Poll::Ready(value)
            &&& !latched.acknowledged().interrupt_enabled(source)
        }),
{
    let source = channel.interrupt_flag();
    let latched = regs.with_interrupt_enable(source, true).with_capture_event(channel, value);
    lemma_latched_edge_fires(regs, channel, value);
    law_handler_disarms_fired_sources(latched, source);
}

/// A task that polled its wait is woken when the edge comes: if the hardware
/// latches an edge after the poll registered the task's waker, the handler
/// hands out that waker, empties the slot, and leaves the slots of the
/// sources that did not fire as they were.
pub proof fn law_handler_wakes_polled_wait<W>(
    regs: TimerRegs,
    slots: Seq<Option<W>>,
    channel: Channel,
    waker: W,
    value: u32,
    other: InterruptFlag,
)
    requires
        slots.len() == SOURCES,
    ensures
        ({
            let source = channel.interrupt_flag();
            let latched = regs.with_interrupt_enable(source, true).with_capture_event(
                channel,
                value,
            );
            let polled = slots.update(source.bit() as int, Some(waker));
            let fired = latched.fired_sources();
            &&& slots_taken(polled, fired)[source.bit() as int] == Some(waker)
            &&& slots_kept(polled, fired)[source.bit() as int] is None
            &&& !(latched.interrupt_enabled(other) && latched.interrupt_pending(other))
                ==> slots_kept(polled, fired)[other.bit() as int] == polled[other.bit() as int]
        }),
{
    let source = channel.interrupt_flag();
    let latched = regs.with_interrupt_enable(source, true).with_capture_event(channel, value);
    lemma_latched_edge_fires(regs, channel, value);
    law_handler_disarms_fired_sources(latched, source);
    law_handler_disarms_fired_sources(latched, other);
}

} // verus!
