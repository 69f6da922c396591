//! The low-level timer adapter: each operation of the driver as the register
//! accesses that carry it out.

use vstd::prelude::*;
use crate::channel::{Channel, InterruptFlag};
use crate::config::{CountingMode, FilterValue, InputCaptureMode, InputTISelection};
use crate::layout::{
    ccer_bit, ccmr_bit, ccmr_reg, ccr_reg, BDTR_MOE, CCER_CCE, CCER_CCNP, CCER_CCP, CCMR_CCS,
    CCMR_ICF, CCMR_ICPSC, CR1_CEN, CR1_CMS, CR1_DIR,
};
use crate::regs::{Reg, TimerRegs};

verus! {

/// A frequency in hertz.
#[derive(Clone, Copy, Debug, PartialEq, Eq, Structural)]
pub struct Hertz(pub u32);

/// The largest value that the 16-bit prescaler register holds.
pub const PRESCALER_MAX: u32 = 0xffff;

/// Whether a timer fed with `clock` can tick at `freq`: the frequency is not
/// zero, not above the clock, and the division of the clock that it asks for
/// fits the prescaler register.
pub open spec fn tick_freq_attainable(clock: Hertz, freq: Hertz) -> bool {
    &&& freq.0 > 0
    &&& clock.0 / freq.0 >= 1
    &&& clock.0 / freq.0 - 1 <= PRESCALER_MAX
}

/// The prescaler that makes a timer fed with `clock` tick at `freq`: the
/// counter advances once every prescaler-plus-one cycles of the clock.
pub open spec fn prescaler_for(clock: Hertz, freq: Hertz) -> u32 {
    (clock.0 / freq.0 - 1) as u32
}

/// Tests whether a timer fed with `clock` can tick at `freq`.
pub fn can_tick_at(clock: Hertz, freq: Hertz) -> (ok: bool)
    ensures
        ok == tick_freq_attainable(clock, freq),
{
    freq.0 > 0 && clock.0 / freq.0 >= 1 && clock.0 / freq.0 - 1 <= PRESCALER_MAX
}

/// The timer's line at the interrupt controller.
#[derive(Clone, Copy, Debug, PartialEq, Eq, Structural)]
pub struct InterruptLine {
    /// Whether a request on the line waits to be served.
    pub pending: bool,
    /// Whether the controller passes requests on the line to the processor.
    pub enabled: bool,
}

impl InterruptLine {
    /// Drops a request that waits on the line.
    pub fn unpend(&mut self)
        ensures
            *final(self) == (InterruptLine { pending: false, enabled: old(self).enabled }),
    {
        self.pending = false;
    }

    /// Lets the controller pass requests on the line.
    pub fn enable(&mut self)
        ensures
            *final(self) == (InterruptLine { pending: old(self).pending, enabled: true }),
    {
        self.enabled = true;
    }
}

/// One timer instance: its register block, the clock that feeds it, whether
/// its channels sit behind a main output enable (the advanced timers do),
/// and its capture/compare line at the interrupt controller.
#[derive(Clone, Copy, Debug, PartialEq, Eq, Structural)]
pub struct TimerPeripheral {
    /// The register block.
    pub regs: TimerRegs,
    /// The frequency of the timer's input clock.
    pub clock: Hertz,
    /// Whether the instance has a main output enable.
    pub advanced: bool,
    /// The capture/compare line at the interrupt controller.
    pub irq: InterruptLine,
}

impl TimerPeripheral {
    /// The instance with its register block replaced by `regs`.
    pub open spec fn with_regs(self, regs: TimerRegs) -> TimerPeripheral {
        TimerPeripheral { regs, ..self }
    }

}

/// Low-level access to one timer instance, which it owns.
pub struct Timer {
    tim: TimerPeripheral,
}

impl View for Timer {
    type V = TimerPeripheral;

    closed spec fn view(&self) -> TimerPeripheral {
        self.tim
    }
}

impl Timer {
    /// Takes the instance over, as it is.
    pub fn new(tim: TimerPeripheral) -> (timer: Timer)
        ensures
            timer@ == tim,
    {
        Timer { tim }
    }

    /// The instance.
    pub fn peripheral(&self) -> (tim: &TimerPeripheral)
        ensures
            *tim == self@,
    {
        &self.tim
    }

    /// The register block, to read.
    pub fn regs(&self) -> (regs: &TimerRegs)
        ensures
            *regs == self@.regs,
    {
        &self.tim.regs
    }

    /// The register block, to change: what the caller leaves in it is what
    /// the timer holds afterwards.
    pub fn regs_mut(&mut self) -> (regs: &mut TimerRegs)
        ensures
            *regs == old(self)@.regs,
            final(self)@ == old(self)@.with_regs(*final(regs)),
    {
        &mut self.tim.regs
    }

    /// The instance, to change: what the caller leaves in it is what the
    /// timer holds afterwards.
    pub fn peripheral_mut(&mut self) -> (tim: &mut TimerPeripheral)
        ensures
            *tim == old(self)@,
            final(self)@ == *final(tim),
    {
        &mut self.tim
    }

    /// Writes the direction bit and the center-aligned mode field for
    /// `mode`.
    pub fn set_counting_mode(&mut self, mode: CountingMode)
        ensures
            final(self)@ == old(self)@.with_regs(old(self)@.regs.with_counting_mode(mode)),
    {
        self.tim.regs.modify_bit(Reg::Cr1, CR1_DIR, mode.dir());
        self.tim.regs.modify_bits(Reg::Cr1, CR1_CMS, 2, mode.cms());
    }

    /// Writes the prescaler that makes the counter tick at `freq`.
    pub fn set_tick_freq(&mut self, freq: Hertz)
        requires
            tick_freq_attainable(old(self)@.clock, freq),
        ensures
            final(self)@ == old(self)@.with_regs(
                old(self)@.regs.written(Reg::Psc, prescaler_for(old(self)@.clock, freq)),
            ),
    {
        let ticks_per_period: u32 = self.tim.clock.0 / freq.0;
        self.tim.regs.write(Reg::Psc, ticks_per_period - 1);
    }

    /// Sets the main output enable where the instance has one, and does
    /// nothing where it has none.
    pub fn enable_outputs(&mut self)
        ensures
            final(self)@ == (if old(self)@.advanced {
                old(self)@.with_regs(old(self)@.regs.with_outputs_enabled())
            } else {
                old(self)@
            }),
    {
        if self.tim.advanced {
            self.tim.regs.modify_bit(Reg::Bdtr, BDTR_MOE, true);
        }
    }

    /// Starts the counter.
    pub fn start(&mut self)
        ensures
            final(self)@ == old(self)@.with_regs(old(self)@.regs.with_counter_enable(true)),
    {
        self.tim.regs.modify_bit(Reg::Cr1, CR1_CEN, true);
    }

    /// Writes the enable bit of `channel`.
    pub fn enable_channel(&mut self, channel: Channel, enable: bool)
        ensures
            final(self)@ == old(self)@.with_regs(
                old(self)@.regs.with_channel_enable(channel, enable),
            ),
    {
        self.tim.regs.modify_bit(Reg::Ccer, ccer_bit(channel, CCER_CCE), enable);
    }

    /// Reads the enable bit of `channel`.
    pub fn get_channel_enable_state(&self, channel: Channel) -> (enabled: bool)
        ensures
            enabled == self@.regs.channel_enabled(channel),
    {
        self.tim.regs.read_bit(Reg::Ccer, ccer_bit(channel, CCER_CCE))
    }

    /// Writes the two polarity bits of `channel` for the edges of `mode`.
    pub fn set_input_capture_mode(&mut self, channel: Channel, mode: InputCaptureMode)
        ensures
            final(self)@ == old(self)@.with_regs(old(self)@.regs.with_capture_mode(channel, mode)),
    {
        let polarity = mode.polarity();
        self.tim.regs.modify_bit(Reg::Ccer, ccer_bit(channel, CCER_CCNP), polarity.ccnp());
        self.tim.regs.modify_bit(Reg::Ccer, ccer_bit(channel, CCER_CCP), polarity.ccp());
    }

    /// Writes the selection field of `channel` for the input line of
    /// `tisel`.
    pub fn set_input_ti_selection(&mut self, channel: Channel, tisel: InputTISelection)
        ensures
            final(self)@ == old(self)@.with_regs(old(self)@.regs.with_ti_selection(channel, tisel)),
    {
        self.tim.regs.modify_bits(ccmr_reg(channel), ccmr_bit(channel, CCMR_CCS), 2, tisel.bits());
    }

    /// Writes the capture filter of `channel`.
    pub fn set_input_capture_filter(&mut self, channel: Channel, icf: FilterValue)
        ensures
            final(self)@ == old(self)@.with_regs(old(self)@.regs.with_capture_filter(channel, icf)),
    {
        self.tim.regs.modify_bits(ccmr_reg(channel), ccmr_bit(channel, CCMR_ICF), 4, icf.bits());
    }

    /// Writes the two low bits of `factor` into the capture prescaler of
    /// `channel`: 0 to 3, for a capture on every event, every second, every
    /// fourth or every eighth.
    pub fn set_input_capture_prescaler(&mut self, channel: Channel, factor: u8)
        ensures
            final(self)@ == old(self)@.with_regs(
                old(self)@.regs.with_capture_prescaler(channel, factor),
            ),
    {
        self.tim.regs.modify_bits(
            ccmr_reg(channel),
            ccmr_bit(channel, CCMR_ICPSC),
            2,
            factor as u32,
        );
    }

    /// Reads the data register of `channel`.
    pub fn get_capture_value(&self, channel: Channel) -> (value: u32)
        ensures
            value == self@.regs.capture_value(channel),
    {
        self.tim.regs.read(ccr_reg(channel))
    }

    /// Reads the pending flag of `channel`.
    pub fn get_input_interrupt(&self, channel: Channel) -> (pending: bool)
        ensures
            pending == self@.regs.interrupt_pending(channel.interrupt_flag()),
    {
        self.tim.regs.read_bit(Reg::Sr, InterruptFlag::from(channel).bit())
    }
}

} // verus!
