//! The input capture driver and the wait that it hands out.
//!
//! A wait goes through three steps. Creating it arms the interrupt of its
//! source. While the enable bit of the source stays set, polling it answers
//! [`Poll::Pending`]; once the interrupt handler has cleared the bit, polling
//! it answers [`Poll::Ready`] with the value that the hardware latched.
//! Ending it, whether it was answered or given up, disarms the source.

use vstd::prelude::*;
use crate::channel::{Channel, InterruptFlag};
use crate::config::{CountingMode, FilterValue, InputCaptureMode, InputTISelection};
use crate::interrupt::State;
use crate::low_level::{
    prescaler_for, tick_freq_attainable, Hertz, InterruptLine, Timer, TimerPeripheral,
};
use crate::regs::{Reg, TimerRegs};

verus! {

/// The answer of one poll of a wait.
#[derive(Debug, PartialEq, Eq)]
pub enum Poll<T> {
    /// The event came; this is its value.
    Ready(T),
    /// The event has not come yet.
    Pending,
}

impl TimerRegs {
    /// The value that a wait for `source` resolves to: the data register of
    /// the channel for a capture/compare source, the counter for any other.
    pub open spec fn event_value(self, source: InterruptFlag) -> u32 {
        match source {
            InterruptFlag::CaptureCompare1 => self.ccr1,
            InterruptFlag::CaptureCompare2 => self.ccr2,
            InterruptFlag::CaptureCompare3 => self.ccr3,
            InterruptFlag::CaptureCompare4 => self.ccr4,
            _ => self.cnt,
        }
    }

    /// What a poll of a wait for `source` answers on this block.
    pub open spec fn poll_outcome(self, source: InterruptFlag) -> Poll<u32> {
        if self.interrupt_enabled(source) {
            Poll::Pending
        } else {
            Poll::Ready(self.event_value(source))
        }
    }

    /// The block after `channel` was set up to capture: wired to the input
    /// line of `tisel`, without filter, latching on the edges of `mode`, on
    /// every event, and enabled.
    pub open spec fn configured_for_capture(
        self,
        channel: Channel,
        mode: InputCaptureMode,
        tisel: InputTISelection,
    ) -> TimerRegs {
        self.with_ti_selection(channel, tisel).with_capture_filter(
            channel,
            FilterValue::NOFILTER,
        ).with_capture_mode(channel, mode).with_capture_prescaler(channel, 0).with_channel_enable(
            channel,
            true,
        )
    }
}

impl TimerPeripheral {
    /// The instance after the driver took it over: counting as `mode` says,
    /// ticking at `freq`, its outputs enabled where it has a main output
    /// enable, its counter running, and its interrupt line cleared of any
    /// waiting request and enabled.
    pub open spec fn initialized(self, freq: Hertz, mode: CountingMode) -> TimerPeripheral {
        let counting = self.regs.with_counting_mode(mode).written(
            Reg::Psc,
            prescaler_for(self.clock, freq),
        );
        let enabled = if self.advanced {
            counting.with_outputs_enabled()
        } else {
            counting
        };
        TimerPeripheral {
            regs: enabled.with_counter_enable(true),
            irq: InterruptLine { pending: false, enabled: true },
            ..self
        }
    }
}

/// Writes the interrupt enable bit of `flag` inside `critical_section::with`,
/// so that the interrupt handler cannot run between the read and the write
/// of the register. The contract claims of `critical_section::with` that it
/// runs the closure once and returns when the closure has returned.
#[verifier::external_body]
fn set_interrupt_enable_locked(regs: &mut TimerRegs, flag: InterruptFlag, enable: bool)
    ensures
        *final(regs) == old(regs).with_interrupt_enable(flag, enable),
{
    critical_section::with(|_| regs.set_interrupt_enable(flag, enable))
}

/// A wait for one interrupt source. While it exists, its source is armed.
#[must_use]
pub struct InputCaptureFuture {
    flag: InterruptFlag,
}

impl View for InputCaptureFuture {
    type V = InterruptFlag;

    closed spec fn view(&self) -> InterruptFlag {
        self.flag
    }
}

impl InputCaptureFuture {
    /// Starts a wait for `flag`: sets the interrupt enable bit of the source,
    /// inside a critical section.
    pub fn new(regs: &mut TimerRegs, flag: InterruptFlag) -> (future: Self)
        ensures
            future@ == flag,
            *final(regs) == old(regs).with_interrupt_enable(flag, true),
    {
        set_interrupt_enable_locked(regs, flag, true);
        Self { flag }
    }

    /// The source that the wait is for.
    pub fn flag(&self) -> (flag: InterruptFlag)
        ensures
            flag == self@,
    {
        self.flag
    }

    /// Polls the wait. Registers `waker` in the slot of the source, in place
    /// of any waker registered there before, then reads the enable bit of the
    /// source. While the bit is set the event has not come. Once it is clear
    /// the answer is the data register of the channel for a capture/compare
    /// source, the counter for any other. The register block is only read.
    pub fn poll<W>(&self, regs: &TimerRegs, state: &mut State<W>, waker: W) -> (outcome: Poll<u32>)
        ensures
            final(state)@ == old(state)@.update(self@.bit() as int, Some(waker)),
            final(state).slot(self@) == Some(waker),
            forall|other: InterruptFlag|
                other != self@ ==> #[trigger] final(state).slot(other) == old(state).slot(other),
            outcome == regs.poll_outcome(self@),
    {
        proof {
            state.lemma_slots();
        }
        state.register(self.flag, waker);

        let dier: u32 = regs.read(Reg::Dier);
        let enabled: bool = (dier & u32::from(self.flag)) != 0;
        if !enabled {
            let val: u32 = match self.flag {
                InterruptFlag::CaptureCompare1 => regs.read(Reg::Ccr1),
                InterruptFlag::CaptureCompare2 => regs.read(Reg::Ccr2),
                InterruptFlag::CaptureCompare3 => regs.read(Reg::Ccr3),
                InterruptFlag::CaptureCompare4 => regs.read(Reg::Ccr4),
                _ => regs.read(Reg::Cnt),
            };
            Poll::Ready(val)
        } else {
            Poll::Pending
        }
    }

    /// Ends the wait: clears the interrupt enable bit of the source, inside a
    /// critical section, whether or not the event came.
    pub fn disarm(self, regs: &mut TimerRegs)
        ensures
            *final(regs) == old(regs).with_interrupt_enable(self@, false),
    {
        set_interrupt_enable_locked(regs, self.flag, false);
    }
}

/// Input capture driver. It owns one timer instance.
pub struct InputCapture {
    inner: Timer,
}

impl View for InputCapture {
    type V = TimerPeripheral;

    closed spec fn view(&self) -> TimerPeripheral {
        self.inner@
    }
}

impl InputCapture {
    /// Create a new input capture driver.
    pub fn new(tim: TimerPeripheral, freq: Hertz, counting_mode: CountingMode) -> (driver: Self)
        requires
            tick_freq_attainable(tim.clock, freq),
        ensures
            driver@ == tim.initialized(freq, counting_mode),
    {
        Self::new_inner(tim, freq, counting_mode)
    }

    fn new_inner(tim: TimerPeripheral, freq: Hertz, counting_mode: CountingMode) -> (driver: Self)
        requires
            tick_freq_attainable(tim.clock, freq),
        ensures
            driver@ == tim.initialized(freq, counting_mode),
    {
        let mut inner = Timer::new(tim);

        inner.set_counting_mode(counting_mode);
        inner.set_tick_freq(freq);
        inner.enable_outputs();
        inner.start();

        let tim = inner.peripheral_mut();
        tim.irq.unpend();
        tim.irq.enable();

        Self { inner }
    }

    /// The timer instance, to read.
    pub fn peripheral(&self) -> (tim: &TimerPeripheral)
        ensures
            *tim == self@,
    {
        self.inner.peripheral()
    }

    /// The timer instance, to change: what the caller leaves in it is what
    /// the driver holds afterwards.
    pub fn peripheral_mut(&mut self) -> (tim: &mut TimerPeripheral)
        ensures
            *tim == old(self)@,
            final(self)@ == *final(tim),
    {
        self.inner.peripheral_mut()
    }

    /// The register block, to read.
    pub fn regs(&self) -> (regs: &TimerRegs)
        ensures
            *regs == self@.regs,
    {
        self.inner.regs()
    }

    /// The register block, to change: what the caller leaves in it is what
    /// the driver holds afterwards.
    pub fn regs_mut(&mut self) -> (regs: &mut TimerRegs)
        ensures
            *regs == old(self)@.regs,
            final(self)@ == old(self)@.with_regs(*final(regs)),
    {
        self.inner.regs_mut()
    }

    /// Enable the given channel.
    pub fn enable(&mut self, channel: Channel)
        ensures
            final(self)@ == old(self)@.with_regs(old(self)@.regs.with_channel_enable(channel, true)),
    {
        self.inner.enable_channel(channel, true);
    }

    /// Disable the given channel.
    pub fn disable(&mut self, channel: Channel)
        ensures
            final(self)@ == old(self)@.with_regs(
                old(self)@.regs.with_channel_enable(channel, false),
            ),
    {
        self.inner.enable_channel(channel, false);
    }

    /// Check whether given channel is enabled
    pub fn is_enabled(&self, channel: Channel) -> (enabled: bool)
        ensures
            enabled == self@.regs.channel_enabled(channel),
    {
        self.inner.get_channel_enable_state(channel)
    }

    /// Set the input capture mode for a given channel.
    pub fn set_input_capture_mode(&mut self, channel: Channel, mode: InputCaptureMode)
        ensures
            final(self)@ == old(self)@.with_regs(old(self)@.regs.with_capture_mode(channel, mode)),
    {
        self.inner.set_input_capture_mode(channel, mode);
    }

    /// Set input TI selection.
    pub fn set_input_ti_selection(&mut self, channel: Channel, tisel: InputTISelection)
        ensures
            final(self)@ == old(self)@.with_regs(old(self)@.regs.with_ti_selection(channel, tisel)),
    {
        self.inner.set_input_ti_selection(channel, tisel)
    }

    /// Get capture value for a channel.
    pub fn get_capture_value(&self, channel: Channel) -> (value: u32)
        ensures
            value == self@.regs.capture_value(channel),
    {
        self.inner.get_capture_value(channel)
    }

    /// Get input interrupt.
    pub fn get_input_interrupt(&self, channel: Channel) -> (pending: bool)
        ensures
            pending == self@.regs.interrupt_pending(channel.interrupt_flag()),
    {
        self.inner.get_input_interrupt(channel)
    }

    /// Sets `channel` up to capture and starts a wait for its next event:
    /// selects the input line, switches the filter off, selects the edges,
    /// asks for a capture on every event, enables the channel, and arms the
    /// interrupt of the channel.
    pub fn new_future(
        &mut self,
        channel: Channel,
        mode: InputCaptureMode,
        tisel: InputTISelection,
    ) -> (future: InputCaptureFuture)
        ensures
            future@ == channel.interrupt_flag(),
            final(self)@ == old(self)@.with_regs(
                old(self)@.regs.configured_for_capture(channel, mode, tisel).with_interrupt_enable(
                    channel.interrupt_flag(),
                    true,
                ),
            ),
    {
        self.inner.set_input_ti_selection(channel, tisel);
        self.inner.set_input_capture_filter(channel, FilterValue::NOFILTER);
        self.inner.set_input_capture_mode(channel, mode);
        self.inner.set_input_capture_prescaler(channel, 0);
        self.inner.enable_channel(channel, true);

        InputCaptureFuture::new(self.inner.regs_mut(), InterruptFlag::from(channel))
    }

    /// Starts a wait until the pin sees a rising edge.
    pub fn wait_for_rising_edge(&mut self, channel: Channel) -> (future: InputCaptureFuture)
        ensures
            future@ == channel.interrupt_flag(),
            final(self)@ == old(self)@.with_regs(
                old(self)@.regs.configured_for_capture(
                    channel,
                    InputCaptureMode::Rising,
                    InputTISelection::Normal,
                ).with_interrupt_enable(channel.interrupt_flag(), true),
            ),
    {
        self.new_future(channel, InputCaptureMode::Rising, InputTISelection::Normal)
    }

    /// Starts a wait until the pin sees a falling edge.
    pub fn wait_for_falling_edge(&mut self, channel: Channel) -> (future: InputCaptureFuture)
        ensures
            future@ == channel.interrupt_flag(),
            final(self)@ == old(self)@.with_regs(
                old(self)@.regs.configured_for_capture(
                    channel,
                    InputCaptureMode::Falling,
                    InputTISelection::Normal,
                ).with_interrupt_enable(channel.interrupt_flag(), true),
            ),
    {
        self.new_future(channel, InputCaptureMode::Falling, InputTISelection::Normal)
    }

    /// Starts a wait until the pin sees any edge.
    pub fn wait_for_any_edge(&mut self, channel: Channel) -> (future: InputCaptureFuture)
        ensures
            future@ == channel.interrupt_flag(),
            final(self)@ == old(self)@.with_regs(
                old(self)@.regs.configured_for_capture(
                    channel,
                    InputCaptureMode::BothEdges,
                    InputTISelection::Normal,
                ).with_interrupt_enable(channel.interrupt_flag(), true),
            ),
    {
        self.new_future(channel, InputCaptureMode::BothEdges, InputTISelection::Normal)
    }

    /// Starts a wait until the (alternate) pin sees a rising edge.
    pub fn wait_for_rising_edge_alternate(&mut self, channel: Channel) -> (future:
        InputCaptureFuture)
        ensures
            future@ == channel.interrupt_flag(),
            final(self)@ == old(self)@.with_regs(
                old(self)@.regs.configured_for_capture(
                    channel,
                    InputCaptureMode::Rising,
                    InputTISelection::Alternate,
                ).with_interrupt_enable(channel.interrupt_flag(), true),
            ),
    {
        self.new_future(channel, InputCaptureMode::Rising, InputTISelection::Alternate)
    }

    /// Starts a wait until the (alternate) pin sees a falling edge.
    pub fn wait_for_falling_edge_alternate(&mut self, channel: Channel) -> (future:
        InputCaptureFuture)
        ensures
            future@ == channel.interrupt_flag(),
            final(self)@ == old(self)@.with_regs(
                old(self)@.regs.configured_for_capture(
                    channel,
                    InputCaptureMode::Falling,
                    InputTISelection::Alternate,
                ).with_interrupt_enable(channel.interrupt_flag(), true),
            ),
    {
        self.new_future(channel, InputCaptureMode::Falling, InputTISelection::Alternate)
    }

    /// Starts a wait until the (alternate) pin sees any edge.
    pub fn wait_for_any_edge_alternate(&mut self, channel: Channel) -> (future: InputCaptureFuture)
        ensures
            future@ == channel.interrupt_flag(),
            final(self)@ == old(self)@.with_regs(
                old(self)@.regs.configured_for_capture(
                    channel,
                    InputCaptureMode::BothEdges,
                    InputTISelection::Alternate,
                ).with_interrupt_enable(channel.interrupt_flag(), true),
            ),
    {
        self.new_future(channel, InputCaptureMode::BothEdges, InputTISelection::Alternate)
    }
}

} // verus!
