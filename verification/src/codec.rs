//! The capture/compare channel codec: one channel's fields in the mode,
//! enable, status and data registers, read and written as typed values.
//!
//! A channel is wired either as a capture input or as a compare output, and
//! the two readings give the same bits of its mode register different
//! meanings. [`TimerCapture`] holds the accessors of the first reading,
//! [`TimerCompare`] those of the second, and [`TimerCaptureCompareBase`] what
//! both share. A [`ChannelFactory`] hands out the views, each channel to one
//! of the two readings only.

use vstd::prelude::*;
use crate::channel::Channel;
use crate::config::{CaptureInputPolarity, FilterValue, Selection};
use crate::layout::{
    ccer_bit, ccmr_bit, ccmr_reg, ccr_reg, dma_request_bit, overcapture_bit, CCER_CCE, CCER_CCNP,
    CCER_CCP, CCMR_CCS, CCMR_ICF, CCMR_ICPSC, CCMR_OCCE, CCMR_OCFE, CCMR_OCM, CCMR_OCPE,
};
use crate::regs::{Reg, TimerRegs};

verus! {

/// What a capture channel and a compare channel have in common: the enable
/// bits of their requests and the flags of their events.
pub trait TimerCaptureCompareBase {
    /// The channel that the view is of.
    spec fn channel(&self) -> Channel;

    /// The channel that the view is of.
    fn ch(&self) -> (channel: Channel)
        ensures
            channel == self.channel(),
    ;

    /// Writes the DMA request enable of the channel.
    fn write_dma_request_enable(&self, regs: &mut TimerRegs, val: bool)
        ensures
            *final(regs) == old(regs).with_bit(Reg::Dier, dma_request_bit(self.channel()), val),
    {
        regs.modify_bit(Reg::Dier, dma_request_bit(self.ch()), val);
    }

    /// Reads the DMA request enable of the channel.
    fn read_dma_request_enable(&self, regs: &TimerRegs) -> (val: bool)
        ensures
            val == regs.dma_request_enabled(self.channel()),
    {
        regs.read_bit(Reg::Dier, dma_request_bit(self.ch()))
    }

    /// Writes the interrupt enable of the channel.
    fn write_interrupt_enable(&self, regs: &mut TimerRegs, val: bool)
        ensures
            *final(regs) == old(regs).with_interrupt_enable(self.channel().interrupt_flag(), val),
    {
        regs.modify_bit(Reg::Dier, self.ch().interrupt_flag().bit(), val);
    }

    /// Reads the interrupt enable of the channel.
    fn read_interrupt_enable(&self, regs: &TimerRegs) -> (val: bool)
        ensures
            val == regs.interrupt_enabled(self.channel().interrupt_flag()),
    {
        regs.read_bit(Reg::Dier, self.ch().interrupt_flag().bit())
    }

    /// Clears the pending flag of the channel, by writing it as 0.
    fn write_interrupt_flag(&self, regs: &mut TimerRegs)
        ensures
            *final(regs) == old(regs).with_pending_cleared(self.channel().interrupt_flag()),
    {
        regs.modify_bit(Reg::Sr, self.ch().interrupt_flag().bit(), false);
    }

    /// Reads the pending flag of the channel.
    fn read_interrupt_flag(&self, regs: &TimerRegs) -> (val: bool)
        ensures
            val == regs.interrupt_pending(self.channel().interrupt_flag()),
    {
        regs.read_bit(Reg::Sr, self.ch().interrupt_flag().bit())
    }

    /// Clears the overcapture flag of the channel, by writing it as 0.
    fn write_overcapture_flag(&self, regs: &mut TimerRegs)
        ensures
            *final(regs) == old(regs).with_overcapture_cleared(self.channel()),
    {
        regs.modify_bit(Reg::Sr, overcapture_bit(self.ch()), false);
    }

    /// Reads the overcapture flag of the channel.
    fn read_overcapture_flag(&self, regs: &TimerRegs) -> (val: bool)
        ensures
            val == regs.overcapture(self.channel()),
    {
        regs.read_bit(Reg::Sr, overcapture_bit(self.ch()))
    }
}

/// The accessors of a channel wired as a capture input.
pub trait TimerCapture: TimerCaptureCompareBase {
    /// Sets the generation bit of the channel. The bit is write-only: it
    /// holds nothing, and the write makes the hardware latch the counter at
    /// once, as if a selected edge had come.
    fn write_generation(&self, regs: &mut TimerRegs)
        ensures
            *final(regs) == old(regs).with_capture_event(self.channel(), old(regs).cnt),
    {
        let counter: u32 = regs.read(Reg::Cnt);
        regs.capture_event(self.ch(), counter);
    }

    /// Writes the selection field of the channel.
    fn write_selection_input(&self, regs: &mut TimerRegs, val: Selection)
        ensures
            *final(regs) == old(regs).with_selection(self.channel(), val.bits()),
    {
        let channel = self.ch();
        regs.modify_bits(ccmr_reg(channel), ccmr_bit(channel, CCMR_CCS), 2, val.bits());
    }

    /// Reads the selection field of the channel.
    fn read_selection_input(&self, regs: &TimerRegs) -> (val: Selection)
        ensures
            val == regs.role(self.channel()),
    {
        let channel = self.ch();
        Selection::from_bits(regs.read_bits(ccmr_reg(channel), ccmr_bit(channel, CCMR_CCS), 2))
    }

    /// Writes the two low bits of `val` into the capture prescaler of the
    /// channel: 0 for a capture on every event, 1 on every second, 2 on every
    /// fourth, 3 on every eighth.
    fn write_prescaler(&self, regs: &mut TimerRegs, val: u8)
        ensures
            *final(regs) == old(regs).with_capture_prescaler(self.channel(), val),
    {
        let channel = self.ch();
        regs.modify_bits(ccmr_reg(channel), ccmr_bit(channel, CCMR_ICPSC), 2, val as u32);
    }

    /// Reads the capture prescaler of the channel.
    fn read_prescaler(&self, regs: &TimerRegs) -> (val: u8)
        ensures
            val == regs.capture_prescaler(self.channel()),
            val <= 3,
    {
        let channel = self.ch();
        let bits: u32 = regs.read_bits(ccmr_reg(channel), ccmr_bit(channel, CCMR_ICPSC), 2);
        proof {
            crate::bits::lemma_low_mask_values();
        }
        bits as u8
    }

    /// Writes the capture filter of the channel.
    fn write_filter(&self, regs: &mut TimerRegs, val: FilterValue)
        ensures
            *final(regs) == old(regs).with_capture_filter(self.channel(), val),
    {
        let channel = self.ch();
        regs.modify_bits(ccmr_reg(channel), ccmr_bit(channel, CCMR_ICF), 4, val.bits());
    }

    /// Reads the capture filter of the channel.
    fn read_filter(&self, regs: &TimerRegs) -> (val: FilterValue)
        ensures
            val == regs.filter(self.channel()),
    {
        let channel = self.ch();
        FilterValue::from_bits(regs.read_bits(ccmr_reg(channel), ccmr_bit(channel, CCMR_ICF), 4))
    }

    /// Writes the capture enable of the channel.
    fn write_capture_enable(&self, regs: &mut TimerRegs, val: bool)
        ensures
            *final(regs) == old(regs).with_channel_enable(self.channel(), val),
    {
        regs.modify_bit(Reg::Ccer, ccer_bit(self.ch(), CCER_CCE), val);
    }

    /// Reads the capture enable of the channel.
    fn read_capture_enable(&self, regs: &TimerRegs) -> (val: bool)
        ensures
            val == regs.channel_enabled(self.channel()),
    {
        regs.read_bit(Reg::Ccer, ccer_bit(self.ch(), CCER_CCE))
    }

    /// Writes the two polarity bits of the channel.
    fn write_input_polarity(&self, regs: &mut TimerRegs, val: CaptureInputPolarity)
        ensures
            *final(regs) == old(regs).with_input_polarity(self.channel(), val),
    {
        let channel = self.ch();
        regs.modify_bit(Reg::Ccer, ccer_bit(channel, CCER_CCNP), val.ccnp());
        regs.modify_bit(Reg::Ccer, ccer_bit(channel, CCER_CCP), val.ccp());
    }

    /// Reads the two polarity bits of the channel, each from its own
    /// position.
    fn read_input_polarity(&self, regs: &TimerRegs) -> (val: CaptureInputPolarity)
        ensures
            val == regs.input_polarity(self.channel()),
    {
        let channel = self.ch();
        let ccp: bool = regs.read_bit(Reg::Ccer, ccer_bit(channel, CCER_CCP));
        let ccnp: bool = regs.read_bit(Reg::Ccer, ccer_bit(channel, CCER_CCNP));
        CaptureInputPolarity::from_bits(ccnp, ccp)
    }

    /// Writes `val` into the low half of the data register of the channel.
    fn write_capture_value(&self, regs: &mut TimerRegs, val: u16)
        ensures
            *final(regs) == old(regs).with_bits(ccr_reg(self.channel()), 0, 16, val as u32),
    {
        regs.modify_bits(ccr_reg(self.ch()), 0, 16, val as u32);
    }

    /// Reads the low half of the data register of the channel.
    fn read_capture_value(&self, regs: &TimerRegs) -> (val: u16)
        ensures
            val == regs.bits(ccr_reg(self.channel()), 0, 16),
    {
        let bits: u32 = regs.read_bits(ccr_reg(self.ch()), 0, 16);
        proof {
            crate::bits::lemma_low_mask_values();
        }
        bits as u16
    }
}

/// The accessors of a channel wired as a compare output.
pub trait TimerCompare: TimerCaptureCompareBase {
    /// Sets the generation bit of the channel. The bit is write-only: it
    /// holds nothing, and the write makes the hardware raise the pending flag
    /// of the channel at once, as if the counter had matched.
    fn write_generation(&self, regs: &mut TimerRegs)
        ensures
            *final(regs) == old(regs).with_pending_raised(self.channel().interrupt_flag()),
    {
        regs.raise_pending(self.ch().interrupt_flag());
    }

    /// Writes the selection field of the channel.
    fn write_selection_output(&self, regs: &mut TimerRegs, val: Selection)
        ensures
            *final(regs) == old(regs).with_selection(self.channel(), val.bits()),
    {
        let channel = self.ch();
        regs.modify_bits(ccmr_reg(channel), ccmr_bit(channel, CCMR_CCS), 2, val.bits());
    }

    /// Reads the selection field of the channel.
    fn read_selection_output(&self, regs: &TimerRegs) -> (val: Selection)
        ensures
            val == regs.role(self.channel()),
    {
        let channel = self.ch();
        Selection::from_bits(regs.read_bits(ccmr_reg(channel), ccmr_bit(channel, CCMR_CCS), 2))
    }

    /// Writes the fast enable of the channel.
    fn write_fast_enable(&self, regs: &mut TimerRegs, val: bool)
        ensures
            *final(regs) == old(regs).with_bit(
                ccmr_reg(self.channel()),
                ccmr_bit(self.channel(), CCMR_OCFE),
                val,
            ),
    {
        let channel = self.ch();
        regs.modify_bit(ccmr_reg(channel), ccmr_bit(channel, CCMR_OCFE), val);
    }

    /// Reads the fast enable of the channel.
    fn read_fast_enable(&self, regs: &TimerRegs) -> (val: bool)
        ensures
            val == regs.fast_enabled(self.channel()),
    {
        let channel = self.ch();
        regs.read_bit(ccmr_reg(channel), ccmr_bit(channel, CCMR_OCFE))
    }

    /// Writes the preload enable of the channel.
    fn write_preload_enable(&self, regs: &mut TimerRegs, val: bool)
        ensures
            *final(regs) == old(regs).with_bit(
                ccmr_reg(self.channel()),
                ccmr_bit(self.channel(), CCMR_OCPE),
                val,
            ),
    {
        let channel = self.ch();
        regs.modify_bit(ccmr_reg(channel), ccmr_bit(channel, CCMR_OCPE), val);
    }

    /// Reads the preload enable of the channel.
    fn read_preload_enable(&self, regs: &TimerRegs) -> (val: bool)
        ensures
            val == regs.preload_enabled(self.channel()),
    {
        let channel = self.ch();
        regs.read_bit(ccmr_reg(channel), ccmr_bit(channel, CCMR_OCPE))
    }

    /// Writes the three low bits of `val` into the output mode of the
    /// channel.
    fn write_mode(&self, regs: &mut TimerRegs, val: u8)
        ensures
            *final(regs) == old(regs).with_bits(
                ccmr_reg(self.channel()),
                ccmr_bit(self.channel(), CCMR_OCM),
                3,
                val as u32,
            ),
    {
        let channel = self.ch();
        regs.modify_bits(ccmr_reg(channel), ccmr_bit(channel, CCMR_OCM), 3, val as u32);
    }

    /// Reads the output mode of the channel.
    fn read_mode(&self, regs: &TimerRegs) -> (val: u8)
        ensures
            val == regs.output_mode(self.channel()),
            val <= 7,
    {
        let channel = self.ch();
        let bits: u32 = regs.read_bits(ccmr_reg(channel), ccmr_bit(channel, CCMR_OCM), 3);
        proof {
            crate::bits::lemma_low_mask_values();
        }
        bits as u8
    }

    /// Writes the clear enable of the channel.
    fn write_clear_enable(&self, regs: &mut TimerRegs, val: bool)
        ensures
            *final(regs) == old(regs).with_bit(
                ccmr_reg(self.channel()),
                ccmr_bit(self.channel(), CCMR_OCCE),
                val,
            ),
    {
        let channel = self.ch();
        regs.modify_bit(ccmr_reg(channel), ccmr_bit(channel, CCMR_OCCE), val);
    }

    /// Reads the clear enable of the channel.
    fn read_clear_enable(&self, regs: &TimerRegs) -> (val: bool)
        ensures
            val == regs.clear_enabled(self.channel()),
    {
        let channel = self.ch();
        regs.read_bit(ccmr_reg(channel), ccmr_bit(channel, CCMR_OCCE))
    }

    /// Writes the output enable of the channel.
    fn write_output_enable(&self, regs: &mut TimerRegs, val: bool)
        ensures
            *final(regs) == old(regs).with_channel_enable(self.channel(), val),
    {
        regs.modify_bit(Reg::Ccer, ccer_bit(self.ch(), CCER_CCE), val);
    }

    /// Reads the output enable of the channel.
    fn read_output_enable(&self, regs: &TimerRegs) -> (val: bool)
        ensures
            val == regs.channel_enabled(self.channel()),
    {
        regs.read_bit(Reg::Ccer, ccer_bit(self.ch(), CCER_CCE))
    }

    /// Writes the polarity bit of the channel.
    fn write_output_polarity(&self, regs: &mut TimerRegs, val: bool)
        ensures
            *final(regs) == old(regs).with_bit(Reg::Ccer, ccer_bit(self.channel(), CCER_CCP), val),
    {
        regs.modify_bit(Reg::Ccer, ccer_bit(self.ch(), CCER_CCP), val);
    }

    /// Reads the polarity bit of the channel.
    fn read_output_polarity(&self, regs: &TimerRegs) -> (val: bool)
        ensures
            val == regs.output_polarity(self.channel()),
    {
        regs.read_bit(Reg::Ccer, ccer_bit(self.ch(), CCER_CCP))
    }

    /// Writes `val` into the low half of the data register of the channel.
    fn write_compare_value(&self, regs: &mut TimerRegs, val: u16)
        ensures
            *final(regs) == old(regs).with_bits(ccr_reg(self.channel()), 0, 16, val as u32),
    {
        regs.modify_bits(ccr_reg(self.ch()), 0, 16, val as u32);
    }

    /// Reads the low half of the data register of the channel.
    fn read_compare_value(&self, regs: &TimerRegs) -> (val: u16)
        ensures
            val == regs.bits(ccr_reg(self.channel()), 0, 16),
    {
        let bits: u32 = regs.read_bits(ccr_reg(self.ch()), 0, 16);
        proof {
            crate::bits::lemma_low_mask_values();
        }
        bits as u16
    }
}

/// The view of one channel as a capture input.
#[derive(Clone, Copy, Debug)]
pub struct TimerCaptureChannel {
    channel: Channel,
}

impl TimerCaptureCompareBase for TimerCaptureChannel {
    closed spec fn channel(&self) -> Channel {
        self.channel
    }

    fn ch(&self) -> (channel: Channel) {
        self.channel
    }
}

impl TimerCapture for TimerCaptureChannel {}

/// The view of one channel as a compare output.
#[derive(Clone, Copy, Debug)]
pub struct TimerCompareChannel {
    channel: Channel,
}

impl TimerCaptureCompareBase for TimerCompareChannel {
    closed spec fn channel(&self) -> Channel {
        self.channel
    }

    fn ch(&self) -> (channel: Channel) {
        self.channel
    }
}

impl TimerCompare for TimerCompareChannel {}

/// The error of asking for a channel that was handed out before.
#[derive(Clone, Copy, Debug, PartialEq, Eq)]
pub struct ChannelClaimed(pub Channel);

/// Hands out the views of a timer's channels, each channel once, so that no
/// channel is wired as a capture input and as a compare output at the same
/// time.
pub struct ChannelFactory {
    claimed: [bool; 4],
}

impl View for ChannelFactory {
    type V = Set<Channel>;

    closed spec fn view(&self) -> Set<Channel> {
        Set::new(|channel: Channel| self.claimed@[channel.index() as int])
    }
}

impl ChannelFactory {
    /// A factory that has handed out no channel yet.
    pub fn new() -> (factory: Self)
        ensures
            factory@ == Set::<Channel>::empty(),
    {
        let factory = ChannelFactory { claimed: [false, false, false, false] };
        assert(factory@ =~= Set::<Channel>::empty());
        factory
    }

    /// Whether `channel` was handed out.
    pub fn is_claimed(&self, channel: Channel) -> (claimed: bool)
        ensures
            claimed == self@.contains(channel),
    {
        self.claimed[channel.index() as usize]
    }

    /// Marks `channel` as handed out, if it was not.
    fn claim(&mut self, channel: Channel) -> (fresh: bool)
        ensures
            fresh == !old(self)@.contains(channel),
            final(self)@ == old(self)@.insert(channel),
    {
        let slot: usize = channel.index() as usize;
        let fresh: bool = !self.claimed[slot];
        self.claimed[slot] = true;
        assert(self@ =~= old(self)@.insert(channel));
        fresh
    }

    /// Hands out `channel` as a capture input. Fails, and hands out
    /// nothing, exactly if the channel was handed out before.
    pub fn get_capture(&mut self, channel: Channel) -> (view: Result<
        TimerCaptureChannel,
        ChannelClaimed,
    >)
        ensures
            view is Ok <==> !old(self)@.contains(channel),
            view matches Ok(capture) ==> capture.channel() == channel,
            view matches Err(error) ==> error == ChannelClaimed(channel),
            final(self)@ == old(self)@.insert(channel),
    {
        if self.claim(channel) {
            Ok(TimerCaptureChannel { channel })
        } else {
            Err(ChannelClaimed(channel))
        }
    }

    /// Hands out `channel` as a compare output. Fails, and hands out
    /// nothing, exactly if the channel was handed out before.
    pub fn get_compare(&mut self, channel: Channel) -> (view: Result<
        TimerCompareChannel,
        ChannelClaimed,
    >)
        ensures
            view is Ok <==> !old(self)@.contains(channel),
            view matches Ok(compare) ==> compare.channel() == channel,
            view matches Err(error) ==> error == ChannelClaimed(channel),
            final(self)@ == old(self)@.insert(channel),
    {
        if self.claim(channel) {
            Ok(TimerCompareChannel { channel })
        } else {
            Err(ChannelClaimed(channel))
        }
    }
}

} // verus!
