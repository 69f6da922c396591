//! Where each field lives in the register block, and what the block holds in
//! it.
//!
//! The enable register gives each channel four bits, the mode registers give
//! each channel eight and hold two channels per register, and the interrupt
//! enable and status registers give each interrupt source one bit at the same
//! position. A mode register field means one thing while the channel is wired
//! as a capture input and another while it is wired as a compare output; both
//! readings are named here over the same bits.

use vstd::prelude::*;
use crate::channel::{Channel, InterruptFlag};
use crate::bits::with_bit;
use crate::config::{
    CaptureInputPolarity, CountingMode, FilterValue, InputCaptureMode, InputTISelection, Selection,
};
use crate::regs::{Reg, TimerRegs};

verus! {

/// Control register 1: counter enable.
pub const CR1_CEN: u32 = 0;

/// Control register 1: update disable.
pub const CR1_UDIS: u32 = 1;

/// Control register 1: update request source.
pub const CR1_URS: u32 = 2;

/// Control register 1: one-pulse mode.
pub const CR1_OPM: u32 = 3;

/// Control register 1: direction.
pub const CR1_DIR: u32 = 4;

/// Control register 1: center-aligned mode, two bits.
pub const CR1_CMS: u32 = 5;

/// Control register 1: auto-reload preload enable.
pub const CR1_ARPE: u32 = 7;

/// Control register 1: clock division, two bits.
pub const CR1_CKD: u32 = 8;

/// Break and dead-time register: main output enable.
pub const BDTR_MOE: u32 = 15;

/// Interrupt enable register: DMA request enable of channel 1; the other
/// channels follow.
pub const DIER_CCDE: u32 = 9;

/// Status register: overcapture flag of channel 1; the other channels
/// follow.
pub const SR_CCOF: u32 = 9;

/// Enable register, within a channel's four bits: capture/output enable.
pub const CCER_CCE: u32 = 0;

/// Enable register, within a channel's four bits: polarity.
pub const CCER_CCP: u32 = 1;

/// Enable register, within a channel's four bits: complementary output
/// enable.
pub const CCER_CCNE: u32 = 2;

/// Enable register, within a channel's four bits: complementary polarity.
pub const CCER_CCNP: u32 = 3;

/// Mode register, within a channel's eight bits: selection, two bits.
pub const CCMR_CCS: u32 = 0;

/// Mode register, capture input: prescaler, two bits.
pub const CCMR_ICPSC: u32 = 2;

/// Mode register, capture input: filter, four bits.
pub const CCMR_ICF: u32 = 4;

/// Mode register, compare output: fast enable.
pub const CCMR_OCFE: u32 = 2;

/// Mode register, compare output: preload enable.
pub const CCMR_OCPE: u32 = 3;

/// Mode register, compare output: output mode, three bits.
pub const CCMR_OCM: u32 = 4;

/// Mode register, compare output: clear enable.
pub const CCMR_OCCE: u32 = 7;

/// The position in the enable register of bit `offset` of `channel`.
pub open spec fn ccer_bit_spec(channel: Channel, offset: u32) -> u32 {
    (4 * channel.index() + offset) as u32
}

/// The position in the enable register of bit `offset` of `channel`.
#[verifier::when_used_as_spec(ccer_bit_spec)]
pub fn ccer_bit(channel: Channel, offset: u32) -> (pos: u32)
    requires
        offset < 4,
    ensures
        pos == ccer_bit_spec(channel, offset),
        pos < 16,
{
    4 * channel.index() + offset
}

/// The mode register that holds `channel`: the first for channels 1 and 2,
/// the second for channels 3 and 4.
pub open spec fn ccmr_reg_spec(channel: Channel) -> Reg {
    if channel.index() / 2 == 0 {
        Reg::Ccmr1
    } else {
        Reg::Ccmr2
    }
}

/// The mode register that holds `channel`.
#[verifier::when_used_as_spec(ccmr_reg_spec)]
pub fn ccmr_reg(channel: Channel) -> (reg: Reg)
    ensures
        reg == ccmr_reg_spec(channel),
        reg != Reg::Sr,
{
    if channel.index() / 2 == 0 {
        Reg::Ccmr1
    } else {
        Reg::Ccmr2
    }
}

/// The position in its mode register of bit `offset` of `channel`: the low
/// byte for the first channel of a pair, the next byte for the second.
pub open spec fn ccmr_bit_spec(channel: Channel, offset: u32) -> u32 {
    (8 * (channel.index() % 2) + offset) as u32
}

/// The position in its mode register of bit `offset` of `channel`.
#[verifier::when_used_as_spec(ccmr_bit_spec)]
pub fn ccmr_bit(channel: Channel, offset: u32) -> (pos: u32)
    requires
        offset < 8,
    ensures
        pos == ccmr_bit_spec(channel, offset),
        pos < 16,
{
    8 * (channel.index() % 2) + offset
}

/// The data register of `channel`.
pub open spec fn ccr_reg_spec(channel: Channel) -> Reg {
    match channel {
        Channel::Ch1 => Reg::Ccr1,
        Channel::Ch2 => Reg::Ccr2,
        Channel::Ch3 => Reg::Ccr3,
        Channel::Ch4 => Reg::Ccr4,
    }
}

/// The data register of `channel`.
#[verifier::when_used_as_spec(ccr_reg_spec)]
pub fn ccr_reg(channel: Channel) -> (reg: Reg)
    ensures
        reg == ccr_reg_spec(channel),
        reg != Reg::Sr,
{
    match channel {
        Channel::Ch1 => Reg::Ccr1,
        Channel::Ch2 => Reg::Ccr2,
        Channel::Ch3 => Reg::Ccr3,
        Channel::Ch4 => Reg::Ccr4,
    }
}

/// The position in the status register of the overcapture flag of
/// `channel`.
pub open spec fn overcapture_bit_spec(channel: Channel) -> u32 {
    (SR_CCOF + channel.index()) as u32
}

/// The position in the status register of the overcapture flag of
/// `channel`.
#[verifier::when_used_as_spec(overcapture_bit_spec)]
pub fn overcapture_bit(channel: Channel) -> (pos: u32)
    ensures
        pos == overcapture_bit_spec(channel),
        pos < 16,
{
    SR_CCOF + channel.index()
}

/// The position in the interrupt enable register of the DMA request enable
/// of `channel`.
pub open spec fn dma_request_bit_spec(channel: Channel) -> u32 {
    (DIER_CCDE + channel.index()) as u32
}

/// The position in the interrupt enable register of the DMA request enable
/// of `channel`.
#[verifier::when_used_as_spec(dma_request_bit_spec)]
pub fn dma_request_bit(channel: Channel) -> (pos: u32)
    ensures
        pos == dma_request_bit_spec(channel),
        pos < 16,
{
    DIER_CCDE + channel.index()
}

impl TimerRegs {
    /// Whether the interrupt of `source` is enabled.
    pub open spec fn interrupt_enabled(self, source: InterruptFlag) -> bool {
        self.bit(Reg::Dier, source.bit())
    }

    /// The block after the interrupt enable bit of `source` was written.
    pub open spec fn with_interrupt_enable(self, source: InterruptFlag, enable: bool) -> TimerRegs {
        self.with_bit(Reg::Dier, source.bit(), enable)
    }

    /// Whether the pending flag of `source` is raised.
    pub open spec fn interrupt_pending(self, source: InterruptFlag) -> bool {
        self.bit(Reg::Sr, source.bit())
    }

    /// The block after software cleared the pending flag of `source`.
    pub open spec fn with_pending_cleared(self, source: InterruptFlag) -> TimerRegs {
        self.with_bit(Reg::Sr, source.bit(), false)
    }

    /// The block after the hardware raised the pending flag of `source`.
    /// Software cannot do this: a bus write only ever clears a flag.
    pub open spec fn with_pending_raised(self, source: InterruptFlag) -> TimerRegs {
        self.with_word(Reg::Sr, with_bit(self.sr, source.bit(), true))
    }

    /// The block after the hardware latched `value` on `channel`: the data
    /// register holds `value`, the pending flag of the channel is raised, and
    /// the overcapture flag is raised too if the pending flag was already up,
    /// that is if the value latched before was never fetched.
    pub open spec fn with_capture_event(self, channel: Channel, value: u32) -> TimerRegs {
        let missed = if self.interrupt_pending(channel.interrupt_flag()) {
            self.with_word(Reg::Sr, with_bit(self.sr, overcapture_bit(channel), true))
        } else {
            self
        };
        missed.with_word(ccr_reg(channel), value).with_pending_raised(channel.interrupt_flag())
    }

    /// Whether the DMA request of `channel` is enabled.
    pub open spec fn dma_request_enabled(self, channel: Channel) -> bool {
        self.bit(Reg::Dier, dma_request_bit(channel))
    }

    /// Whether the overcapture flag of `channel` is raised.
    pub open spec fn overcapture(self, channel: Channel) -> bool {
        self.bit(Reg::Sr, overcapture_bit(channel))
    }

    /// The block after software cleared the overcapture flag of `channel`.
    pub open spec fn with_overcapture_cleared(self, channel: Channel) -> TimerRegs {
        self.with_bit(Reg::Sr, overcapture_bit(channel), false)
    }

    /// Whether `channel` is enabled.
    pub open spec fn channel_enabled(self, channel: Channel) -> bool {
        self.bit(Reg::Ccer, ccer_bit(channel, CCER_CCE))
    }

    /// The block after the enable bit of `channel` was written.
    pub open spec fn with_channel_enable(self, channel: Channel, enable: bool) -> TimerRegs {
        self.with_bit(Reg::Ccer, ccer_bit(channel, CCER_CCE), enable)
    }

    /// The polarity that the two polarity bits of `channel` give: the
    /// complementary polarity bit and the polarity bit, each read from its
    /// own position.
    pub open spec fn input_polarity(self, channel: Channel) -> CaptureInputPolarity {
        CaptureInputPolarity::from_bits(
            self.bit(Reg::Ccer, ccer_bit(channel, CCER_CCNP)),
            self.bit(Reg::Ccer, ccer_bit(channel, CCER_CCP)),
        )
    }

    /// The block after the two polarity bits of `channel` were written.
    pub open spec fn with_input_polarity(
        self,
        channel: Channel,
        polarity: CaptureInputPolarity,
    ) -> TimerRegs {
        self.with_bit(Reg::Ccer, ccer_bit(channel, CCER_CCNP), polarity.ccnp()).with_bit(
            Reg::Ccer,
            ccer_bit(channel, CCER_CCP),
            polarity.ccp(),
        )
    }

    /// The block after `channel` was set to latch on the edges of `mode`.
    pub open spec fn with_capture_mode(self, channel: Channel, mode: InputCaptureMode) -> TimerRegs {
        self.with_input_polarity(channel, mode.polarity())
    }

    /// The two bits of the selection field of `channel`.
    pub open spec fn selection(self, channel: Channel) -> u32 {
        self.bits(ccmr_reg(channel), ccmr_bit(channel, CCMR_CCS), 2)
    }

    /// The block after the selection field of `channel` was written.
    pub open spec fn with_selection(self, channel: Channel, bits: u32) -> TimerRegs {
        self.with_bits(ccmr_reg(channel), ccmr_bit(channel, CCMR_CCS), 2, bits)
    }

    /// What the selection field wires `channel` as.
    pub open spec fn role(self, channel: Channel) -> Selection {
        Selection::from_bits(self.selection(channel))
    }

    /// The block after `channel` was wired to the input line of `tisel`.
    pub open spec fn with_ti_selection(self, channel: Channel, tisel: InputTISelection) -> TimerRegs {
        self.with_selection(channel, tisel.bits())
    }

    /// The input line that `channel` is wired to, if the selection field
    /// names one.
    pub open spec fn ti_selection(self, channel: Channel) -> Option<InputTISelection> {
        InputTISelection::from_bits(self.selection(channel))
    }

    /// The capture prescaler of `channel`: 0 to 3, for a capture on every
    /// event, every second, every fourth or every eighth.
    pub open spec fn capture_prescaler(self, channel: Channel) -> u32 {
        self.bits(ccmr_reg(channel), ccmr_bit(channel, CCMR_ICPSC), 2)
    }

    /// The block after the capture prescaler of `channel` was written.
    pub open spec fn with_capture_prescaler(self, channel: Channel, factor: u8) -> TimerRegs {
        self.with_bits(ccmr_reg(channel), ccmr_bit(channel, CCMR_ICPSC), 2, factor as u32)
    }

    /// The four bits of the capture filter of `channel`.
    pub open spec fn capture_filter(self, channel: Channel) -> u32 {
        self.bits(ccmr_reg(channel), ccmr_bit(channel, CCMR_ICF), 4)
    }

    /// The capture filter of `channel`.
    pub open spec fn filter(self, channel: Channel) -> FilterValue {
        FilterValue::from_bits(self.capture_filter(channel))
    }

    /// The block after the capture filter of `channel` was written.
    pub open spec fn with_capture_filter(self, channel: Channel, filter: FilterValue) -> TimerRegs {
        self.with_bits(ccmr_reg(channel), ccmr_bit(channel, CCMR_ICF), 4, filter.bits())
    }

    /// Compare output: whether the fast enable of `channel` is set.
    pub open spec fn fast_enabled(self, channel: Channel) -> bool {
        self.bit(ccmr_reg(channel), ccmr_bit(channel, CCMR_OCFE))
    }

    /// Compare output: whether the preload enable of `channel` is set.
    pub open spec fn preload_enabled(self, channel: Channel) -> bool {
        self.bit(ccmr_reg(channel), ccmr_bit(channel, CCMR_OCPE))
    }

    /// Compare output: the three bits of the output mode of `channel`.
    pub open spec fn output_mode(self, channel: Channel) -> u32 {
        self.bits(ccmr_reg(channel), ccmr_bit(channel, CCMR_OCM), 3)
    }

    /// Compare output: whether the clear enable of `channel` is set.
    pub open spec fn clear_enabled(self, channel: Channel) -> bool {
        self.bit(ccmr_reg(channel), ccmr_bit(channel, CCMR_OCCE))
    }

    /// Compare output: whether the polarity bit of `channel` is set.
    pub open spec fn output_polarity(self, channel: Channel) -> bool {
        self.bit(Reg::Ccer, ccer_bit(channel, CCER_CCP))
    }

    /// The word in the data register of `channel`.
    pub open spec fn capture_value(self, channel: Channel) -> u32 {
        self.word(ccr_reg(channel))
    }

    /// Whether the counter runs.
    pub open spec fn counter_enabled(self) -> bool {
        self.bit(Reg::Cr1, CR1_CEN)
    }

    /// The block after the counter enable bit was written.
    pub open spec fn with_counter_enable(self, enable: bool) -> TimerRegs {
        self.with_bit(Reg::Cr1, CR1_CEN, enable)
    }

    /// The block after the direction bit and the center-aligned mode field
    /// were written for `mode`.
    pub open spec fn with_counting_mode(self, mode: CountingMode) -> TimerRegs {
        self.with_bit(Reg::Cr1, CR1_DIR, mode.dir()).with_bits(Reg::Cr1, CR1_CMS, 2, mode.cms())
    }

    /// Whether the main output enable is set.
    pub open spec fn outputs_enabled(self) -> bool {
        self.bit(Reg::Bdtr, BDTR_MOE)
    }

    /// The block after the main output enable was set.
    pub open spec fn with_outputs_enabled(self) -> TimerRegs {
        self.with_bit(Reg::Bdtr, BDTR_MOE, true)
    }
}

} // verus!
