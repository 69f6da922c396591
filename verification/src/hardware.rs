//! The hardware's side of the register block: what an event does to it.
//!
//! Software reaches the block through bus reads and writes. The hardware
//! changes it on its own: an edge on a capture input latches the counter into
//! the channel's data register and raises the channel's pending flag. These
//! functions play that part on a block held as a value.
//!
//! An edge reaches the capture logic of a channel only while the channel is
//! enabled and, on an instance whose channels sit behind a main output
//! enable, while that enable is set. Which edges a channel selects, how many
//! of them its prescaler skips and what its filter holds back is the
//! hardware's own business, and is not played here.

use vstd::prelude::*;
use crate::bits::set_bit;
use crate::channel::{Channel, InterruptFlag};
use crate::layout::{ccer_bit, ccr_reg, overcapture_bit, BDTR_MOE, CCER_CCE};
use crate::low_level::TimerPeripheral;
use crate::regs::{Reg, TimerRegs};

verus! {

impl TimerRegs {
    /// Raises the pending flag of `source`, as an event of the source does.
    pub fn raise_pending(&mut self, source: InterruptFlag)
        ensures
            *final(self) == old(self).with_pending_raised(source),
    {
        self.sr = set_bit(self.sr, source.bit(), true);
    }

    /// Latches `value` on `channel`, as the hardware does with the counter
    /// when it sees a selected edge on the channel's input. The data register
    /// takes the value and the pending flag is raised. If the pending flag was
    /// already up, the value latched before is lost unread, and the
    /// overcapture flag is raised to say so.
    pub fn capture_event(&mut self, channel: Channel, value: u32)
        ensures
            *final(self) == old(self).with_capture_event(channel, value),
    {
        let source = channel.interrupt_flag();
        if self.read_bit(Reg::Sr, source.bit()) {
            self.sr = set_bit(self.sr, overcapture_bit(channel), true);
        }
        match ccr_reg(channel) {
            Reg::Ccr1 => self.ccr1 = value,
            Reg::Ccr2 => self.ccr2 = value,
            Reg::Ccr3 => self.ccr3 = value,
            _ => self.ccr4 = value,
        }
        self.raise_pending(source);
    }
}

impl TimerPeripheral {
    /// Whether the instance lets an event on `channel` through to the
    /// capture logic: the channel is enabled, and the main output enable is
    /// set where the instance has one.
    pub open spec fn lets_through(self, channel: Channel) -> bool {
        self.regs.channel_enabled(channel) && (self.advanced ==> self.regs.outputs_enabled())
    }

    /// The instance after an edge on the input of `channel`: if the
    /// instance lets the edge through, the counter is latched as it stands;
    /// if not, the edge changes nothing.
    pub open spec fn after_edge(self, channel: Channel) -> TimerPeripheral {
        if self.lets_through(channel) {
            self.with_regs(self.regs.with_capture_event(channel, self.regs.cnt))
        } else {
            self
        }
    }

    /// Plays an edge on the input of `channel`, and says whether it was
    /// latched.
    pub fn input_edge(&mut self, channel: Channel) -> (latched: bool)
        ensures
            latched == old(self).lets_through(channel),
            *final(self) == old(self).after_edge(channel),
    {
        let enabled: bool = self.regs.read_bit(Reg::Ccer, ccer_bit(channel, CCER_CCE));
        let open: bool = !self.advanced || self.regs.read_bit(Reg::Bdtr, BDTR_MOE);
        if enabled && open {
            let counter: u32 = self.regs.read(Reg::Cnt);
            self.regs.capture_event(channel, counter);
            true
        } else {
            false
        }
    }
}

} // verus!
