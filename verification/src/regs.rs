//! The register block of a four-channel timer, held as plain words.
//!
//! [`TimerRegs`] stands for the memory-mapped peripheral: nothing is cached
//! beside it, a read gives the word that the block holds at that moment, and
//! a write behaves as the hardware's bus write does. For every register but
//! the status register that stores the written word. The status register
//! only ever loses flags to a write: a flag written as 0 is cleared, a flag
//! written as 1 stays as it was.
//!
//! The fields are public so that the hardware's side of the block (an edge
//! latching the counter, a flag being raised) can be played by whoever holds
//! the value.

use vstd::prelude::*;
use crate::bits::{
    bit_is_set, field, get_bit, get_field, lemma_bit_keeps_field, lemma_bit_keeps_other_bit,
    lemma_bit_reads_back, lemma_field_bounded, lemma_field_keeps_bit,
    lemma_field_keeps_other_field, lemma_field_reads_back, low_mask, set_bit, set_field, with_bit,
    with_field,
};

verus! {

/// The registers of the block that software reads and writes.
#[derive(Clone, Copy, Debug, PartialEq, Eq, Structural)]
pub enum Reg {
    /// Control register 1: counter enable, direction, alignment.
    Cr1,
    /// Interrupt and DMA request enable register.
    Dier,
    /// Status register: pending and overcapture flags.
    Sr,
    /// Capture/compare mode register of channels 1 and 2.
    Ccmr1,
    /// Capture/compare mode register of channels 3 and 4.
    Ccmr2,
    /// Capture/compare enable register: enable and polarity bits.
    Ccer,
    /// The free-running counter.
    Cnt,
    /// The prescaler that divides the timer's input clock.
    Psc,
    /// Capture/compare data register of channel 1.
    Ccr1,
    /// Capture/compare data register of channel 2.
    Ccr2,
    /// Capture/compare data register of channel 3.
    Ccr3,
    /// Capture/compare data register of channel 4.
    Ccr4,
    /// Break and dead-time register: holds the main output enable.
    Bdtr,
}

/// What a register holds after `written` was written to it while it held
/// `held`.
pub open spec fn stored_after_write(reg: Reg, held: u32, written: u32) -> u32 {
    if reg == Reg::Sr {
        held & written
    } else {
        written
    }
}

/// The words of a timer's register block.
#[derive(Clone, Copy, Debug, PartialEq, Eq, Structural)]
pub struct TimerRegs {
    /// Control register 1.
    pub cr1: u32,
    /// Interrupt and DMA request enable register.
    pub dier: u32,
    /// Status register.
    pub sr: u32,
    /// Capture/compare mode register 1.
    pub ccmr1: u32,
    /// Capture/compare mode register 2.
    pub ccmr2: u32,
    /// Capture/compare enable register.
    pub ccer: u32,
    /// Counter.
    pub cnt: u32,
    /// Prescaler.
    pub psc: u32,
    /// Capture/compare data register 1.
    pub ccr1: u32,
    /// Capture/compare data register 2.
    pub ccr2: u32,
    /// Capture/compare data register 3.
    pub ccr3: u32,
    /// Capture/compare data register 4.
    pub ccr4: u32,
    /// Break and dead-time register.
    pub bdtr: u32,
}

impl TimerRegs {
    /// The block as it is after reset: every word zero.
    pub open spec fn reset_spec() -> TimerRegs {
        TimerRegs {
            cr1: 0,
            dier: 0,
            sr: 0,
            ccmr1: 0,
            ccmr2: 0,
            ccer: 0,
            cnt: 0,
            psc: 0,
            ccr1: 0,
            ccr2: 0,
            ccr3: 0,
            ccr4: 0,
            bdtr: 0,
        }
    }

    /// The block as it is after reset: every word zero.
    pub fn reset() -> (regs: TimerRegs)
        ensures
            regs == TimerRegs::reset_spec(),
    {
        TimerRegs {
            cr1: 0,
            dier: 0,
            sr: 0,
            ccmr1: 0,
            ccmr2: 0,
            ccer: 0,
            cnt: 0,
            psc: 0,
            ccr1: 0,
            ccr2: 0,
            ccr3: 0,
            ccr4: 0,
            bdtr: 0,
        }
    }

    /// The word that register `reg` holds.
    pub open spec fn word(self, reg: Reg) -> u32 {
        match reg {
            Reg::Cr1 => self.cr1,
            Reg::Dier => self.dier,
            Reg::Sr => self.sr,
            Reg::Ccmr1 => self.ccmr1,
            Reg::Ccmr2 => self.ccmr2,
            Reg::Ccer => self.ccer,
            Reg::Cnt => self.cnt,
            Reg::Psc => self.psc,
            Reg::Ccr1 => self.ccr1,
            Reg::Ccr2 => self.ccr2,
            Reg::Ccr3 => self.ccr3,
            Reg::Ccr4 => self.ccr4,
            Reg::Bdtr => self.bdtr,
        }
    }

    /// The block with `value` held in `reg` and every other register kept.
    pub open spec fn with_word(self, reg: Reg, value: u32) -> TimerRegs {
        match reg {
            Reg::Cr1 => TimerRegs { cr1: value, ..self },
            Reg::Dier => TimerRegs { dier: value, ..self },
            Reg::Sr => TimerRegs { sr: value, ..self },
            Reg::Ccmr1 => TimerRegs { ccmr1: value, ..self },
            Reg::Ccmr2 => TimerRegs { ccmr2: value, ..self },
            Reg::Ccer => TimerRegs { ccer: value, ..self },
            Reg::Cnt => TimerRegs { cnt: value, ..self },
            Reg::Psc => TimerRegs { psc: value, ..self },
            Reg::Ccr1 => TimerRegs { ccr1: value, ..self },
            Reg::Ccr2 => TimerRegs { ccr2: value, ..self },
            Reg::Ccr3 => TimerRegs { ccr3: value, ..self },
            Reg::Ccr4 => TimerRegs { ccr4: value, ..self },
            Reg::Bdtr => TimerRegs { bdtr: value, ..self },
        }
    }

    /// The block after a bus write of `value` to `reg`.
    pub open spec fn written(self, reg: Reg, value: u32) -> TimerRegs {
        self.with_word(reg, stored_after_write(reg, self.word(reg), value))
    }

    /// Whether bit `pos` of `reg` is set.
    pub open spec fn bit(self, reg: Reg, pos: u32) -> bool {
        bit_is_set(self.word(reg), pos)
    }

    /// The field of `width` bits at `shift` in `reg`.
    pub open spec fn bits(self, reg: Reg, shift: u32, width: u32) -> u32 {
        field(self.word(reg), shift, width)
    }

    /// The block after `reg` was read, bit `pos` of the word set to `value`,
    /// and the word written back.
    pub open spec fn with_bit(self, reg: Reg, pos: u32, value: bool) -> TimerRegs {
        self.written(reg, with_bit(self.word(reg), pos, value))
    }

    /// The block after `reg` was read, the field at `shift` replaced by the
    /// low `width` bits of `value`, and the word written back.
    pub open spec fn with_bits(self, reg: Reg, shift: u32, width: u32, value: u32) -> TimerRegs {
        self.written(reg, with_field(self.word(reg), shift, width, value))
    }

    /// What `reg` can be brought to hold by a bus write when the block
    /// holds `self` and `wanted` is asked for: the word of `wanted`, but for
    /// the status register, which keeps of its flags those that `wanted` has
    /// too and gains none.
    pub open spec fn reachable_word(self, wanted: TimerRegs, reg: Reg) -> u32 {
        if reg == Reg::Sr {
            self.sr & wanted.sr
        } else {
            wanted.word(reg)
        }
    }

    /// Reads register `reg`.
    pub fn read(&self, reg: Reg) -> (value: u32)
        ensures
            value == self.word(reg),
    {
        match reg {
            Reg::Cr1 => self.cr1,
            Reg::Dier => self.dier,
            Reg::Sr => self.sr,
            Reg::Ccmr1 => self.ccmr1,
            Reg::Ccmr2 => self.ccmr2,
            Reg::Ccer => self.ccer,
            Reg::Cnt => self.cnt,
            Reg::Psc => self.psc,
            Reg::Ccr1 => self.ccr1,
            Reg::Ccr2 => self.ccr2,
            Reg::Ccr3 => self.ccr3,
            Reg::Ccr4 => self.ccr4,
            Reg::Bdtr => self.bdtr,
        }
    }

    /// Writes `value` to register `reg`, as a bus write does: the status
    /// register keeps only the flags that are set both in it and in `value`,
    /// every other register stores `value`.
    pub fn write(&mut self, reg: Reg, value: u32)
        ensures
            *final(self) == old(self).written(reg, value),
    {
        match reg {
            Reg::Cr1 => self.cr1 = value,
            Reg::Dier => self.dier = value,
            Reg::Sr => self.sr = self.sr & value,
            Reg::Ccmr1 => self.ccmr1 = value,
            Reg::Ccmr2 => self.ccmr2 = value,
            Reg::Ccer => self.ccer = value,
            Reg::Cnt => self.cnt = value,
            Reg::Psc => self.psc = value,
            Reg::Ccr1 => self.ccr1 = value,
            Reg::Ccr2 => self.ccr2 = value,
            Reg::Ccr3 => self.ccr3 = value,
            Reg::Ccr4 => self.ccr4 = value,
            Reg::Bdtr => self.bdtr = value,
        }
    }

    /// The bus write to `reg` that carries a block that holds `self` towards
    /// `wanted`, or `None` if `reg` needs no write. This is how a change that
    /// was worked out on a copy of the block is taken to the block itself:
    /// only the registers that differ are written, and the status register
    /// is written with ones everywhere but at the flags to clear.
    pub fn write_towards(&self, wanted: &TimerRegs, reg: Reg) -> (word: Option<u32>)
        ensures
            word is None <==> self.word(reg) == self.reachable_word(*wanted, reg),
            word matches Some(written) ==> self.written(reg, written).word(reg)
                == self.reachable_word(*wanted, reg),
    {
        let held: u32 = self.read(reg);
        let asked: u32 = wanted.read(reg);
        match reg {
            Reg::Sr => {
                if held & asked == held {
                    None
                } else {
                    assert(held & !(held & !asked) == held & asked) by (bit_vector);
                    Some(!(held & !asked))
                }
            },
            _ => {
                if held == asked {
                    None
                } else {
                    Some(asked)
                }
            },
        }
    }

    /// Reads bit `pos` of `reg`.
    pub fn read_bit(&self, reg: Reg, pos: u32) -> (set: bool)
        requires
            pos < 32,
        ensures
            set == self.bit(reg, pos),
    {
        get_bit(self.read(reg), pos)
    }

    /// Reads the field of `width` bits at `shift` in `reg`.
    pub fn read_bits(&self, reg: Reg, shift: u32, width: u32) -> (value: u32)
        requires
            0 < width < 32,
            shift + width <= 32,
        ensures
            value == self.bits(reg, shift, width),
            value <= low_mask(width),
    {
        proof {
            lemma_field_bounded(self.word(reg), shift, width);
        }
        get_field(self.read(reg), shift, width)
    }

    /// Reads `reg`, sets bit `pos` of the word to `value` and writes it back.
    pub fn modify_bit(&mut self, reg: Reg, pos: u32, value: bool)
        requires
            pos < 32,
        ensures
            *final(self) == old(self).with_bit(reg, pos, value),
    {
        let held: u32 = self.read(reg);
        self.write(reg, set_bit(held, pos, value));
    }

    /// Reads `reg`, replaces the field at `shift` by the low `width` bits of
    /// `value` and writes the word back.
    pub fn modify_bits(&mut self, reg: Reg, shift: u32, width: u32, value: u32)
        requires
            0 < width < 32,
            shift + width <= 32,
        ensures
            *final(self) == old(self).with_bits(reg, shift, width, value),
    {
        let held: u32 = self.read(reg);
        self.write(reg, set_field(held, shift, width, value));
    }
}

/// Outside the status register, a bit written through read-modify-write
/// reads back as written.
pub proof fn lemma_modified_bit_reads_back(regs: TimerRegs, reg: Reg, pos: u32, value: bool)
    requires
        pos < 32,
        reg != Reg::Sr,
    ensures
        regs.with_bit(reg, pos, value).bit(reg, pos) == value,
{
    lemma_bit_reads_back(regs.word(reg), pos, value);
}

/// Writing a bit through read-modify-write changes no other bit of the
/// block, whatever the register.
pub proof fn lemma_modified_bit_keeps_other_bit(
    regs: TimerRegs,
    reg: Reg,
    pos: u32,
    value: bool,
    other_reg: Reg,
    other_pos: u32,
)
    requires
        pos < 32,
        other_pos < 32,
        reg != other_reg || pos != other_pos,
    ensures
        regs.with_bit(reg, pos, value).bit(other_reg, other_pos) == regs.bit(
            other_reg,
            other_pos,
        ),
{
    if reg == other_reg {
        lemma_bit_keeps_other_bit(regs.word(reg), pos, value, other_pos);
        if reg == Reg::Sr {
            lemma_status_write_back(regs.sr, with_bit(regs.sr, pos, value), other_pos);
        }
    }
}

/// Writing a bit through read-modify-write changes no field beside it.
pub proof fn lemma_modified_bit_keeps_field(
    regs: TimerRegs,
    reg: Reg,
    pos: u32,
    value: bool,
    other_reg: Reg,
    shift: u32,
    width: u32,
)
    requires
        pos < 32,
        shift + width <= 32,
        reg != Reg::Sr,
        reg != other_reg || pos < shift || shift + width <= pos,
    ensures
        regs.with_bit(reg, pos, value).bits(other_reg, shift, width) == regs.bits(
            other_reg,
            shift,
            width,
        ),
{
    if reg == other_reg {
        lemma_bit_keeps_field(regs.word(reg), pos, value, shift, width);
    }
}

/// Outside the status register, a field written through read-modify-write
/// reads back as the low `width` bits of what was written.
pub proof fn lemma_modified_bits_read_back(
    regs: TimerRegs,
    reg: Reg,
    shift: u32,
    width: u32,
    value: u32,
)
    requires
        shift + width <= 32,
        reg != Reg::Sr,
    ensures
        regs.with_bits(reg, shift, width, value).bits(reg, shift, width) == value & low_mask(
            width,
        ),
{
    lemma_field_reads_back(regs.word(reg), shift, width, value);
}

/// Writing a field through read-modify-write changes no bit beside it.
pub proof fn lemma_modified_bits_keep_bit(
    regs: TimerRegs,
    reg: Reg,
    shift: u32,
    width: u32,
    value: u32,
    other_reg: Reg,
    pos: u32,
)
    requires
        pos < 32,
        shift + width <= 32,
        reg != Reg::Sr,
        reg != other_reg || pos < shift || shift + width <= pos,
    ensures
        regs.with_bits(reg, shift, width, value).bit(other_reg, pos) == regs.bit(other_reg, pos),
{
    if reg == other_reg {
        lemma_field_keeps_bit(regs.word(reg), shift, width, value, pos);
    }
}

/// Writing a field through read-modify-write changes no field that does not
/// overlap it.
pub proof fn lemma_modified_bits_keep_other_bits(
    regs: TimerRegs,
    reg: Reg,
    shift: u32,
    width: u32,
    value: u32,
    other_reg: Reg,
    other_shift: u32,
    other_width: u32,
)
    requires
        shift + width <= 32,
        other_shift + other_width <= 32,
        reg != Reg::Sr,
        reg != other_reg || shift + width <= other_shift || other_shift + other_width <= shift,
    ensures
        regs.with_bits(reg, shift, width, value).bits(other_reg, other_shift, other_width)
            == regs.bits(other_reg, other_shift, other_width),
{
    if reg == other_reg {
        lemma_field_keeps_other_field(
            regs.word(reg),
            shift,
            width,
            value,
            other_shift,
            other_width,
        );
    }
}

/// What a read-modify-write of one bit outside the status register leaves
/// behind: the bit reads back as written, and every other bit, every field
/// beside it and every other register is as before.
pub proof fn lemma_modified_bit_frame(regs: TimerRegs, reg: Reg, pos: u32, value: bool)
    requires
        pos < 32,
        reg != Reg::Sr,
    ensures
        regs.with_bit(reg, pos, value).bit(reg, pos) == value,
        forall|other_reg: Reg, other_pos: u32|
            #![trigger regs.with_bit(reg, pos, value).bit(other_reg, other_pos)]
            other_pos < 32 && (reg != other_reg || pos != other_pos) ==> regs.with_bit(
                reg,
                pos,
                value,
            ).bit(other_reg, other_pos) == regs.bit(other_reg, other_pos),
        forall|other_reg: Reg, shift: u32, width: u32|
            #![trigger regs.with_bit(reg, pos, value).bits(other_reg, shift, width)]
            shift + width <= 32 && (reg != other_reg || pos < shift || shift + width <= pos)
                ==> regs.with_bit(reg, pos, value).bits(other_reg, shift, width) == regs.bits(
                other_reg,
                shift,
                width,
            ),
        forall|other_reg: Reg|
            #![trigger regs.with_bit(reg, pos, value).word(other_reg)]
            reg != other_reg ==> regs.with_bit(reg, pos, value).word(other_reg) == regs.word(
                other_reg,
            ),
{
    lemma_modified_bit_reads_back(regs, reg, pos, value);
    assert forall|other_reg: Reg, other_pos: u32|
        other_pos < 32 && (reg != other_reg || pos != other_pos) implies #[trigger] regs.with_bit(
        reg,
        pos,
        value,
    ).bit(other_reg, other_pos) == regs.bit(other_reg, other_pos) by {
        lemma_modified_bit_keeps_other_bit(regs, reg, pos, value, other_reg, other_pos);
    }
    assert forall|other_reg: Reg, shift: u32, width: u32|
        shift + width <= 32 && (reg != other_reg || pos < shift || shift + width
            <= pos) implies #[trigger] regs.with_bit(reg, pos, value).bits(other_reg, shift, width)
        == regs.bits(other_reg, shift, width) by {
        lemma_modified_bit_keeps_field(regs, reg, pos, value, other_reg, shift, width);
    }
}

/// What a read-modify-write of one field outside the status register leaves
/// behind: the field reads back as the low `width` bits of what was written,
/// and every bit beside it, every field that does not overlap it and every
/// other register is as before.
pub proof fn lemma_modified_bits_frame(
    regs: TimerRegs,
    reg: Reg,
    shift: u32,
    width: u32,
    value: u32,
)
    requires
        shift + width <= 32,
        reg != Reg::Sr,
    ensures
        regs.with_bits(reg, shift, width, value).bits(reg, shift, width) == value & low_mask(
            width,
        ),
        forall|other_reg: Reg, pos: u32|
            #![trigger regs.with_bits(reg, shift, width, value).bit(other_reg, pos)]
            pos < 32 && (reg != other_reg || pos < shift || shift + width <= pos)
                ==> regs.with_bits(reg, shift, width, value).bit(other_reg, pos) == regs.bit(
                other_reg,
                pos,
            ),
        forall|other_reg: Reg, other_shift: u32, other_width: u32|
            #![trigger regs.with_bits(reg, shift, width, value).bits(other_reg, other_shift, other_width)]
            other_shift + other_width <= 32 && (reg != other_reg || shift + width <= other_shift
                || other_shift + other_width <= shift) ==> regs.with_bits(
                reg,
                shift,
                width,
                value,
            ).bits(other_reg, other_shift, other_width) == regs.bits(
                other_reg,
                other_shift,
                other_width,
            ),
        forall|other_reg: Reg|
            #![trigger regs.with_bits(reg, shift, width, value).word(other_reg)]
            reg != other_reg ==> regs.with_bits(reg, shift, width, value).word(other_reg)
                == regs.word(other_reg),
{
    lemma_modified_bits_read_back(regs, reg, shift, width, value);
    assert forall|other_reg: Reg, pos: u32|
        pos < 32 && (reg != other_reg || pos < shift || shift + width
            <= pos) implies #[trigger] regs.with_bits(reg, shift, width, value).bit(other_reg, pos)
        == regs.bit(other_reg, pos) by {
        lemma_modified_bits_keep_bit(regs, reg, shift, width, value, other_reg, pos);
    }
    assert forall|other_reg: Reg, other_shift: u32, other_width: u32|
        other_shift + other_width <= 32 && (reg != other_reg || shift + width <= other_shift
            || other_shift + other_width <= shift) implies #[trigger] regs.with_bits(
        reg,
        shift,
        width,
        value,
    ).bits(other_reg, other_shift, other_width) == regs.bits(
        other_reg,
        other_shift,
        other_width,
    ) by {
        lemma_modified_bits_keep_other_bits(
            regs,
            reg,
            shift,
            width,
            value,
            other_reg,
            other_shift,
            other_width,
        );
    }
}

/// In the status register a flag survives a write exactly if it was set and
/// is written as 1.
pub proof fn lemma_status_write_back(held: u32, written: u32, pos: u32)
    requires
        pos < 32,
    ensures
        bit_is_set(stored_after_write(Reg::Sr, held, written), pos) == (bit_is_set(held, pos)
            && bit_is_set(written, pos)),
{
    assert(bit_is_set(held & written, pos) == (bit_is_set(held, pos) && bit_is_set(written, pos)))
        by (bit_vector)
        requires
            pos < 32,
    ;
}

} // verus!
