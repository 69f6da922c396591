//! The interrupt side of the timer: the enable bit of each source, the table
//! of wakers that waits behind them, and the handler that serves the line.
//!
//! A task that waits for a source registers a waker in the source's slot and
//! leaves the source's enable bit set. When the source fires, the handler
//! clears the enable bit and hands out the waker: the cleared bit is how the
//! waiting task learns that its event has come.

use vstd::prelude::*;
use crate::bits::bit_is_set;
use crate::channel::InterruptFlag;
use crate::regs::{Reg, TimerRegs};

verus! {

/// The number of interrupt sources, and so of waker slots.
pub const SOURCES: usize = 8;

impl TimerRegs {
    /// Writes the interrupt enable bit of `source`.
    pub fn set_interrupt_enable(&mut self, source: InterruptFlag, enable: bool)
        ensures
            *final(self) == old(self).with_interrupt_enable(source, enable),
    {
        let mask: u32 = u32::from(source);
        let held: u32 = self.read(Reg::Dier);
        if enable {
            self.write(Reg::Dier, held | mask);
        } else {
            self.write(Reg::Dier, held & !mask);
        }
    }

    /// Reads the interrupt enable bit of `source`.
    pub fn is_interrupt_enabled(&self, source: InterruptFlag) -> (enabled: bool)
        ensures
            enabled == self.interrupt_enabled(source),
    {
        (self.read(Reg::Dier) & u32::from(source)) != 0
    }

    /// The word in which the bit of a source is set exactly if the source
    /// fired: its pending flag is raised and its interrupt is enabled.
    pub open spec fn fired_sources(self) -> u32 {
        self.sr & self.dier & 0xff
    }

    /// The block after the handler served the line: the enable bit of every
    /// source that fired is cleared, and nothing else is changed.
    pub open spec fn acknowledged(self) -> TimerRegs {
        self.written(Reg::Dier, self.dier & !self.fired_sources())
    }
}

/// The waker slots of one timer instance, one per interrupt source. A slot
/// holds at most one waker.
pub struct State<W> {
    wakers: [Option<W>; 8],
}

impl<W> View for State<W> {
    type V = Seq<Option<W>>;

    closed spec fn view(&self) -> Seq<Option<W>> {
        self.wakers@
    }
}

impl<W> State<W> {
    /// The waker registered for `source`, if there is one.
    pub open spec fn slot(&self, source: InterruptFlag) -> Option<W> {
        self@[source.bit() as int]
    }

    /// The table has one slot per source.
    pub proof fn lemma_slots(&self)
        ensures
            self@.len() == SOURCES,
    {
    }

    /// A table in which no waker is registered.
    pub fn new() -> (state: Self)
        ensures
            state@.len() == SOURCES,
            forall|i: int| 0 <= i < SOURCES ==> state@[i] is None,
    {
        State { wakers: [None, None, None, None, None, None, None, None] }
    }

    /// Registers `waker` for `source`. A waker that was registered for the
    /// source before is dropped: the last registration wins.
    pub fn register(&mut self, source: InterruptFlag, waker: W)
        ensures
            final(self)@ == old(self)@.update(source.bit() as int, Some(waker)),
            final(self).slot(source) == Some(waker),
    {
        let slot: usize = source.bit() as usize;
        self.wakers[slot] = Some(waker);
    }

    /// Takes the waker of `source` out of the table, for the caller to wake.
    pub fn take(&mut self, source: InterruptFlag) -> (waker: Option<W>)
        ensures
            waker == old(self).slot(source),
            final(self)@ == old(self)@.update(source.bit() as int, None),
            final(self).slot(source) is None,
    {
        let slot: usize = source.bit() as usize;
        self.wakers[slot].take()
    }

    /// Whether a waker is registered for `source`.
    pub fn is_registered(&self, source: InterruptFlag) -> (registered: bool)
        ensures
            registered == self.slot(source).is_some(),
    {
        let slot: usize = source.bit() as usize;
        self.wakers[slot].is_some()
    }
}

/// The table after the wakers of the sources whose bit is set in `fired`
/// were taken out.
pub open spec fn slots_kept<W>(slots: Seq<Option<W>>, fired: u32) -> Seq<Option<W>> {
    Seq::new(
        slots.len(),
        |i: int|
            if bit_is_set(fired, i as u32) {
                None
            } else {
                slots[i]
            },
    )
}

/// The wakers taken out for the sources whose bit is set in `fired`, each at
/// the position of its source.
pub open spec fn slots_taken<W>(slots: Seq<Option<W>>, fired: u32) -> Seq<Option<W>> {
    Seq::new(
        slots.len(),
        |i: int|
            if bit_is_set(fired, i as u32) {
                slots[i]
            } else {
                None
            },
    )
}

/// Serves the timer's interrupt line. For every source that fired, the
/// handler clears the enable bit, so that the source is disarmed and its
/// waiter can see that the event came, and takes the waker out of the
/// source's slot. It returns the wakers to wake, each at the position of its
/// source. Pending flags and data registers stay as the hardware left them.
pub fn on_interrupt<W>(regs: &mut TimerRegs, state: &mut State<W>) -> (woken: [Option<W>; 8])
    ensures
        *final(regs) == old(regs).acknowledged(),
        final(state)@ == slots_kept(old(state)@, old(regs).fired_sources()),
        woken@ == slots_taken(old(state)@, old(regs).fired_sources()),
{
    let pending: u32 = regs.read(Reg::Sr);
    let enabled: u32 = regs.read(Reg::Dier);
    let fired: u32 = pending & enabled & 0xff;
    regs.write(Reg::Dier, enabled & !fired);

    let mut woken: [Option<W>; 8] = [None, None, None, None, None, None, None, None];
    let mut pos: u32 = 0;
    while pos < 8
        invariant
            pos <= 8,
            state@.len() == SOURCES,
            old(state)@.len() == SOURCES,
            forall|i: int|
                0 <= i < SOURCES ==> state@[i] == (if i < pos && bit_is_set(fired, i as u32) {
                    None
                } else {
                    old(state)@[i]
                }),
            forall|i: int|
                0 <= i < SOURCES ==> woken@[i] == (if i < pos && bit_is_set(fired, i as u32) {
                    old(state)@[i]
                } else {
                    None
                }),
        decreases 8 - pos,
    {
        if let Some(source) = InterruptFlag::from_bit(pos) {
            if (fired & u32::from(source)) != 0 {
                woken[pos as usize] = state.take(source);
            }
        }
        pos = pos + 1;
    }
    assert(state@ =~= slots_kept(old(state)@, fired));
    assert(woken@ =~= slots_taken(old(state)@, fired));
    woken
}

} // verus!
