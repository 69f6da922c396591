//! Capture/compare channels and the interrupt sources of a timer.

use vstd::prelude::*;

verus! {

/// One of the four capture/compare units attached to a timer's counter.
#[derive(Clone, Copy, Debug, PartialEq, Eq, Structural)]
pub enum Channel {
    /// Channel 1.
    Ch1,
    /// Channel 2.
    Ch2,
    /// Channel 3.
    Ch3,
    /// Channel 4.
    Ch4,
}

impl Channel {
    /// The zero-based register index of the channel: its number minus one.
    pub open spec fn index_spec(self) -> u32 {
        match self {
            Channel::Ch1 => 0,
            Channel::Ch2 => 1,
            Channel::Ch3 => 2,
            Channel::Ch4 => 3,
        }
    }

    /// The zero-based register index of the channel.
    #[verifier::when_used_as_spec(index_spec)]
    pub fn index(self) -> (i: u32)
        ensures
            i == self.index_spec(),
            i < 4,
    {
        match self {
            Channel::Ch1 => 0,
            Channel::Ch2 => 1,
            Channel::Ch3 => 2,
            Channel::Ch4 => 3,
        }
    }

    /// The interrupt source of the channel.
    pub open spec fn interrupt_flag_spec(self) -> InterruptFlag {
        match self {
            Channel::Ch1 => InterruptFlag::CaptureCompare1,
            Channel::Ch2 => InterruptFlag::CaptureCompare2,
            Channel::Ch3 => InterruptFlag::CaptureCompare3,
            Channel::Ch4 => InterruptFlag::CaptureCompare4,
        }
    }

    /// The interrupt source of the channel: what `InterruptFlag::from` gives
    /// for it.
    #[verifier::when_used_as_spec(interrupt_flag_spec)]
    pub fn interrupt_flag(self) -> (source: InterruptFlag)
        ensures
            source == self.interrupt_flag_spec(),
            source.channel() == Some(self),
    {
        match self {
            Channel::Ch1 => InterruptFlag::CaptureCompare1,
            Channel::Ch2 => InterruptFlag::CaptureCompare2,
            Channel::Ch3 => InterruptFlag::CaptureCompare3,
            Channel::Ch4 => InterruptFlag::CaptureCompare4,
        }
    }
}

/// Channel 1 marker type.
#[derive(Clone, Copy, Debug, PartialEq, Eq, Structural)]
pub struct Ch1;

/// Channel 2 marker type.
#[derive(Clone, Copy, Debug, PartialEq, Eq, Structural)]
pub struct Ch2;

/// Channel 3 marker type.
#[derive(Clone, Copy, Debug, PartialEq, Eq, Structural)]
pub struct Ch3;

/// Channel 4 marker type.
#[derive(Clone, Copy, Debug, PartialEq, Eq, Structural)]
pub struct Ch4;

/// A marker type that names one channel at compile time, for types that are
/// tied to a channel, such as the token of a pin that was set up as the
/// input of that channel.
pub trait ChannelMarker {
    /// The channel that the marker names.
    spec fn channel_spec() -> Channel;

    /// The channel that the marker names.
    fn channel() -> (channel: Channel)
        ensures
            channel == Self::channel_spec(),
    ;
}

impl ChannelMarker for Ch1 {
    open spec fn channel_spec() -> Channel {
        Channel::Ch1
    }

    fn channel() -> (channel: Channel) {
        Channel::Ch1
    }
}

impl ChannelMarker for Ch2 {
    open spec fn channel_spec() -> Channel {
        Channel::Ch2
    }

    fn channel() -> (channel: Channel) {
        Channel::Ch2
    }
}

impl ChannelMarker for Ch3 {
    open spec fn channel_spec() -> Channel {
        Channel::Ch3
    }

    fn channel() -> (channel: Channel) {
        Channel::Ch3
    }
}

impl ChannelMarker for Ch4 {
    open spec fn channel_spec() -> Channel {
        Channel::Ch4
    }

    fn channel() -> (channel: Channel) {
        Channel::Ch4
    }
}

/// All the timer interrupt sources. Each owns one bit of the interrupt
/// enable register and one slot of the waker table.
#[derive(Clone, Copy, Debug, PartialEq, Eq, Structural)]
pub enum InterruptFlag {
    /// Update interrupt
    Update,
    /// Capture/Compare 1 interrupt
    CaptureCompare1,
    /// Capture/Compare 2 interrupt
    CaptureCompare2,
    /// Capture/Compare 3 interrupt
    CaptureCompare3,
    /// Capture/Compare 4 interrupt
    CaptureCompare4,
    /// COM interrupt
    ComEvent,
    /// Trigger interrupt
    Trigger,
    /// Break interrupt
    Break,
}

impl InterruptFlag {
    /// The position of the source's bit in the enable and flag registers.
    pub open spec fn bit_spec(self) -> u32 {
        match self {
            InterruptFlag::Update => 0,
            InterruptFlag::CaptureCompare1 => 1,
            InterruptFlag::CaptureCompare2 => 2,
            InterruptFlag::CaptureCompare3 => 3,
            InterruptFlag::CaptureCompare4 => 4,
            InterruptFlag::ComEvent => 5,
            InterruptFlag::Trigger => 6,
            InterruptFlag::Break => 7,
        }
    }

    /// The position of the source's bit in the enable and flag registers.
    #[verifier::when_used_as_spec(bit_spec)]
    pub fn bit(self) -> (pos: u32)
        ensures
            pos == self.bit_spec(),
            pos < 8,
    {
        match self {
            InterruptFlag::Update => 0,
            InterruptFlag::CaptureCompare1 => 1,
            InterruptFlag::CaptureCompare2 => 2,
            InterruptFlag::CaptureCompare3 => 3,
            InterruptFlag::CaptureCompare4 => 4,
            InterruptFlag::ComEvent => 5,
            InterruptFlag::Trigger => 6,
            InterruptFlag::Break => 7,
        }
    }

    /// The register word in which only the source's bit is set.
    pub open spec fn mask(self) -> u32 {
        1u32 << self.bit()
    }

    /// The source whose bit is at `pos`, if `pos` is one of the eight
    /// positions that belong to a source.
    pub open spec fn from_bit_spec(pos: u32) -> Option<InterruptFlag> {
        match pos {
            0 => Some(InterruptFlag::Update),
            1 => Some(InterruptFlag::CaptureCompare1),
            2 => Some(InterruptFlag::CaptureCompare2),
            3 => Some(InterruptFlag::CaptureCompare3),
            4 => Some(InterruptFlag::CaptureCompare4),
            5 => Some(InterruptFlag::ComEvent),
            6 => Some(InterruptFlag::Trigger),
            7 => Some(InterruptFlag::Break),
            _ => None,
        }
    }

    /// The source whose bit is at `pos`, if `pos` is one of the eight
    /// positions that belong to a source.
    #[verifier::when_used_as_spec(from_bit_spec)]
    pub fn from_bit(pos: u32) -> (source: Option<InterruptFlag>)
        ensures
            source == InterruptFlag::from_bit_spec(pos),
            source is Some <==> pos < 8,
            source matches Some(found) ==> found.bit() == pos,
    {
        match pos {
            0 => Some(InterruptFlag::Update),
            1 => Some(InterruptFlag::CaptureCompare1),
            2 => Some(InterruptFlag::CaptureCompare2),
            3 => Some(InterruptFlag::CaptureCompare3),
            4 => Some(InterruptFlag::CaptureCompare4),
            5 => Some(InterruptFlag::ComEvent),
            6 => Some(InterruptFlag::Trigger),
            7 => Some(InterruptFlag::Break),
            _ => None,
        }
    }

    /// The channel whose events the source reports, if it is one of the four
    /// capture/compare sources.
    pub open spec fn channel_spec(self) -> Option<Channel> {
        match self {
            InterruptFlag::CaptureCompare1 => Some(Channel::Ch1),
            InterruptFlag::CaptureCompare2 => Some(Channel::Ch2),
            InterruptFlag::CaptureCompare3 => Some(Channel::Ch3),
            InterruptFlag::CaptureCompare4 => Some(Channel::Ch4),
            _ => None,
        }
    }

    /// The channel whose events the source reports, if it is one of the four
    /// capture/compare sources.
    #[verifier::when_used_as_spec(channel_spec)]
    pub fn channel(self) -> (channel: Option<Channel>)
        ensures
            channel == self.channel_spec(),
    {
        match self {
            InterruptFlag::CaptureCompare1 => Some(Channel::Ch1),
            InterruptFlag::CaptureCompare2 => Some(Channel::Ch2),
            InterruptFlag::CaptureCompare3 => Some(Channel::Ch3),
            InterruptFlag::CaptureCompare4 => Some(Channel::Ch4),
            _ => None,
        }
    }
}

impl From<InterruptFlag> for u32 {
    /// The register word in which only the source's bit is set.
    fn from(value: InterruptFlag) -> (mask: u32) {
        match value {
            InterruptFlag::Update => 1 << 0,
            InterruptFlag::CaptureCompare1 => 1 << 1,
            InterruptFlag::CaptureCompare2 => 1 << 2,
            InterruptFlag::CaptureCompare3 => 1 << 3,
            InterruptFlag::CaptureCompare4 => 1 << 4,
            InterruptFlag::ComEvent => 1 << 5,
            InterruptFlag::Trigger => 1 << 6,
            InterruptFlag::Break => 1 << 7,
        }
    }
}

impl vstd::std_specs::convert::FromSpecImpl<InterruptFlag> for u32 {
    open spec fn obeys_from_spec() -> bool {
        true
    }

    open spec fn from_spec(value: InterruptFlag) -> u32 {
        value.mask()
    }
}

impl From<Channel> for InterruptFlag {
    /// The interrupt source of the channel.
    fn from(value: Channel) -> (flag: InterruptFlag) {
        match value {
            Channel::Ch1 => InterruptFlag::CaptureCompare1,
            Channel::Ch2 => InterruptFlag::CaptureCompare2,
            Channel::Ch3 => InterruptFlag::CaptureCompare3,
            Channel::Ch4 => InterruptFlag::CaptureCompare4,
        }
    }
}

impl vstd::std_specs::convert::FromSpecImpl<Channel> for InterruptFlag {
    open spec fn obeys_from_spec() -> bool {
        true
    }

    open spec fn from_spec(value: Channel) -> InterruptFlag {
        value.interrupt_flag()
    }
}

} // verus!
