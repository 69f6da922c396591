//! The typed values that the driver writes into register fields, each with
//! the bits that stand for it.

use vstd::prelude::*;

verus! {

/// How the counter runs.
#[derive(Clone, Copy, Debug, PartialEq, Eq, Structural)]
pub enum CountingMode {
    /// The counter counts up to the reload value and starts again at 0.
    EdgeAlignedUp,
    /// The counter counts down from the reload value and starts again there.
    EdgeAlignedDown,
    /// The counter counts up and down in turn; channel flags are raised
    /// while it counts down.
    CenterAlignedDownInterrupts,
    /// The counter counts up and down in turn; channel flags are raised
    /// while it counts up.
    CenterAlignedUpInterrupts,
    /// The counter counts up and down in turn; channel flags are raised in
    /// both directions.
    CenterAlignedBothInterrupts,
}

impl CountingMode {
    /// The two bits of the center-aligned mode field.
    pub open spec fn cms_spec(self) -> u32 {
        match self {
            CountingMode::EdgeAlignedUp => 0,
            CountingMode::EdgeAlignedDown => 0,
            CountingMode::CenterAlignedDownInterrupts => 1,
            CountingMode::CenterAlignedUpInterrupts => 2,
            CountingMode::CenterAlignedBothInterrupts => 3,
        }
    }

    /// The two bits of the center-aligned mode field.
    #[verifier::when_used_as_spec(cms_spec)]
    pub fn cms(self) -> (bits: u32)
        ensures
            bits == self.cms_spec(),
            bits < 4,
    {
        match self {
            CountingMode::EdgeAlignedUp => 0,
            CountingMode::EdgeAlignedDown => 0,
            CountingMode::CenterAlignedDownInterrupts => 1,
            CountingMode::CenterAlignedUpInterrupts => 2,
            CountingMode::CenterAlignedBothInterrupts => 3,
        }
    }

    /// The direction bit: set when the counter counts down.
    pub open spec fn dir_spec(self) -> bool {
        self == CountingMode::EdgeAlignedDown
    }

    /// The direction bit: set when the counter counts down.
    #[verifier::when_used_as_spec(dir_spec)]
    pub fn dir(self) -> (down: bool)
        ensures
            down == self.dir_spec(),
    {
        match self {
            CountingMode::EdgeAlignedDown => true,
            _ => false,
        }
    }
}

/// The edge of the input on which a channel latches the counter.
#[derive(Clone, Copy, Debug, PartialEq, Eq, Structural)]
pub enum InputCaptureMode {
    /// Latch on a rising edge.
    Rising,
    /// Latch on a falling edge.
    Falling,
    /// Latch on both edges.
    BothEdges,
}

/// The polarity of a capture input as its two bits in the enable register
/// give it.
#[derive(Clone, Copy, Debug, PartialEq, Eq, Structural)]
pub enum CaptureInputPolarity {
    /// Both bits clear.
    RisingEdge,
    /// Only the polarity bit set.
    FallingEdge,
    /// Only the complementary polarity bit set.
    Reserved,
    /// Both bits set.
    BothEdge,
}

impl CaptureInputPolarity {
    /// The polarity bit.
    pub open spec fn ccp_spec(self) -> bool {
        self == CaptureInputPolarity::FallingEdge || self == CaptureInputPolarity::BothEdge
    }

    /// The polarity bit.
    #[verifier::when_used_as_spec(ccp_spec)]
    pub fn ccp(self) -> (set: bool)
        ensures
            set == self.ccp_spec(),
    {
        match self {
            CaptureInputPolarity::FallingEdge => true,
            CaptureInputPolarity::BothEdge => true,
            _ => false,
        }
    }

    /// The complementary polarity bit.
    pub open spec fn ccnp_spec(self) -> bool {
        self == CaptureInputPolarity::Reserved || self == CaptureInputPolarity::BothEdge
    }

    /// The complementary polarity bit.
    #[verifier::when_used_as_spec(ccnp_spec)]
    pub fn ccnp(self) -> (set: bool)
        ensures
            set == self.ccnp_spec(),
    {
        match self {
            CaptureInputPolarity::Reserved => true,
            CaptureInputPolarity::BothEdge => true,
            _ => false,
        }
    }

    /// The polarity that the two bits stand for.
    pub open spec fn from_bits_spec(ccnp: bool, ccp: bool) -> CaptureInputPolarity {
        match (ccnp, ccp) {
            (false, false) => CaptureInputPolarity::RisingEdge,
            (false, true) => CaptureInputPolarity::FallingEdge,
            (true, false) => CaptureInputPolarity::Reserved,
            (true, true) => CaptureInputPolarity::BothEdge,
        }
    }

    /// The polarity that the two bits stand for.
    #[verifier::when_used_as_spec(from_bits_spec)]
    pub fn from_bits(ccnp: bool, ccp: bool) -> (polarity: CaptureInputPolarity)
        ensures
            polarity == CaptureInputPolarity::from_bits_spec(ccnp, ccp),
            polarity.ccnp() == ccnp,
            polarity.ccp() == ccp,
    {
        match (ccnp, ccp) {
            (false, false) => CaptureInputPolarity::RisingEdge,
            (false, true) => CaptureInputPolarity::FallingEdge,
            (true, false) => CaptureInputPolarity::Reserved,
            (true, true) => CaptureInputPolarity::BothEdge,
        }
    }
}

impl InputCaptureMode {
    /// The polarity that selects this edge.
    pub open spec fn polarity_spec(self) -> CaptureInputPolarity {
        match self {
            InputCaptureMode::Rising => CaptureInputPolarity::RisingEdge,
            InputCaptureMode::Falling => CaptureInputPolarity::FallingEdge,
            InputCaptureMode::BothEdges => CaptureInputPolarity::BothEdge,
        }
    }

    /// The polarity that selects this edge.
    #[verifier::when_used_as_spec(polarity_spec)]
    pub fn polarity(self) -> (polarity: CaptureInputPolarity)
        ensures
            polarity == self.polarity_spec(),
    {
        match self {
            InputCaptureMode::Rising => CaptureInputPolarity::RisingEdge,
            InputCaptureMode::Falling => CaptureInputPolarity::FallingEdge,
            InputCaptureMode::BothEdges => CaptureInputPolarity::BothEdge,
        }
    }
}

/// What the selection field of a channel wires the channel as.
#[derive(Clone, Copy, Debug, PartialEq, Eq, Structural)]
pub enum Selection {
    /// A compare output.
    Output,
    /// A capture input on the channel's own input line.
    Normal,
    /// A capture input on the input line of the other channel of the pair.
    Alternate,
    /// A capture input on the internal trigger.
    Trigger,
}

impl Selection {
    /// The two bits of the selection field.
    pub open spec fn bits_spec(self) -> u32 {
        match self {
            Selection::Output => 0,
            Selection::Normal => 1,
            Selection::Alternate => 2,
            Selection::Trigger => 3,
        }
    }

    /// The two bits of the selection field.
    #[verifier::when_used_as_spec(bits_spec)]
    pub fn bits(self) -> (bits: u32)
        ensures
            bits == self.bits_spec(),
            bits < 4,
    {
        match self {
            Selection::Output => 0,
            Selection::Normal => 1,
            Selection::Alternate => 2,
            Selection::Trigger => 3,
        }
    }

    /// The selection that the two low bits of `bits` stand for.
    pub open spec fn from_bits_spec(bits: u32) -> Selection {
        match bits & 0x3 {
            0 => Selection::Output,
            1 => Selection::Normal,
            2 => Selection::Alternate,
            _ => Selection::Trigger,
        }
    }

    /// The selection that the two low bits of `bits` stand for.
    #[verifier::when_used_as_spec(from_bits_spec)]
    pub fn from_bits(bits: u32) -> (selection: Selection)
        ensures
            selection == Selection::from_bits_spec(bits),
    {
        match bits & 0x3 {
            0 => Selection::Output,
            1 => Selection::Normal,
            2 => Selection::Alternate,
            _ => Selection::Trigger,
        }
    }

    /// Whether the channel is wired as a capture input.
    pub open spec fn is_input(self) -> bool {
        self != Selection::Output
    }
}

/// Which input line feeds a channel's capture logic.
#[derive(Clone, Copy, Debug, PartialEq, Eq, Structural)]
pub enum InputTISelection {
    /// The channel's own input line.
    Normal,
    /// The input line of the other channel of the pair.
    Alternate,
}

impl InputTISelection {
    /// The two bits of the selection field.
    pub open spec fn bits_spec(self) -> u32 {
        match self {
            InputTISelection::Normal => 1,
            InputTISelection::Alternate => 2,
        }
    }

    /// The two bits of the selection field.
    #[verifier::when_used_as_spec(bits_spec)]
    pub fn bits(self) -> (bits: u32)
        ensures
            bits == self.bits_spec(),
            1 <= bits <= 2,
    {
        match self {
            InputTISelection::Normal => 1,
            InputTISelection::Alternate => 2,
        }
    }
}

impl InputTISelection {
    /// The input line that the two bits of a selection field stand for, if
    /// they stand for one of the two.
    pub open spec fn from_bits_spec(bits: u32) -> Option<InputTISelection> {
        if bits == 1 {
            Some(InputTISelection::Normal)
        } else if bits == 2 {
            Some(InputTISelection::Alternate)
        } else {
            None
        }
    }

    /// The input line that the two bits of a selection field stand for, if
    /// they stand for one of the two.
    #[verifier::when_used_as_spec(from_bits_spec)]
    pub fn from_bits(bits: u32) -> (tisel: Option<InputTISelection>)
        ensures
            tisel == InputTISelection::from_bits_spec(bits),
    {
        if bits == 1 {
            Some(InputTISelection::Normal)
        } else if bits == 2 {
            Some(InputTISelection::Alternate)
        } else {
            None
        }
    }
}

/// The digital filter on a capture input: the clock it samples with and how
/// many equal samples in a row it takes for an edge to count.
#[allow(non_camel_case_types)]
#[derive(Clone, Copy, Debug, PartialEq, Eq, Structural)]
pub enum FilterValue {
    /// No filter: every edge counts.
    NOFILTER,
    /// Internal clock, 2 samples.
    FCK_INT_N2,
    /// Internal clock, 4 samples.
    FCK_INT_N4,
    /// Internal clock, 8 samples.
    FCK_INT_N8,
    /// Sampling clock divided by 2, 6 samples.
    FDTS_DIV2_N6,
    /// Sampling clock divided by 2, 8 samples.
    FDTS_DIV2_N8,
    /// Sampling clock divided by 4, 6 samples.
    FDTS_DIV4_N6,
    /// Sampling clock divided by 4, 8 samples.
    FDTS_DIV4_N8,
    /// Sampling clock divided by 8, 6 samples.
    FDTS_DIV8_N6,
    /// Sampling clock divided by 8, 8 samples.
    FDTS_DIV8_N8,
    /// Sampling clock divided by 16, 5 samples.
    FDTS_DIV16_N5,
    /// Sampling clock divided by 16, 6 samples.
    FDTS_DIV16_N6,
    /// Sampling clock divided by 16, 8 samples.
    FDTS_DIV16_N8,
    /// Sampling clock divided by 32, 5 samples.
    FDTS_DIV32_N5,
    /// Sampling clock divided by 32, 6 samples.
    FDTS_DIV32_N6,
    /// Sampling clock divided by 32, 8 samples.
    FDTS_DIV32_N8,
}

impl FilterValue {
    /// The four bits of the filter field.
    pub open spec fn bits_spec(self) -> u32 {
        match self {
            FilterValue::NOFILTER => 0,
            FilterValue::FCK_INT_N2 => 1,
            FilterValue::FCK_INT_N4 => 2,
            FilterValue::FCK_INT_N8 => 3,
            FilterValue::FDTS_DIV2_N6 => 4,
            FilterValue::FDTS_DIV2_N8 => 5,
            FilterValue::FDTS_DIV4_N6 => 6,
            FilterValue::FDTS_DIV4_N8 => 7,
            FilterValue::FDTS_DIV8_N6 => 8,
            FilterValue::FDTS_DIV8_N8 => 9,
            FilterValue::FDTS_DIV16_N5 => 10,
            FilterValue::FDTS_DIV16_N6 => 11,
            FilterValue::FDTS_DIV16_N8 => 12,
            FilterValue::FDTS_DIV32_N5 => 13,
            FilterValue::FDTS_DIV32_N6 => 14,
            FilterValue::FDTS_DIV32_N8 => 15,
        }
    }

    /// The four bits of the filter field.
    #[verifier::when_used_as_spec(bits_spec)]
    pub fn bits(self) -> (bits: u32)
        ensures
            bits == self.bits_spec(),
            bits < 16,
    {
        match self {
            FilterValue::NOFILTER => 0,
            FilterValue::FCK_INT_N2 => 1,
            FilterValue::FCK_INT_N4 => 2,
            FilterValue::FCK_INT_N8 => 3,
            FilterValue::FDTS_DIV2_N6 => 4,
            FilterValue::FDTS_DIV2_N8 => 5,
            FilterValue::FDTS_DIV4_N6 => 6,
            FilterValue::FDTS_DIV4_N8 => 7,
            FilterValue::FDTS_DIV8_N6 => 8,
            FilterValue::FDTS_DIV8_N8 => 9,
            FilterValue::FDTS_DIV16_N5 => 10,
            FilterValue::FDTS_DIV16_N6 => 11,
            FilterValue::FDTS_DIV16_N8 => 12,
            FilterValue::FDTS_DIV32_N5 => 13,
            FilterValue::FDTS_DIV32_N6 => 14,
            FilterValue::FDTS_DIV32_N8 => 15,
        }
    }

    /// The filter that the four low bits of `bits` stand for.
    pub open spec fn from_bits_spec(bits: u32) -> FilterValue {
        match bits & 0xf {
            0 => FilterValue::NOFILTER,
            1 => FilterValue::FCK_INT_N2,
            2 => FilterValue::FCK_INT_N4,
            3 => FilterValue::FCK_INT_N8,
            4 => FilterValue::FDTS_DIV2_N6,
            5 => FilterValue::FDTS_DIV2_N8,
            6 => FilterValue::FDTS_DIV4_N6,
            7 => FilterValue::FDTS_DIV4_N8,
            8 => FilterValue::FDTS_DIV8_N6,
            9 => FilterValue::FDTS_DIV8_N8,
            10 => FilterValue::FDTS_DIV16_N5,
            11 => FilterValue::FDTS_DIV16_N6,
            12 => FilterValue::FDTS_DIV16_N8,
            13 => FilterValue::FDTS_DIV32_N5,
            14 => FilterValue::FDTS_DIV32_N6,
            _ => FilterValue::FDTS_DIV32_N8,
        }
    }

    /// The filter that the four low bits of `bits` stand for.
    #[verifier::when_used_as_spec(from_bits_spec)]
    pub fn from_bits(bits: u32) -> (filter: FilterValue)
        ensures
            filter == FilterValue::from_bits_spec(bits),
    {
        match bits & 0xf {
            0 => FilterValue::NOFILTER,
            1 => FilterValue::FCK_INT_N2,
            2 => FilterValue::FCK_INT_N4,
            3 => FilterValue::FCK_INT_N8,
            4 => FilterValue::FDTS_DIV2_N6,
            5 => FilterValue::FDTS_DIV2_N8,
            6 => FilterValue::FDTS_DIV4_N6,
            7 => FilterValue::FDTS_DIV4_N8,
            8 => FilterValue::FDTS_DIV8_N6,
            9 => FilterValue::FDTS_DIV8_N8,
            10 => FilterValue::FDTS_DIV16_N5,
            11 => FilterValue::FDTS_DIV16_N6,
            12 => FilterValue::FDTS_DIV16_N8,
            13 => FilterValue::FDTS_DIV32_N5,
            14 => FilterValue::FDTS_DIV32_N6,
            _ => FilterValue::FDTS_DIV32_N8,
        }
    }
}

} // verus!
