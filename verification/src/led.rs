//! The LED control modes that a 4-bit code selects.

use vstd::prelude::*;

verus! {

/// What drives one LED. Thirteen of the sixteen 4-bit codes name a mode; the
/// other three are reserved.
#[derive(Clone, Copy, Debug, PartialEq, Eq)]
pub enum LedControlCode {
    LinkActivity,
    Link1000Activity,
    Link100Activity,
    Link10Activity,
    Link100Or1000Activity,
    Link10Or1000Activity,
    Link10Or100Activity,
    DuplexCollision,
    Collision,
    Activity,
    AutoNegotiationFault,
    ForceOff,
    ForceOn,
    /// A code without a mode. Holds the low four bits of the value it was
    /// decoded from.
    Reserved(u8),
}

/// The mode that `value` selects. A value that is none of the thirteen
/// assigned codes, whether one of 0b0111, 0b1011 and 0b1101 or a value above
/// 15, is reserved.
pub open spec fn led_control_of(value: u8) -> LedControlCode {
    match value {
        0b0000 => LedControlCode::LinkActivity,
        0b0001 => LedControlCode::Link1000Activity,
        0b0010 => LedControlCode::Link100Activity,
        0b0011 => LedControlCode::Link10Activity,
        0b0100 => LedControlCode::Link100Or1000Activity,
        0b0101 => LedControlCode::Link10Or1000Activity,
        0b0110 => LedControlCode::Link10Or100Activity,
        0b1000 => LedControlCode::DuplexCollision,
        0b1001 => LedControlCode::Collision,
        0b1010 => LedControlCode::Activity,
        0b1100 => LedControlCode::AutoNegotiationFault,
        0b1110 => LedControlCode::ForceOff,
        0b1111 => LedControlCode::ForceOn,
        _ => LedControlCode::Reserved(value & 0x0f),
    }
}

/// Decodes an LED control code.
pub fn led_control(value: u8) -> (code: LedControlCode)
    ensures
        code == led_control_of(value),
        code.well_formed(),
{
    proof {
        lemma_low_nibble(value);
    }
    match value {
        0b0000 => LedControlCode::LinkActivity,
        0b0001 => LedControlCode::Link1000Activity,
        0b0010 => LedControlCode::Link100Activity,
        0b0011 => LedControlCode::Link10Activity,
        0b0100 => LedControlCode::Link100Or1000Activity,
        0b0101 => LedControlCode::Link10Or1000Activity,
        0b0110 => LedControlCode::Link10Or100Activity,
        0b1000 => LedControlCode::DuplexCollision,
        0b1001 => LedControlCode::Collision,
        0b1010 => LedControlCode::Activity,
        0b1100 => LedControlCode::AutoNegotiationFault,
        0b1110 => LedControlCode::ForceOff,
        0b1111 => LedControlCode::ForceOn,
        _ => LedControlCode::Reserved(value & 0x0f),
    }
}

impl LedControlCode {
    /// A reserved code holds four bits.
    pub open spec fn well_formed(self) -> bool {
        self matches LedControlCode::Reserved(bits) ==> bits < 16
    }

    /// The 4-bit code of the mode.
    pub open spec fn bits_of(self) -> u8 {
        match self {
            LedControlCode::LinkActivity => 0b0000,
            LedControlCode::Link1000Activity => 0b0001,
            LedControlCode::Link100Activity => 0b0010,
            LedControlCode::Link10Activity => 0b0011,
            LedControlCode::Link100Or1000Activity => 0b0100,
            LedControlCode::Link10Or1000Activity => 0b0101,
            LedControlCode::Link10Or100Activity => 0b0110,
            LedControlCode::DuplexCollision => 0b1000,
            LedControlCode::Collision => 0b1001,
            LedControlCode::Activity => 0b1010,
            LedControlCode::AutoNegotiationFault => 0b1100,
            LedControlCode::ForceOff => 0b1110,
            LedControlCode::ForceOn => 0b1111,
            LedControlCode::Reserved(bits) => bits,
        }
    }

    /// The name of the mode as the report shows it.
    pub open spec fn name_of(self) -> &'static str {
        match self {
            LedControlCode::LinkActivity => "Link/Activity (default for LED2)",
            LedControlCode::Link1000Activity => "Link1000/Activity (default for LED0)",
            LedControlCode::Link100Activity => "Link100/Activity (default for LED1)",
            LedControlCode::Link10Activity => "Link10/Activity",
            LedControlCode::Link100Or1000Activity => "Link100/1000/Activity",
            LedControlCode::Link10Or1000Activity => "Link10/1000/Activity",
            LedControlCode::Link10Or100Activity => "Link10/100/Activity",
            LedControlCode::DuplexCollision => "Duplex/Collision (default for LED3)",
            LedControlCode::Collision => "Collision",
            LedControlCode::Activity => "Activity",
            LedControlCode::AutoNegotiationFault => "Auto-negotiation Fault",
            LedControlCode::ForceOff => "Force LED Off (suppresses LED blink after reset/coma)",
            LedControlCode::ForceOn => "Force LED On (suppresses LED blink after reset/coma)",
            LedControlCode::Reserved(_) => "RESERVED",
        }
    }

    /// The 4-bit code of the mode.
    pub fn bits(&self) -> (bits: u8)
        ensures
            bits == self.bits_of(),
    {
        match self {
            LedControlCode::LinkActivity => 0b0000,
            LedControlCode::Link1000Activity => 0b0001,
            LedControlCode::Link100Activity => 0b0010,
            LedControlCode::Link10Activity => 0b0011,
            LedControlCode::Link100Or1000Activity => 0b0100,
            LedControlCode::Link10Or1000Activity => 0b0101,
            LedControlCode::Link10Or100Activity => 0b0110,
            LedControlCode::DuplexCollision => 0b1000,
            LedControlCode::Collision => 0b1001,
            LedControlCode::Activity => 0b1010,
            LedControlCode::AutoNegotiationFault => 0b1100,
            LedControlCode::ForceOff => 0b1110,
            LedControlCode::ForceOn => 0b1111,
            LedControlCode::Reserved(bits) => *bits,
        }
    }

    /// The name of the mode as the report shows it.
    pub fn name(&self) -> (name: &'static str)
        ensures
            name == self.name_of(),
    {
        match self {
            LedControlCode::LinkActivity => "Link/Activity (default for LED2)",
            LedControlCode::Link1000Activity => "Link1000/Activity (default for LED0)",
            LedControlCode::Link100Activity => "Link100/Activity (default for LED1)",
            LedControlCode::Link10Activity => "Link10/Activity",
            LedControlCode::Link100Or1000Activity => "Link100/1000/Activity",
            LedControlCode::Link10Or1000Activity => "Link10/1000/Activity",
            LedControlCode::Link10Or100Activity => "Link10/100/Activity",
            LedControlCode::DuplexCollision => "Duplex/Collision (default for LED3)",
            LedControlCode::Collision => "Collision",
            LedControlCode::Activity => "Activity",
            LedControlCode::AutoNegotiationFault => "Auto-negotiation Fault",
            LedControlCode::ForceOff => "Force LED Off (suppresses LED blink after reset/coma)",
            LedControlCode::ForceOn => "Force LED On (suppresses LED blink after reset/coma)",
            LedControlCode::Reserved(_) => "RESERVED",
        }
    }
}

/// The low four bits of a byte are a number below 16, and a byte below 16 is
/// its own low four bits.
pub proof fn lemma_low_nibble(value: u8)
    ensures
        value & 0x0f < 16,
        value < 16 ==> value & 0x0f == value,
{
    assert(value & 0x0f < 16) by (bit_vector);
    assert(value < 16 ==> value & 0x0f == value) by (bit_vector);
}

/// Decoding is total and keeps the code: the mode decoded from `value` has
/// the low four bits of `value` as its code.
pub proof fn lemma_led_control_keeps_bits(value: u8)
    ensures
        led_control_of(value).well_formed(),
        led_control_of(value).bits_of() == value & 0x0f,
{
    lemma_low_nibble(value);
}

/// Exactly the three unassigned codes and the values above 15 are reserved.
pub proof fn lemma_reserved_values(value: u8)
    ensures
        led_control_of(value) is Reserved <==> (value == 0b0111 || value == 0b1011 || value
            == 0b1101 || value > 15),
{
}

/// A mode that was decoded from a 4-bit code decodes again from its own code.
pub proof fn lemma_led_control_round_trip(value: u8)
    requires
        value < 16,
    ensures
        led_control_of(led_control_of(value).bits_of()) == led_control_of(value),
{
    lemma_low_nibble(value);
}

} // verus!
