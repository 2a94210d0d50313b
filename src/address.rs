//! The device's seven-bit bus address.

use vstd::prelude::*;

verus! {

/// The address of the device with all three address pins tied low.
pub const DEVICE_BASE_ADDRESS: u8 = 0b100_1000;

/// Possible address pin states.
#[derive(Debug, Clone, Copy, PartialEq, Eq, Structural)]
pub enum PinState {
    /// Logical low pin state.
    Low,
    /// Logical high pin state.
    High,
    /// Logical floating pin state.
    Floating,
}

/// I2C device address.
#[derive(Debug, Clone, Copy, PartialEq, Eq, Structural)]
pub struct Address(pub(crate) u8);

/// One pin as the bit value it contributes.
pub open spec fn pin_bit(p: bool) -> u8 {
    if p { 1 } else { 0 }
}

/// The address selected by the three pins: the base address with `a2`, `a1`
/// and `a0` in bits two, one and zero.
pub open spec fn pins_address(a2: bool, a1: bool, a0: bool) -> u8 {
    DEVICE_BASE_ADDRESS | (pin_bit(a2) << 2u8) | (pin_bit(a1) << 1u8) | pin_bit(a0)
}

impl View for Address {
    type V = u8;

    /// The raw seven-bit value as it goes on the bus.
    closed spec fn view(&self) -> u8 {
        self.0
    }
}

/// Two addresses are equal exactly when their values are.
pub proof fn lemma_address_view_eq(a: Address, b: Address)
    ensures
        a@ == b@ <==> a == b,
{
}

impl Address {
    /// The raw seven-bit value as it goes on the bus.
    pub fn value(&self) -> (r: u8)
        ensures
            r == self@,
    {
        self.0
    }
}

impl Default for Address {
    /// The power-up address: all pins low.
    fn default() -> (r: Self)
        ensures
            r@ == DEVICE_BASE_ADDRESS,
    {
        Address(DEVICE_BASE_ADDRESS)
    }
}

impl From<u8> for Address {
    /// Any byte, taken as it is, for base-address variants of the chip.
    fn from(a: u8) -> (r: Self)
        ensures
            r@ == a,
    {
        Address(a)
    }
}

impl vstd::std_specs::convert::FromSpecImpl<u8> for Address {
    open spec fn obeys_from_spec() -> bool {
        true
    }

    closed spec fn from_spec(a: u8) -> Self {
        Address(a)
    }
}

fn pin_value(p: bool) -> (r: u8)
    ensures
        r == pin_bit(p),
{
    if p { 1 } else { 0 }
}

impl From<(bool, bool, bool)> for Address {
    /// The address selected by the pins `(a2, a1, a0)`.
    fn from(a: (bool, bool, bool)) -> (r: Self)
        ensures
            r@ == pins_address(a.0, a.1, a.2),
    {
        Address(DEVICE_BASE_ADDRESS | (pin_value(a.0) << 2u8) | (pin_value(a.1) << 1u8) | pin_value(a.2))
    }
}

impl vstd::std_specs::convert::FromSpecImpl<(bool, bool, bool)> for Address {
    open spec fn obeys_from_spec() -> bool {
        true
    }

    closed spec fn from_spec(a: (bool, bool, bool)) -> Self {
        Address(pins_address(a.0, a.1, a.2))
    }
}

/// Pin-selected addresses: all pins low gives the power-up address, and every
/// pin combination gives the base address plus `4 * a2 + 2 * a1 + a0`, a
/// seven-bit value.
pub proof fn lemma_pins_address(a2: bool, a1: bool, a0: bool)
    ensures
        pins_address(false, false, false) == DEVICE_BASE_ADDRESS,
        pins_address(a2, a1, a0) as int == DEVICE_BASE_ADDRESS as int + 4 * pin_bit(a2)
            + 2 * pin_bit(a1) + pin_bit(a0),
        pins_address(a2, a1, a0) < 128,
        pins_address(true, true, true) == 0b100_1111u8,
{
    let (b2, b1, b0) = (pin_bit(a2), pin_bit(a1), pin_bit(a0));
    assert(0x48u8 | 0u8 << 2u8 | 0u8 << 1u8 | 0u8 == 0x48u8) by (bit_vector);
    assert(0x48u8 | 1u8 << 2u8 | 1u8 << 1u8 | 1u8 == 0x4fu8) by (bit_vector);
    assert(b2 <= 1 && b1 <= 1 && b0 <= 1 ==> (0x48u8 | b2 << 2u8 | b1 << 1u8 | b0) as int == 0x48
        + 4 * b2 + 2 * b1 + b0 && (0x48u8 | b2 << 2u8 | b1 << 1u8 | b0) < 128) by (bit_vector);
}

} // verus!
