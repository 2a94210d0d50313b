//! The one-byte configuration register and the settings that live in it.

use vstd::prelude::*;

verus! {

/// Shutdown bit: set while the device is disabled.
pub const SHUTDOWN: u8 = 0b0000_0001;

/// OS operation mode bit: set for interrupt mode.
pub const OS_MODE: u8 = 0b0000_0010;

/// OS polarity bit: set for an active-high output.
pub const OS_POLARITY: u8 = 0b0000_0100;

/// Low bit of the fault queue field.
pub const FAULT_QUEUE0: u8 = 0b0000_1000;

/// High bit of the fault queue field.
pub const FAULT_QUEUE1: u8 = 0b0001_0000;

/// Configuration register value.
#[derive(Debug, Clone, Copy, PartialEq, Eq, Structural)]
pub struct Config {
    pub(crate) bits: u8,
}

impl View for Config {
    type V = u8;

    /// The register byte.
    closed spec fn view(&self) -> u8 {
        self.bits
    }
}

/// Two configuration values are equal exactly when their bytes are.
pub proof fn lemma_config_view_eq(a: Config, b: Config)
    ensures
        a@ == b@ <==> a == b,
{
}

impl Config {
    /// The register byte.
    pub fn bits(&self) -> (r: u8)
        ensures
            r == self@,
    {
        self.bits
    }

    /// This value with every bit of `mask` set and the others unchanged.
    pub fn with_high(self, mask: u8) -> (r: Self)
        ensures
            r@ == self@ | mask,
    {
        Config { bits: self.bits | mask }
    }

    /// This value with every bit of `mask` cleared and the others unchanged.
    pub fn with_low(self, mask: u8) -> (r: Self)
        ensures
            r@ == self@ & !mask,
    {
        Config { bits: self.bits & !mask }
    }
}

impl Default for Config {
    /// The power-up value: every bit clear.
    fn default() -> (r: Self)
        ensures
            r@ == 0,
    {
        Config { bits: 0 }
    }
}

/// Bit `i` of `b`.
pub open spec fn bit(b: u8, i: u8) -> bool {
    (b >> i) & 1u8 == 1u8
}

/// Setting the bits of `mask` and then clearing them leaves every bit outside
/// `mask` as it was in `bits` and every bit inside `mask` clear, whatever the
/// starting byte.
pub proof fn lemma_config_bit_isolation(bits: u8, mask: u8)
    ensures
        (bits | mask) & !mask == bits & !mask,
        forall|i: u8|
            #![trigger bit((bits | mask) & !mask, i)]
            i < 8 ==> bit((bits | mask) & !mask, i) == (if bit(mask, i) {
                false
            } else {
                bit(bits, i)
            }),
{
    assert((bits | mask) & !mask == bits & !mask) by (bit_vector);
    assert forall|i: u8| i < 8 implies #[trigger] bit((bits | mask) & !mask, i) == (if bit(mask, i) {
        false
    } else {
        bit(bits, i)
    }) by {
        let r = (bits | mask) & !mask;
        assert(i < 8 ==> (((r >> i) & 1u8 == 1u8) == (if (mask >> i) & 1u8 == 1u8 {
            false
        } else {
            (bits >> i) & 1u8 == 1u8
        }))) by (bit_vector)
            requires
                r == (bits | mask) & !mask,
        ;
    }
}

/// Fault queue: number of consecutive faults necessary to trigger the OS
/// condition.
#[derive(Debug, Clone, Copy, PartialEq, Eq, Structural)]
pub enum FaultQueue {
    /// One fault triggers the OS condition (default).
    _1,
    /// Two consecutive faults trigger the OS condition.
    _2,
    /// Four consecutive faults trigger the OS condition.
    _4,
    /// Six consecutive faults trigger the OS condition.
    _6,
}

/// Number of consecutive faults that a setting stands for.
pub open spec fn fault_count(q: FaultQueue) -> nat {
    match q {
        FaultQueue::_1 => 1,
        FaultQueue::_2 => 2,
        FaultQueue::_4 => 4,
        FaultQueue::_6 => 6,
    }
}

/// The fault queue field (bits three and four) for each setting.
pub open spec fn fault_queue_field(q: FaultQueue) -> u8 {
    match q {
        FaultQueue::_1 => 0,
        FaultQueue::_2 => FAULT_QUEUE0,
        FaultQueue::_4 => FAULT_QUEUE1,
        FaultQueue::_6 => FAULT_QUEUE1 | FAULT_QUEUE0,
    }
}

/// The setting that the fault queue field of `b` holds.
pub open spec fn fault_queue_of(b: u8) -> FaultQueue {
    let f = b & (FAULT_QUEUE1 | FAULT_QUEUE0);
    if f == 0 {
        FaultQueue::_1
    } else if f == FAULT_QUEUE0 {
        FaultQueue::_2
    } else if f == FAULT_QUEUE1 {
        FaultQueue::_4
    } else {
        FaultQueue::_6
    }
}

impl FaultQueue {
    /// The fault queue field of the configuration register for this setting.
    pub fn field(&self) -> (r: u8)
        ensures
            r == fault_queue_field(*self),
    {
        match self {
            FaultQueue::_1 => 0,
            FaultQueue::_2 => FAULT_QUEUE0,
            FaultQueue::_4 => FAULT_QUEUE1,
            FaultQueue::_6 => FAULT_QUEUE1 | FAULT_QUEUE0,
        }
    }

    /// The setting held by the fault queue field of the register byte `b`;
    /// the other bits are ignored.
    pub fn from_register(b: u8) -> (r: FaultQueue)
        ensures
            r == fault_queue_of(b),
    {
        let f: u8 = b & (FAULT_QUEUE1 | FAULT_QUEUE0);
        if f == 0 {
            FaultQueue::_1
        } else if f == FAULT_QUEUE0 {
            FaultQueue::_2
        } else if f == FAULT_QUEUE1 {
            FaultQueue::_4
        } else {
            FaultQueue::_6
        }
    }

    /// The number of consecutive faults this setting stands for.
    pub fn count(&self) -> (r: u8)
        ensures
            r as nat == fault_count(*self),
    {
        match self {
            FaultQueue::_1 => 1,
            FaultQueue::_2 => 2,
            FaultQueue::_4 => 4,
            FaultQueue::_6 => 6,
        }
    }
}

/// The fault queue table is a bijection between the four settings and the four
/// two-bit patterns: each setting has its own pattern, within the field, and
/// reads back as itself from any register byte that holds it.
pub proof fn lemma_fault_queue_bijection(q: FaultQueue, p: FaultQueue, b: u8)
    ensures
        fault_queue_field(q) & !(FAULT_QUEUE1 | FAULT_QUEUE0) == 0,
        fault_queue_field(q) == fault_queue_field(p) <==> q == p,
        fault_count(q) == fault_count(p) <==> q == p,
        fault_queue_of((b & !(FAULT_QUEUE1 | FAULT_QUEUE0)) | fault_queue_field(q)) == q,
        fault_queue_field(fault_queue_of(b)) == b & (FAULT_QUEUE1 | FAULT_QUEUE0),
{
    assert(16u8 | 8u8 == 24u8) by (bit_vector);
    assert(FAULT_QUEUE1 | FAULT_QUEUE0 == 24u8);
    let f = fault_queue_field(q);
    assert(f == 0 || f == 8 || f == 16 || f == 24);
    assert(f == 0 || f == 8 || f == 16 || f == 24 ==> (f & !24u8 == 0 && ((b & !24u8) | f) & 24u8
        == f)) by (bit_vector);
    assert(b & 24u8 == 0 || b & 24u8 == 8 || b & 24u8 == 16 || b & 24u8 == 24) by (bit_vector);
}

/// OS output polarity.
#[derive(Debug, Clone, Copy, PartialEq, Eq, Structural)]
pub enum OsPolarity {
    /// Active low (default).
    ActiveLow,
    /// Active high.
    ActiveHigh,
}

/// OS operation mode.
#[derive(Debug, Clone, Copy, PartialEq, Eq, Structural)]
pub enum OsMode {
    /// Comparator (default).
    Comparator,
    /// Interrupt.
    Interrupt,
}

/// Contents of the sample-rate (idle time) register, on devices that have one.
#[derive(Debug, Clone, Copy, PartialEq, Eq, Structural)]
pub struct SampleRate {
    pub(crate) bits: Option<u8>,
}

impl View for SampleRate {
    type V = Option<u8>;

    /// `None` where the device has no such register.
    closed spec fn view(&self) -> Option<u8> {
        self.bits
    }
}

impl Default for SampleRate {
    /// The power-up value of a device with the register.
    fn default() -> (r: Self)
        ensures
            r@ == Some(1u8),
    {
        SampleRate { bits: Some(1) }
    }
}

impl SampleRate {
    /// The state of a device without the register.
    pub fn none() -> (r: Self)
        ensures
            r@ == None::<u8>,
    {
        SampleRate { bits: None }
    }

    /// The state of a device whose register holds `value`.
    pub fn with_value(value: u8) -> (r: Self)
        ensures
            r@ == Some(value),
    {
        SampleRate { bits: Some(value) }
    }

    /// The register contents, `None` where the device has no such register.
    pub fn bits(&self) -> (r: Option<u8>)
        ensures
            r == self@,
    {
        self.bits
    }
}

} // verus!
