//! The System Control Interrupt event bit-set.
//!
//! The interpreter reports pending ACPI events as a 16-bit word in which
//! each known event has one bit.  Several events may be pending at once,
//! and future interpreter revisions may define further bits, so decoding
//! keeps every bit of the native word — unrecognized ones included — and
//! encoding reproduces the word bit for bit.

use vstd::prelude::*;

verus! {

/// Power-management timer overflow.
pub const SCI_TIMER: u16 = 0x0001;

/// Bus-master activity request.
pub const SCI_BUSMASTER: u16 = 0x0010;

/// Global-lock release.
pub const SCI_GLOBAL: u16 = 0x0020;

/// Power button pressed.
pub const SCI_POWER_BUTTON: u16 = 0x0100;

/// Sleep button pressed.
pub const SCI_SLEEP_BUTTON: u16 = 0x0200;

/// Real-time-clock alarm fired.
pub const SCI_RTC_ALARM: u16 = 0x0400;

/// Wake event from a PCI Express device.
pub const SCI_PCIE_WAKE: u16 = 0x4000;

/// Generic wake event.
pub const SCI_WAKE: u16 = 0x8000;

/// A set of pending System Control Interrupt events, carried as the native
/// 16-bit word.
#[derive(Clone, Copy, Debug, PartialEq, Eq, Structural)]
pub struct SciEvent {
    bits: u16,
}

impl SciEvent {
    /// The native word this set stands for.
    pub closed spec fn bits_spec(&self) -> u16 {
        self.bits
    }

    /// The set a native word decodes to: the word itself, every bit kept.
    pub closed spec fn from_bits_spec(bits: u16) -> SciEvent {
        SciEvent { bits }
    }

    /// Decodes a native event word, retaining every bit — also those no
    /// constant here names.
    pub fn from_bits_retain(bits: u16) -> (r: SciEvent)
        ensures
            r == SciEvent::from_bits_spec(bits),
            r.bits_spec() == bits,
    {
        SciEvent { bits }
    }

    /// Encodes the set back into the native word.
    pub fn bits(&self) -> (r: u16)
        ensures
            r == self.bits_spec(),
    {
        self.bits
    }

    /// Whether every event of `other` is pending in this set.
    pub fn contains(&self, other: SciEvent) -> (r: bool)
        ensures
            r == (self.bits_spec() & other.bits_spec() == other.bits_spec()),
    {
        self.bits & other.bits == other.bits
    }

    /// Whether any event of `other` is pending in this set.
    pub fn intersects(&self, other: SciEvent) -> (r: bool)
        ensures
            r == (self.bits_spec() & other.bits_spec() != 0),
    {
        self.bits & other.bits != 0
    }
}

/// Decoding a native event word and encoding it again reproduces the word
/// bit for bit, whether or not every bit is a recognized event.
pub proof fn lemma_sci_event_round_trip(bits: u16)
    ensures
        SciEvent::from_bits_spec(bits).bits_spec() == bits,
{
}

} // verus!

