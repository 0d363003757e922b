//! The CPU's view of the outside world: a flat 16-bit address space of bytes.
//!
//! Everything the CPU can reach (RAM, ROM and the `$C000`-`$CFFF` I/O window)
//! is accessed through the [`Bus`] trait.
use vstd::prelude::*;

verus! {

/// The little-endian word made of `lo` (the byte at the lower address) and
/// `hi`.
pub fn le_word(lo: u8, hi: u8) -> (w: u16)
    ensures
        w == lo + 256 * hi,
{
    let w = ((hi as u16) << 8) | (lo as u16);
    assert(w == lo + 256 * hi) by (bit_vector)
        requires
            w == ((hi as u16) << 8) | (lo as u16),
    ;
    w
}

/// One access made on a bus, with the byte that moved.
#[derive(Debug, Clone, Copy, PartialEq, Eq, Structural)]
pub enum BusEvent {
    Read { addr: u16, value: u8 },
    Write { addr: u16, value: u8 },
}

/// The address one past `addr`, wrapping at the top of the 16-bit space.
pub open spec fn next_addr(addr: u16) -> u16 {
    ((addr + 1) % 0x10000) as u16
}

/// `after` is `before` followed by a read of `lo` at `addr` and then a read of
/// `hi` at `addr + 1`, and `value` is the little-endian word of the two bytes.
pub open spec fn word_read(before: Seq<BusEvent>, after: Seq<BusEvent>, addr: u16, value: u16) -> bool {
    exists|lo: u8, hi: u8|
        {
            &&& after == before.push(BusEvent::Read { addr, value: lo }).push(
                BusEvent::Read { addr: next_addr(addr), value: hi },
            )
            &&& value == #[trigger] (lo + 256 * hi)
        }
}

/// A device the CPU can read and write by address.
///
/// `read_u8` takes `&mut self` on purpose: reads in the I/O window have side
/// effects (a 6551 status read clears its interrupt-source bits), so the bus
/// cannot promise read-only access, nor that a read gives any particular
/// byte. The CPU core therefore relies on nothing about the bytes a bus
/// answers: its contracts hold for every answer.
///
/// A device model that keeps a record of the accesses made on it says so with
/// `records_history` and gives the record as `history`; its reads and writes
/// then append to that record. A device that keeps none promises nothing
/// about it.
pub trait Bus {
    /// Whether this device keeps the record `history`.
    open spec fn records_history() -> bool {
        false
    }

    /// The accesses made on this device so far, oldest first.
    open spec fn history(&self) -> Seq<BusEvent> {
        Seq::empty()
    }

    fn read_u8(&mut self, addr: u16) -> (value: u8)
        ensures
            Self::records_history() ==> final(self).history() == old(self).history().push(
                BusEvent::Read { addr, value },
            ),
    ;

    fn write_u8(&mut self, addr: u16, val: u8)
        ensures
            Self::records_history() ==> final(self).history() == old(self).history().push(
                BusEvent::Write { addr, value: val },
            ),
    ;

    /// Little-endian 16-bit read: `addr` low, `addr + 1` high.
    ///
    /// Used for interrupt-vector fetches. The 6502's `JMP ($xxxx)` page-wrap
    /// bug is not modelled here: vectors live at `$FFFA`-`$FFFF` where it
    /// never triggers. A device that needs the quirk should not route through
    /// this method.
    fn read_u16(&mut self, addr: u16) -> (value: u16)
        ensures
            Self::records_history() ==> word_read(old(self).history(), final(self).history(), addr, value),
    {
        let lo = self.read_u8(addr);
        let hi = self.read_u8(addr.wrapping_add(1));
        le_word(lo, hi)
    }
}

} // verus!
