//! Transfer descriptors and the fixed-layout record the kernel's
//! transfer ioctl expects.
//!
//! A [`SpidevTransfer`] describes one SPI transaction segment: the data
//! to shift out, the buffer that receives what comes back, and the
//! per-transfer overrides.  Marshaling it produces a [`spi_ioc_transfer`]
//! record whose integer fields mirror the kernel's structure: two 64-bit
//! buffer addresses (zero when a buffer is absent), the segment length,
//! the overrides, and an always-zero reserved field.

use vstd::prelude::*;

verus! {

/// Size in bytes of one marshaled transfer record: two 8-byte buffer
/// addresses, two 4-byte words, one 2-byte and two 1-byte overrides,
/// and the 4-byte reserved field.
pub const TRANSFER_RECORD_SIZE: u16 = 32;

/// The fixed-layout record describing a single SPI transfer to the
/// kernel, field for field as in the kernel's own structure.
///
/// `tx_buf` and `rx_buf` carry userspace buffer addresses encoded as
/// integers, or zero when no buffer is supplied; `len` is the length of
/// both buffers in bytes.  `speed_hz`, `delay_usecs`, `bits_per_word`
/// and `cs_change` override device defaults for this one segment.
/// `pad` is reserved for future kernel use and always zero.
#[allow(non_camel_case_types)]
#[derive(Clone, Copy, PartialEq, Eq, Structural, Debug)]
pub struct spi_ioc_transfer {
    /// Address of the transmit buffer, or zero.
    pub tx_buf: u64,
    /// Address of the receive buffer, or zero.
    pub rx_buf: u64,
    /// Length of the transmit and receive buffers, in bytes.
    pub len: u32,
    /// Temporary override of the device's bitrate, or zero.
    pub speed_hz: u32,
    /// How long to delay after the last bit transfer, in microseconds.
    pub delay_usecs: u16,
    /// Temporary override of the device's word size, or zero.
    pub bits_per_word: u8,
    /// Nonzero to deselect the device before the next transfer.
    pub cs_change: u8,
    /// Reserved; always zero.
    pub pad: u32,
}

/// One SPI transaction segment: the buffers it moves, each owned by the
/// descriptor for the duration of a dispatch, and per-transfer
/// overrides of the device defaults.
///
/// The hardware protocol is inherently full duplex, so a transmit-only
/// descriptor still carries a same-length throwaway receive buffer for
/// the kernel to place inbound bits in.
#[derive(Clone, Debug)]
pub struct SpidevTransfer {
    /// Data to shift out, or `None` to shift out zero bits.
    pub tx_buf: Option<Vec<u8>>,
    /// Buffer the kernel fills with received data, or `None` to discard
    /// whatever is received.
    pub rx_buf: Option<Vec<u8>>,
    /// Temporary override of the device's bitrate, or zero.
    pub speed_hz: u32,
    /// How long to delay after the last bit transfer, in microseconds.
    pub delay_usecs: u16,
    /// Temporary override of the device's word size, or zero.
    pub bits_per_word: u8,
    /// Nonzero to deselect the device before the next transfer.
    pub cs_change: u8,
}

/// A byte vector of the given length, holding only zeroes.
fn zero_vec(len: usize) -> (r: Vec<u8>)
    ensures
        r@ == Seq::new(len as nat, |i: int| 0u8),
{
    let mut r: Vec<u8> = Vec::new();
    while r.len() < len
        invariant
            r@.len() <= len,
            forall|i: int| 0 <= i < r@.len() ==> r@[i] == 0u8,
        decreases len - r@.len(),
    {
        r.push(0);
    }
    proof {
        assert(r@ =~= Seq::new(len as nat, |i: int| 0u8));
    }
    r
}

/// A byte vector holding a copy of the given bytes.
fn copy_bytes(buff: &[u8]) -> (r: Vec<u8>)
    ensures
        r@ == buff@,
{
    let mut r: Vec<u8> = Vec::new();
    let mut i: usize = 0;
    while i < buff.len()
        invariant
            i <= buff@.len(),
            r@ == buff@.subrange(0, i as int),
        decreases buff@.len() - i,
    {
        r.push(buff[i]);
        i += 1;
        proof {
            assert(r@ =~= buff@.subrange(0, i as int));
        }
    }
    proof {
        assert(r@ =~= buff@);
    }
    r
}

impl SpidevTransfer {
    /// Well-formedness: when both buffers are present they have the same
    /// length, and the segment length fits the record's 32-bit field.
    pub open spec fn wf(self) -> bool {
        &&& (self.tx_buf is Some && self.rx_buf is Some ==> self.tx_buf.unwrap()@.len()
            == self.rx_buf.unwrap()@.len())
        &&& self.spec_len() <= u32::MAX
    }

    /// The segment length in bytes: the length of whichever buffer is
    /// present (both, when both are, have the same length in a
    /// well-formed descriptor), or zero for a pure delay segment.
    pub open spec fn spec_len(self) -> int {
        if self.tx_buf is Some {
            self.tx_buf.unwrap()@.len() as int
        } else if self.rx_buf is Some {
            self.rx_buf.unwrap()@.len() as int
        } else {
            0
        }
    }

    /// Test well-formedness at run time.  Every constructor establishes
    /// it; a descriptor assembled by hand from its fields may not, and
    /// must be rejected before it is marshaled.
    pub fn is_well_formed(&self) -> (r: bool)
        ensures
            r == self.wf(),
    {
        let lengths_agree = match (&self.tx_buf, &self.rx_buf) {
            (Some(tx), Some(rx)) => tx.len() == rx.len(),
            _ => true,
        };
        let len: usize = match (&self.tx_buf, &self.rx_buf) {
            (Some(tx), _) => tx.len(),
            (None, Some(rx)) => rx.len(),
            (None, None) => 0,
        };
        lengths_agree && len <= u32::MAX as usize
    }

    /// Create a receive-only transfer: a fresh zero-filled buffer of
    /// `length` bytes that the kernel will fill.
    pub fn read(length: usize) -> (r: Self)
        requires
            length <= u32::MAX,
        ensures
            r.tx_buf is None,
            r.rx_buf is Some,
            r.rx_buf.unwrap()@ == Seq::new(length as nat, |i: int| 0u8),
            r.speed_hz == 0,
            r.delay_usecs == 0,
            r.bits_per_word == 0,
            r.cs_change == 0,
            r.wf(),
            r.spec_len() == length,
    {
        SpidevTransfer {
            tx_buf: None,
            rx_buf: Some(zero_vec(length)),
            speed_hz: 0,
            delay_usecs: 0,
            bits_per_word: 0,
            cs_change: 0,
        }
    }

    /// Create a transmit transfer from a copy of `buff`, with a
    /// same-length throwaway receive buffer for the inbound bits.
    pub fn write(buff: &[u8]) -> (r: Self)
        requires
            buff@.len() <= u32::MAX,
        ensures
            r.tx_buf is Some,
            r.tx_buf.unwrap()@ == buff@,
            r.rx_buf is Some,
            r.rx_buf.unwrap()@ == Seq::new(buff@.len(), |i: int| 0u8),
            r.speed_hz == 0,
            r.delay_usecs == 0,
            r.bits_per_word == 0,
            r.cs_change == 0,
            r.wf(),
            r.spec_len() == buff@.len(),
    {
        SpidevTransfer {
            tx_buf: Some(copy_bytes(buff)),
            rx_buf: Some(zero_vec(buff.len())),
            speed_hz: 0,
            delay_usecs: 0,
            bits_per_word: 0,
            cs_change: 0,
        }
    }

    /// Create a full-duplex transfer from copies of the two buffers.
    ///
    /// The transmit and receive buffers must have the same length:
    /// anything else is a caller error that would corrupt the record,
    /// so it is excluded up front.  Use [`Self::try_read_write`] to
    /// test the lengths at run time instead.
    pub fn read_write(tx_buf: &[u8], rx_buf: &[u8]) -> (r: Self)
        requires
            tx_buf@.len() == rx_buf@.len(),
            tx_buf@.len() <= u32::MAX,
        ensures
            r.tx_buf is Some,
            r.tx_buf.unwrap()@ == tx_buf@,
            r.rx_buf is Some,
            r.rx_buf.unwrap()@ == rx_buf@,
            r.speed_hz == 0,
            r.delay_usecs == 0,
            r.bits_per_word == 0,
            r.cs_change == 0,
            r.wf(),
            r.spec_len() == tx_buf@.len(),
    {
        SpidevTransfer {
            tx_buf: Some(copy_bytes(tx_buf)),
            rx_buf: Some(copy_bytes(rx_buf)),
            speed_hz: 0,
            delay_usecs: 0,
            bits_per_word: 0,
            cs_change: 0,
        }
    }

    /// Create a full-duplex transfer, checking the buffer lengths:
    /// `None` exactly when they differ, before any record is built or
    /// any ioctl could be attempted.
    pub fn try_read_write(tx_buf: &[u8], rx_buf: &[u8]) -> (r: Option<Self>)
        requires
            tx_buf@.len() <= u32::MAX,
        ensures
            r is Some <==> tx_buf@.len() == rx_buf@.len(),
            r is Some ==> {
                &&& r.unwrap().tx_buf is Some
                &&& r.unwrap().tx_buf.unwrap()@ == tx_buf@
                &&& r.unwrap().rx_buf is Some
                &&& r.unwrap().rx_buf.unwrap()@ == rx_buf@
                &&& r.unwrap().speed_hz == 0
                &&& r.unwrap().delay_usecs == 0
                &&& r.unwrap().bits_per_word == 0
                &&& r.unwrap().cs_change == 0
                &&& r.unwrap().wf()
            },
    {
        if tx_buf.len() == rx_buf.len() {
            Some(Self::read_write(tx_buf, rx_buf))
        } else {
            None
        }
    }

    /// Create a pure timing segment: no data moves, and the kernel
    /// delays the given number of microseconds after it.
    pub fn delay(microseconds: u16) -> (r: Self)
        ensures
            r.tx_buf is None,
            r.rx_buf is None,
            r.speed_hz == 0,
            r.delay_usecs == microseconds,
            r.bits_per_word == 0,
            r.cs_change == 0,
            r.wf(),
            r.spec_len() == 0,
    {
        SpidevTransfer {
            tx_buf: None,
            rx_buf: None,
            speed_hz: 0,
            delay_usecs: microseconds,
            bits_per_word: 0,
            cs_change: 0,
        }
    }

    /// Marshal this descriptor into the record handed to the kernel.
    ///
    /// The buffer addresses are captured from the descriptor's own
    /// buffers, so the record is only valid while the descriptor is
    /// alive and unmoved; the kernel reads and writes through those
    /// addresses during the transfer ioctl.
    pub fn to_raw(&self) -> (r: spi_ioc_transfer)
        requires
            self.wf(),
        ensures
            raw_matches(*self, r),
    {
        let tx_addr: u64 = match &self.tx_buf {
            Some(b) => buf_addr(b),
            None => 0,
        };
        let rx_addr: u64 = match &self.rx_buf {
            Some(b) => buf_addr(b),
            None => 0,
        };
        let len: u32 = match &self.tx_buf {
            Some(b) => b.len() as u32,
            None => match &self.rx_buf {
                Some(b) => b.len() as u32,
                None => 0,
            },
        };
        spi_ioc_transfer {
            tx_buf: tx_addr,
            rx_buf: rx_addr,
            len,
            speed_hz: self.speed_hz,
            delay_usecs: self.delay_usecs,
            bits_per_word: self.bits_per_word,
            cs_change: self.cs_change,
            pad: 0,
        }
    }
}

/// How a marshaled record relates to its descriptor: every plain field
/// is copied through exactly, the reserved field is zero, an absent
/// buffer is encoded as address zero, and a present, non-empty buffer
/// as a nonzero address.  The addresses themselves depend on where the
/// buffers sit in memory, which no specification pins down.
pub open spec fn raw_matches(t: SpidevTransfer, r: spi_ioc_transfer) -> bool {
    &&& r.len == t.spec_len()
    &&& r.speed_hz == t.speed_hz
    &&& r.delay_usecs == t.delay_usecs
    &&& r.bits_per_word == t.bits_per_word
    &&& r.cs_change == t.cs_change
    &&& r.pad == 0
    &&& (t.tx_buf is None ==> r.tx_buf == 0)
    &&& (t.rx_buf is None ==> r.rx_buf == 0)
    &&& (t.tx_buf is Some && t.tx_buf.unwrap()@.len() > 0 ==> r.tx_buf != 0)
    &&& (t.rx_buf is Some && t.rx_buf.unwrap()@.len() > 0 ==> r.rx_buf != 0)
}

/// Relies on `Vec::as_ptr` from std: the base address of the vector's
/// buffer, as an integer.  A vector with elements in it occupies an
/// allocation, which never sits at address zero.
#[verifier::external_body]
fn buf_addr(b: &Vec<u8>) -> (r: u64)
    ensures
        b@.len() > 0 ==> r != 0,
{
    b.as_ptr() as usize as u64
}

} // verus!
