//! Device configuration: SPI mode flags and the optional-field options
//! record that `configure` applies.

use vstd::prelude::*;

verus! {

// Mode flag values, as in linux/spi/spidev.h.

/// Clock phase: sample on the trailing edge iff set.
pub const SPI_CPHA: u32 = 0x01;
/// Clock polarity: idle high iff set.
pub const SPI_CPOL: u32 = 0x02;
/// Chip select is active high.
pub const SPI_CS_HIGH: u32 = 0x04;
/// Per-word bits on the wire are sent least-significant first.
pub const SPI_LSB_FIRST: u32 = 0x08;
/// SI and SO signals are shared (three-wire mode).
pub const SPI_3WIRE: u32 = 0x10;
/// Loopback mode.
pub const SPI_LOOP: u32 = 0x20;
/// Single device on the bus; no chip select.
pub const SPI_NO_CS: u32 = 0x40;
/// Peripheral pulls low to pause.
pub const SPI_READY: u32 = 0x80;

/// Mode 0: clock idle low, sample on the leading edge.
pub const SPI_MODE_0: u32 = 0;
/// Mode 1: clock idle low, sample on the trailing edge.
pub const SPI_MODE_1: u32 = SPI_CPHA;
/// Mode 2: clock idle high, sample on the leading edge.
pub const SPI_MODE_2: u32 = SPI_CPOL;
/// Mode 3: clock idle high, sample on the trailing edge.
pub const SPI_MODE_3: u32 = SPI_CPOL | SPI_CPHA;

// Flags only expressible through the 32-bit mode ioctl.

/// Transmit with two wires.
pub const SPI_TX_DUAL: u32 = 0x100;
/// Transmit with four wires.
pub const SPI_TX_QUAD: u32 = 0x200;
/// Receive with two wires.
pub const SPI_RX_DUAL: u32 = 0x400;
/// Receive with four wires.
pub const SPI_RX_QUAD: u32 = 0x800;

/// A set of SPI mode flags: a bit set over the `SPI_*` values above,
/// composed by bitwise OR.
#[derive(Clone, Copy, PartialEq, Eq, Structural, Debug)]
pub struct SpiModeFlags {
    /// The raw bit pattern of the set.
    pub bits: u32,
}

impl SpiModeFlags {
    /// Whether any flag outside the low eight bits is set.  Such a set
    /// cannot travel through the legacy single-byte mode ioctl and
    /// selects the 32-bit one instead.
    pub open spec fn spec_is_extended(self) -> bool {
        self.bits & 0xFFFF_FF00 != 0
    }

    /// The empty flag set.
    pub fn empty() -> (r: Self)
        ensures
            r.bits == 0,
    {
        SpiModeFlags { bits: 0 }
    }

    /// The flag set with exactly the given bit pattern.
    pub fn from_bits(bits: u32) -> (r: Self)
        ensures
            r.bits == bits,
    {
        SpiModeFlags { bits }
    }

    /// The union of two flag sets.
    pub fn or(self, other: Self) -> (r: Self)
        ensures
            r.bits == self.bits | other.bits,
    {
        SpiModeFlags { bits: self.bits | other.bits }
    }

    /// Whether this set uses any flag outside the low eight bits.
    pub fn is_extended(&self) -> (r: bool)
        ensures
            r == self.spec_is_extended(),
    {
        self.bits & 0xFFFF_FF00 != 0
    }
}

/// Options that control defaults for communication on a device.
///
/// Individual settings may be overridden via parameters that are
/// specified as part of an individual transfer descriptor.
///
/// Options that are not set with one of the builder functions are not
/// modified in the kernel when the configuration is applied: an unset
/// field issues no ioctl at all.
#[derive(Clone, Copy, Debug)]
pub struct SpidevOptions {
    /// The number of bits in each SPI transfer word; zero signifies eight.
    pub bits_per_word: Option<u8>,
    /// The maximum SPI transfer speed, in Hz.
    pub max_speed_hz: Option<u32>,
    /// The bit justification used to transfer SPI words.
    pub lsb_first: Option<bool>,
    /// The SPI transfer mode.
    pub spi_mode: Option<SpiModeFlags>,
}

impl SpidevOptions {
    /// Create a new, empty set of options.
    pub fn new() -> (r: SpidevOptions)
        ensures
            r.bits_per_word is None,
            r.max_speed_hz is None,
            r.lsb_first is None,
            r.spi_mode is None,
    {
        SpidevOptions {
            bits_per_word: None,
            max_speed_hz: None,
            lsb_first: None,
            spi_mode: None,
        }
    }

    /// The number of bits in each SPI transfer word.
    ///
    /// The value zero signifies eight bits.
    pub fn bits_per_word(&mut self, bits_per_word: u8) -> (ret: &mut Self)
        ensures
            *ret == (SpidevOptions { bits_per_word: Some(bits_per_word), ..*old(self) }),
            *final(self) == *final(ret),
    {
        self.bits_per_word = Some(bits_per_word);
        self
    }

    /// The maximum SPI transfer speed, in Hz.
    ///
    /// The controller can't necessarily assign that specific clock speed.
    pub fn max_speed_hz(&mut self, max_speed_hz: u32) -> (ret: &mut Self)
        ensures
            *ret == (SpidevOptions { max_speed_hz: Some(max_speed_hz), ..*old(self) }),
            *final(self) == *final(ret),
    {
        self.max_speed_hz = Some(max_speed_hz);
        self
    }

    /// The bit justification used to transfer SPI words.
    ///
    /// False indicates MSB-first; true indicates the less common
    /// LSB-first encoding.
    pub fn lsb_first(&mut self, lsb_first: bool) -> (ret: &mut Self)
        ensures
            *ret == (SpidevOptions { lsb_first: Some(lsb_first), ..*old(self) }),
            *final(self) == *final(ret),
    {
        self.lsb_first = Some(lsb_first);
        self
    }

    /// Set the SPI transfer mode.
    ///
    /// Use `SPI_MODE_0` .. `SPI_MODE_3`, or combine `SPI_CPOL` and
    /// `SPI_CPHA` directly.  Applying the configuration prefers the
    /// single-byte mode ioctl, present in every kernel; the 32-bit one
    /// is used iff flags above the low eight bits are given (dual or
    /// quad transfers).
    pub fn mode(&mut self, mode: SpiModeFlags) -> (ret: &mut Self)
        ensures
            *ret == (SpidevOptions { spi_mode: Some(mode), ..*old(self) }),
            *final(self) == *final(ret),
    {
        self.spi_mode = Some(mode);
        self
    }

    /// Finalize and build the options.
    pub fn build(&self) -> (r: Self)
        ensures
            r == *self,
    {
        *self
    }
}

} // verus!
