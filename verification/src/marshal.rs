//! Configuration marshaling: translating an optional-field
//! [`SpidevOptions`] into the exact sequence of write ioctls that
//! realizes it on the device.
//!
//! Each set field becomes one write request — command word plus payload
//! — and each unset field becomes nothing, so applying a configuration
//! never clobbers a value it was not asked to change.  The sequence is
//! a pure function of the options: applying the same options twice
//! issues the same requests twice.

use vstd::prelude::*;

use crate::ioctl::IoctlDir;
use crate::ioctl::op_write;
use crate::ioctl::spec_op;
use crate::options::SpiModeFlags;
use crate::options::SpidevOptions;

verus! {

/// The ioctl type identifier shared by all spidev operations: the
/// ASCII value of `'k'`.
pub const SPI_IOC_MAGIC: u8 = 0x6B;

/// Operation number of the transfer (message) ioctl.
pub const SPI_IOC_NR_TRANSFER: u8 = 0;
/// Operation number of the single-byte mode ioctl.
pub const SPI_IOC_NR_MODE: u8 = 1;
/// Operation number of the bit-justification ioctl.
pub const SPI_IOC_NR_LSB_FIRST: u8 = 2;
/// Operation number of the word-size ioctl.
pub const SPI_IOC_NR_BITS_PER_WORD: u8 = 3;
/// Operation number of the maximum-speed ioctl.
pub const SPI_IOC_NR_MAX_SPEED_HZ: u8 = 4;
/// Operation number of the 32-bit mode ioctl, present in kernels that
/// support dual and quad transfers.
pub const SPI_IOC_NR_MODE32: u8 = 5;

/// The payload of one configuration write: a single byte or a 32-bit
/// word, matching the payload size encoded in the command word.
#[derive(Clone, Copy, PartialEq, Eq, Structural, Debug)]
pub enum ConfigPayload {
    /// A one-byte payload.
    Byte(u8),
    /// A four-byte payload.
    Word(u32),
}

/// One write ioctl that applying a configuration will issue: the
/// command word and the payload handed to the kernel beside it.
#[derive(Clone, Copy, PartialEq, Eq, Structural, Debug)]
pub struct ConfigRequest {
    /// The ioctl command word.
    pub op: u64,
    /// The payload the kernel consumes.
    pub payload: ConfigPayload,
}

/// The request that sets the word size: a one-byte write.
pub open spec fn spec_bits_per_word_request(bits: u8) -> ConfigRequest {
    ConfigRequest {
        op: spec_op(IoctlDir::Write, SPI_IOC_MAGIC, SPI_IOC_NR_BITS_PER_WORD, 1),
        payload: ConfigPayload::Byte(bits),
    }
}

/// The request that sets the maximum speed: a four-byte write.
pub open spec fn spec_max_speed_hz_request(speed_hz: u32) -> ConfigRequest {
    ConfigRequest {
        op: spec_op(IoctlDir::Write, SPI_IOC_MAGIC, SPI_IOC_NR_MAX_SPEED_HZ, 4),
        payload: ConfigPayload::Word(speed_hz),
    }
}

/// The request that sets the bit justification: a one-byte write, one
/// for LSB-first and zero for MSB-first.
pub open spec fn spec_lsb_first_request(lsb_first: bool) -> ConfigRequest {
    ConfigRequest {
        op: spec_op(IoctlDir::Write, SPI_IOC_MAGIC, SPI_IOC_NR_LSB_FIRST, 1),
        payload: ConfigPayload::Byte(if lsb_first { 1u8 } else { 0u8 }),
    }
}

/// The request that sets the mode.  A mode within the low eight bits
/// travels through the legacy single-byte ioctl, so that kernels
/// predating the 32-bit extension stay supported; any higher flag
/// selects the 32-bit ioctl instead.
pub open spec fn spec_mode_request(mode: SpiModeFlags) -> ConfigRequest {
    if mode.spec_is_extended() {
        ConfigRequest {
            op: spec_op(IoctlDir::Write, SPI_IOC_MAGIC, SPI_IOC_NR_MODE32, 4),
            payload: ConfigPayload::Word(mode.bits),
        }
    } else {
        ConfigRequest {
            op: spec_op(IoctlDir::Write, SPI_IOC_MAGIC, SPI_IOC_NR_MODE, 1),
            payload: ConfigPayload::Byte(mode.bits as u8),
        }
    }
}

/// The full sequence of write requests that applies `options`: one
/// request per set field, none per unset field, in the fixed order
/// word size, speed, bit justification, mode.
pub open spec fn spec_configure_plan(options: SpidevOptions) -> Seq<ConfigRequest> {
    (if options.bits_per_word is Some {
        seq![spec_bits_per_word_request(options.bits_per_word.unwrap())]
    } else {
        Seq::<ConfigRequest>::empty()
    }) + (if options.max_speed_hz is Some {
        seq![spec_max_speed_hz_request(options.max_speed_hz.unwrap())]
    } else {
        Seq::<ConfigRequest>::empty()
    }) + (if options.lsb_first is Some {
        seq![spec_lsb_first_request(options.lsb_first.unwrap())]
    } else {
        Seq::<ConfigRequest>::empty()
    }) + (if options.spi_mode is Some {
        seq![spec_mode_request(options.spi_mode.unwrap())]
    } else {
        Seq::<ConfigRequest>::empty()
    })
}

/// Build the request that sets the word size.
pub fn bits_per_word_request(bits: u8) -> (r: ConfigRequest)
    ensures
        r == spec_bits_per_word_request(bits),
{
    ConfigRequest {
        op: op_write(SPI_IOC_MAGIC, SPI_IOC_NR_BITS_PER_WORD, 1),
        payload: ConfigPayload::Byte(bits),
    }
}

/// Build the request that sets the maximum speed.
pub fn max_speed_hz_request(speed_hz: u32) -> (r: ConfigRequest)
    ensures
        r == spec_max_speed_hz_request(speed_hz),
{
    ConfigRequest {
        op: op_write(SPI_IOC_MAGIC, SPI_IOC_NR_MAX_SPEED_HZ, 4),
        payload: ConfigPayload::Word(speed_hz),
    }
}

/// Build the request that sets the bit justification.
pub fn lsb_first_request(lsb_first: bool) -> (r: ConfigRequest)
    ensures
        r == spec_lsb_first_request(lsb_first),
{
    ConfigRequest {
        op: op_write(SPI_IOC_MAGIC, SPI_IOC_NR_LSB_FIRST, 1),
        payload: ConfigPayload::Byte(if lsb_first { 1 } else { 0 }),
    }
}

/// Build the request that sets the mode, choosing between the legacy
/// single-byte ioctl and the 32-bit one.
pub fn mode_request(mode: SpiModeFlags) -> (r: ConfigRequest)
    ensures
        r == spec_mode_request(mode),
{
    if mode.is_extended() {
        ConfigRequest {
            op: op_write(SPI_IOC_MAGIC, SPI_IOC_NR_MODE32, 4),
            payload: ConfigPayload::Word(mode.bits),
        }
    } else {
        proof {
            let b = mode.bits;
            assert(b & 0xFFFF_FF00 == 0 ==> b < 256) by (bit_vector);
        }
        ConfigRequest {
            op: op_write(SPI_IOC_MAGIC, SPI_IOC_NR_MODE, 1),
            payload: ConfigPayload::Byte(mode.bits as u8),
        }
    }
}

/// The exact sequence of write ioctls that applies `options`: each set
/// field contributes one request, each unset field none, in the fixed
/// order word size, speed, bit justification, mode.
///
/// The caller issues these in order against the device and stops at
/// the first failure; fields already written stay applied.
pub fn configure_requests(options: &SpidevOptions) -> (r: Vec<ConfigRequest>)
    ensures
        r@ == spec_configure_plan(*options),
{
    let mut r: Vec<ConfigRequest> = Vec::new();
    if let Some(bits) = options.bits_per_word {
        r.push(bits_per_word_request(bits));
    }
    if let Some(speed_hz) = options.max_speed_hz {
        r.push(max_speed_hz_request(speed_hz));
    }
    if let Some(lsb_first) = options.lsb_first {
        r.push(lsb_first_request(lsb_first));
    }
    if let Some(mode) = options.spi_mode {
        r.push(mode_request(mode));
    }
    proof {
        assert(r@ =~= spec_configure_plan(*options));
    }
    r
}

/// A configuration with no field set issues no ioctl at all.
pub proof fn lemma_configure_empty()
    ensures
        spec_configure_plan(
            (SpidevOptions {
                bits_per_word: None,
                max_speed_hz: None,
                lsb_first: None,
                spi_mode: None,
            }),
        ) =~= Seq::<ConfigRequest>::empty(),
{
}

/// A configuration with only the word size set issues exactly one
/// write: the one-byte word-size request.
pub proof fn lemma_configure_only_bits_per_word(bits: u8)
    ensures
        spec_configure_plan(
            (SpidevOptions {
                bits_per_word: Some(bits),
                max_speed_hz: None,
                lsb_first: None,
                spi_mode: None,
            }),
        ) =~= seq![spec_bits_per_word_request(bits)],
{
}

/// A configuration with only the maximum speed set issues exactly one
/// write: the four-byte speed request.
pub proof fn lemma_configure_only_max_speed_hz(speed_hz: u32)
    ensures
        spec_configure_plan(
            (SpidevOptions {
                bits_per_word: None,
                max_speed_hz: Some(speed_hz),
                lsb_first: None,
                spi_mode: None,
            }),
        ) =~= seq![spec_max_speed_hz_request(speed_hz)],
{
}

/// A configuration with only the bit justification set issues exactly
/// one write: the one-byte justification request.
pub proof fn lemma_configure_only_lsb_first(lsb_first: bool)
    ensures
        spec_configure_plan(
            (SpidevOptions {
                bits_per_word: None,
                max_speed_hz: None,
                lsb_first: Some(lsb_first),
                spi_mode: None,
            }),
        ) =~= seq![spec_lsb_first_request(lsb_first)],
{
}

/// A configuration with only the mode set issues exactly one write:
/// the mode request for that value.
pub proof fn lemma_configure_only_mode(mode: SpiModeFlags)
    ensures
        spec_configure_plan(
            (SpidevOptions {
                bits_per_word: None,
                max_speed_hz: None,
                lsb_first: None,
                spi_mode: Some(mode),
            }),
        ) =~= seq![spec_mode_request(mode)],
{
}

/// Each set field contributes exactly one request to the plan and each
/// unset field contributes none, whatever the other fields hold.
pub proof fn lemma_configure_plan_len(options: SpidevOptions)
    ensures
        spec_configure_plan(options).len() == (if options.bits_per_word is Some {
            1int
        } else {
            0int
        }) + (if options.max_speed_hz is Some {
            1int
        } else {
            0int
        }) + (if options.lsb_first is Some {
            1int
        } else {
            0int
        }) + (if options.spi_mode is Some {
            1int
        } else {
            0int
        }),
{
}

/// Mode path selection: a mode value within the low eight bits is
/// applied through the legacy single-byte mode ioctl; a mode with any
/// flag at or above 0x100 through the 32-bit one — visible in the
/// operation number and payload size of the issued request.
pub proof fn lemma_mode_request_path(mode: SpiModeFlags)
    ensures
        mode.bits <= 0xFF ==> spec_mode_request(mode) == (ConfigRequest {
            op: spec_op(IoctlDir::Write, SPI_IOC_MAGIC, SPI_IOC_NR_MODE, 1),
            payload: ConfigPayload::Byte(mode.bits as u8),
        }),
        mode.bits > 0xFF ==> spec_mode_request(mode) == (ConfigRequest {
            op: spec_op(IoctlDir::Write, SPI_IOC_MAGIC, SPI_IOC_NR_MODE32, 4),
            payload: ConfigPayload::Word(mode.bits),
        }),
{
    let b = mode.bits;
    assert((b & 0xFFFF_FF00 != 0) <==> b > 0xFF) by (bit_vector);
}

/// Applying the same configuration twice issues the same sequence of
/// requests both times: the plan is a function of the options alone,
/// with no memory of what was already applied.
pub proof fn lemma_configure_repeatable(first: SpidevOptions, second: SpidevOptions)
    requires
        first == second,
    ensures
        spec_configure_plan(first) == spec_configure_plan(second),
{
}

} // verus!
