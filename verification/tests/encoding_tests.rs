//! Tests for the ioctl command-word encoder, against the documented
//! expansions of the kernel's `_IO` / `_IOR` / `_IOW` / `_IOWR` macros.

use spidev::op;
use spidev::op_none;
use spidev::op_read;
use spidev::op_read_write;
use spidev::op_write;
use spidev::IoctlDir;

#[test]
fn test_op_write_known_value() {
    // _IOW('k', 1, u8)
    assert_eq!(op_write(0x6B, 1, 1), 0x40016B01);
}

#[test]
fn test_op_read_known_value() {
    // _IOR('k', 1, u8)
    assert_eq!(op_read(0x6B, 1, 1), 0x80016B01);
}

#[test]
fn test_op_none_known_value() {
    // _IO('k', 2)
    assert_eq!(op_none(0x6B, 2), 0x00006B02);
}

#[test]
fn test_op_read_write_known_value() {
    // _IOWR('k', 1, u8)
    assert_eq!(op_read_write(0x6B, 1, 1), 0xC0016B01);
}

#[test]
fn test_op_matches_direction_helpers() {
    assert_eq!(op(IoctlDir::Write, 0x6B, 4, 4), op_write(0x6B, 4, 4));
    assert_eq!(op(IoctlDir::Read, 0x6B, 4, 4), op_read(0x6B, 4, 4));
    assert_eq!(op(IoctlDir::ReadWrite, 0x6B, 4, 4), op_read_write(0x6B, 4, 4));
    assert_eq!(op(IoctlDir::NoData, 0x6B, 4, 0), op_none(0x6B, 4));
}

#[test]
fn test_op_distinct_fields_distinct_words() {
    assert_ne!(op_write(0x6B, 1, 1), op_write(0x6B, 2, 1));
    assert_ne!(op_write(0x6B, 1, 1), op_write(0x6B, 1, 4));
    assert_ne!(op_write(0x6B, 1, 1), op_read(0x6B, 1, 1));
    assert_ne!(op_write(0x6B, 1, 1), op_write(0x6C, 1, 1));
}
