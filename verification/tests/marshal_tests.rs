//! Tests for configuration marshaling: which write ioctls a
//! configuration issues, with which command words and payloads.

use spidev::configure_requests;
use spidev::ConfigPayload;
use spidev::SpiModeFlags;
use spidev::SpidevOptions;

#[test]
fn test_configure_unset_issues_nothing() {
    let options = SpidevOptions::new();
    assert_eq!(configure_requests(&options).len(), 0);
}

#[test]
fn test_configure_only_bits_per_word() {
    let options = SpidevOptions::new().bits_per_word(8).build();
    let requests = configure_requests(&options);
    assert_eq!(requests.len(), 1);
    // _IOW('k', 3, u8)
    assert_eq!(requests[0].op, 0x40016B03);
    assert_eq!(requests[0].payload, ConfigPayload::Byte(8));
}

#[test]
fn test_configure_only_max_speed_hz() {
    let options = SpidevOptions::new().max_speed_hz(20_000).build();
    let requests = configure_requests(&options);
    assert_eq!(requests.len(), 1);
    // _IOW('k', 4, u32)
    assert_eq!(requests[0].op, 0x40046B04);
    assert_eq!(requests[0].payload, ConfigPayload::Word(20_000));
}

#[test]
fn test_configure_only_lsb_first() {
    let options = SpidevOptions::new().lsb_first(true).build();
    let requests = configure_requests(&options);
    assert_eq!(requests.len(), 1);
    // _IOW('k', 2, u8)
    assert_eq!(requests[0].op, 0x40016B02);
    assert_eq!(requests[0].payload, ConfigPayload::Byte(1));

    let options = SpidevOptions::new().lsb_first(false).build();
    let requests = configure_requests(&options);
    assert_eq!(requests.len(), 1);
    assert_eq!(requests[0].op, 0x40016B02);
    assert_eq!(requests[0].payload, ConfigPayload::Byte(0));
}

#[test]
fn test_configure_only_mode_legacy() {
    for bits in [0x00u32, 0x01, 0x03, 0xFF] {
        let options = SpidevOptions::new().mode(SpiModeFlags::from_bits(bits)).build();
        let requests = configure_requests(&options);
        assert_eq!(requests.len(), 1);
        // _IOW('k', 1, u8): the single-byte legacy mode ioctl.
        assert_eq!(requests[0].op, 0x40016B01);
        assert_eq!(requests[0].payload, ConfigPayload::Byte(bits as u8));
    }
}

#[test]
fn test_configure_only_mode_extended() {
    for bits in [0x100u32, 0x203, 0x800, 0xFFF] {
        let options = SpidevOptions::new().mode(SpiModeFlags::from_bits(bits)).build();
        let requests = configure_requests(&options);
        assert_eq!(requests.len(), 1);
        // _IOW('k', 5, u32): the 32-bit mode ioctl.
        assert_eq!(requests[0].op, 0x40046B05);
        assert_eq!(requests[0].payload, ConfigPayload::Word(bits));
    }
}

#[test]
fn test_configure_all_fields_in_order() {
    let options = SpidevOptions::new()
        .bits_per_word(8)
        .max_speed_hz(500_000)
        .lsb_first(false)
        .mode(SpiModeFlags::from_bits(spidev::SPI_MODE_1))
        .build();
    let requests = configure_requests(&options);
    assert_eq!(requests.len(), 4);
    assert_eq!(requests[0].op, 0x40016B03);
    assert_eq!(requests[1].op, 0x40046B04);
    assert_eq!(requests[2].op, 0x40016B02);
    assert_eq!(requests[3].op, 0x40016B01);
    assert_eq!(requests[3].payload, ConfigPayload::Byte(0x01));
}

#[test]
fn test_configure_twice_same_requests() {
    let options = SpidevOptions::new()
        .max_speed_hz(1_000_000)
        .mode(SpiModeFlags::from_bits(spidev::SPI_MODE_2))
        .build();
    let first = configure_requests(&options);
    let second = configure_requests(&options);
    assert_eq!(first, second);
    assert_eq!(first.len(), 2);
}
