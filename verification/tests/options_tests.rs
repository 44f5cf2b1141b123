//! Tests for the options builder.

use spidev::SpiModeFlags;
use spidev::SpidevOptions;
use spidev::SPI_MODE_0;

#[test]
fn test_spidev_options_all() {
    let options = SpidevOptions::new()
        .bits_per_word(8)
        .max_speed_hz(20_000)
        .lsb_first(false)
        .mode(SpiModeFlags::from_bits(SPI_MODE_0))
        .build();
    assert_eq!(options.bits_per_word, Some(8));
    assert_eq!(options.max_speed_hz, Some(20_000));
    assert_eq!(options.lsb_first, Some(false));
    assert_eq!(options.spi_mode, Some(SpiModeFlags::from_bits(SPI_MODE_0)));
}

#[test]
fn test_spidev_options_some() {
    let mut options = SpidevOptions::new();
    options.bits_per_word(10);
    options.lsb_first(true);
    assert_eq!(options.bits_per_word, Some(10));
    assert_eq!(options.max_speed_hz, None);
    assert_eq!(options.lsb_first, Some(true));
    assert_eq!(options.spi_mode, None);
}

#[test]
fn test_mode_flags_compose() {
    let flags = SpiModeFlags::from_bits(spidev::SPI_CPOL).or(SpiModeFlags::from_bits(spidev::SPI_CPHA));
    assert_eq!(flags.bits, spidev::SPI_MODE_3);
    assert!(!flags.is_extended());
    let extended = flags.or(SpiModeFlags::from_bits(spidev::SPI_TX_DUAL));
    assert_eq!(extended.bits, 0x103);
    assert!(extended.is_extended());
    assert!(!SpiModeFlags::empty().is_extended());
}
