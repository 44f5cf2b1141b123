//! Tests for transfer descriptors, their marshaled records, and
//! single and batched dispatch messages.

use spidev::transfer_message;
use spidev::transfer_multiple_message;
use spidev::try_transfer_multiple_message;
use spidev::SpidevTransfer;

#[test]
fn test_write_descriptor_round_trip() {
    let tx = [0xAAu8, 0xBB, 0xCC];
    let transfer = SpidevTransfer::write(&tx);
    let record = transfer.to_raw();
    assert_eq!(record.len, 3);
    assert_ne!(record.rx_buf, 0);
    assert_eq!(record.tx_buf, transfer.tx_buf.as_ref().unwrap().as_ptr() as usize as u64);
    assert_eq!(record.pad, 0);
    assert_eq!(transfer.tx_buf.as_ref().unwrap().as_slice(), &tx);
    assert_eq!(transfer.rx_buf.as_ref().unwrap().as_slice(), &[0u8, 0, 0]);
}

#[test]
fn test_read_descriptor() {
    let transfer = SpidevTransfer::read(4);
    assert!(transfer.tx_buf.is_none());
    assert_eq!(transfer.rx_buf.as_ref().unwrap().as_slice(), &[0u8, 0, 0, 0]);
    let record = transfer.to_raw();
    assert_eq!(record.len, 4);
    assert_eq!(record.tx_buf, 0);
    assert_ne!(record.rx_buf, 0);
    assert_eq!(record.pad, 0);
}

#[test]
fn test_read_write_descriptor() {
    let tx = [1u8, 2, 3];
    let rx = [0u8, 0, 0];
    let transfer = SpidevTransfer::read_write(&tx, &rx);
    let record = transfer.to_raw();
    assert_eq!(record.len, 3);
    assert_ne!(record.tx_buf, 0);
    assert_ne!(record.rx_buf, 0);
}

#[test]
fn test_read_write_mismatched_lengths_fails() {
    let tx = [1u8, 2, 3];
    let rx = [0u8; 5];
    assert!(SpidevTransfer::try_read_write(&tx, &rx).is_none());
    assert!(SpidevTransfer::try_read_write(&rx, &tx).is_none());
    let same = SpidevTransfer::try_read_write(&tx, &[9u8, 9, 9]);
    assert!(same.is_some());
    assert_eq!(same.unwrap().tx_buf.unwrap().as_slice(), &tx);
}

#[test]
fn test_delay_descriptor() {
    let transfer = SpidevTransfer::delay(50);
    assert!(transfer.tx_buf.is_none());
    assert!(transfer.rx_buf.is_none());
    assert_eq!(transfer.delay_usecs, 50);
    let record = transfer.to_raw();
    assert_eq!(record.len, 0);
    assert_eq!(record.tx_buf, 0);
    assert_eq!(record.rx_buf, 0);
    assert_eq!(record.delay_usecs, 50);
}

#[test]
fn test_overrides_copied_through() {
    let mut transfer = SpidevTransfer::read(2);
    transfer.speed_hz = 250_000;
    transfer.delay_usecs = 10;
    transfer.bits_per_word = 9;
    transfer.cs_change = 1;
    let record = transfer.to_raw();
    assert_eq!(record.speed_hz, 250_000);
    assert_eq!(record.delay_usecs, 10);
    assert_eq!(record.bits_per_word, 9);
    assert_eq!(record.cs_change, 1);
    assert_eq!(record.pad, 0);
}

#[test]
fn test_single_transfer_message() {
    let transfer = SpidevTransfer::write(&[0x42]);
    let (op, record) = transfer_message(&transfer);
    // _IOW('k', 0, 32): one 32-byte record.
    assert_eq!(op, 0x40206B00);
    assert_eq!(record.len, 1);
}

#[test]
fn test_batched_message_size_and_order() {
    let transfers = vec![SpidevTransfer::write(&[0x90]), SpidevTransfer::read(4)];
    let (op, records) = transfer_multiple_message(&transfers);
    // _IOW('k', 0, 64): two 32-byte records.
    assert_eq!(op, 0x40406B00);
    assert_eq!(records.len(), 2);
    // The command-byte segment comes first, the read segment second.
    assert_eq!(records[0].len, 1);
    assert_ne!(records[0].tx_buf, 0);
    assert_eq!(records[1].len, 4);
    assert_eq!(records[1].tx_buf, 0);
    assert_ne!(records[1].rx_buf, 0);
}

#[test]
fn test_batched_message_too_long_fails() {
    let mut transfers = Vec::new();
    for _ in 0..511 {
        transfers.push(SpidevTransfer::delay(1));
    }
    assert!(try_transfer_multiple_message(&transfers).is_some());
    transfers.push(SpidevTransfer::delay(1));
    assert!(try_transfer_multiple_message(&transfers).is_none());
}

#[test]
fn test_well_formedness_check() {
    assert!(SpidevTransfer::write(&[1, 2]).is_well_formed());
    assert!(SpidevTransfer::delay(0).is_well_formed());
    let mut bad = SpidevTransfer::read(2);
    bad.tx_buf = Some(vec![0u8; 3]);
    assert!(!bad.is_well_formed());
}

#[test]
fn test_zero_length_write_descriptor() {
    let transfer = SpidevTransfer::write(&[]);
    assert_eq!(transfer.tx_buf.as_ref().unwrap().len(), 0);
    assert_eq!(transfer.rx_buf.as_ref().unwrap().len(), 0);
    let record = transfer.to_raw();
    assert_eq!(record.len, 0);
    assert_eq!(record.pad, 0);
}
