//! Transfer dispatch: the command word and record array for the
//! kernel's transfer ioctl, for a single descriptor or for a batch
//! submitted in one syscall.
//!
//! A batch is encoded in descriptor order, and the kernel executes the
//! segments in exactly that order — that ordering guarantee is what
//! makes batched submission useful for multi-phase protocols such as
//! command-then-read.  The payload size encoded in the command word is
//! the record count times the record size.

use vstd::prelude::*;

use crate::ioctl::IOC_SIZE_LIMIT;
use crate::ioctl::IoctlDir;
use crate::ioctl::op_write;
use crate::ioctl::spec_op;
use crate::marshal::SPI_IOC_MAGIC;
use crate::marshal::SPI_IOC_NR_TRANSFER;
use crate::spidevioctl::SpidevTransfer;
use crate::spidevioctl::TRANSFER_RECORD_SIZE;
use crate::spidevioctl::raw_matches;
use crate::spidevioctl::spi_ioc_transfer;

verus! {

/// The command word of a transfer ioctl carrying `count` records: a
/// write whose payload is the whole record array.
pub open spec fn spec_message_op(count: int) -> u64 {
    spec_op(IoctlDir::Write, SPI_IOC_MAGIC, SPI_IOC_NR_TRANSFER, (count * 32) as u16)
}

/// Whether a batch of `count` descriptors can be dispatched at all:
/// its payload size must fit the command word's 14-bit size field.
pub open spec fn spec_batch_fits(count: int) -> bool {
    count * 32 < IOC_SIZE_LIMIT
}

/// The command word and record for dispatching one transfer: a write
/// ioctl whose payload is a single record.  On success the kernel has
/// already written received bytes through the record's receive address,
/// directly into the descriptor's receive buffer.
pub fn transfer_message(transfer: &SpidevTransfer) -> (r: (u64, spi_ioc_transfer))
    requires
        transfer.wf(),
    ensures
        r.0 == spec_message_op(1),
        raw_matches(*transfer, r.1),
{
    (op_write(SPI_IOC_MAGIC, SPI_IOC_NR_TRANSFER, TRANSFER_RECORD_SIZE), transfer.to_raw())
}

/// The command word and record array for dispatching a batch of
/// transfers in one ioctl: one record per descriptor, in descriptor
/// order, and a payload size of count times the record size.
///
/// The batch either fully succeeds or fails as a whole; the kernel
/// reports no per-segment diagnosis.
pub fn transfer_multiple_message(transfers: &Vec<SpidevTransfer>) -> (r: (
    u64,
    Vec<spi_ioc_transfer>,
))
    requires
        forall|i: int| 0 <= i < transfers@.len() ==> (#[trigger] transfers@[i]).wf(),
        spec_batch_fits(transfers@.len() as int),
    ensures
        r.0 == spec_message_op(transfers@.len() as int),
        r.1@.len() == transfers@.len(),
        forall|i: int| 0 <= i < transfers@.len() ==> raw_matches(transfers@[i], #[trigger] r.1@[i]),
{
    let count = transfers.len();
    let mut records: Vec<spi_ioc_transfer> = Vec::new();
    let mut i: usize = 0;
    while i < count
        invariant
            count == transfers@.len(),
            i <= count,
            records@.len() == i,
            forall|j: int| 0 <= j < transfers@.len() ==> (#[trigger] transfers@[j]).wf(),
            forall|j: int| 0 <= j < i ==> raw_matches(transfers@[j], #[trigger] records@[j]),
        decreases count - i,
    {
        records.push(transfers[i].to_raw());
        i += 1;
    }
    let size: u16 = (count as u16) * TRANSFER_RECORD_SIZE;
    (op_write(SPI_IOC_MAGIC, SPI_IOC_NR_TRANSFER, size), records)
}

/// Dispatch a batch only when its payload size fits the command word's
/// size field: `None` exactly when the batch is too long, with nothing
/// encoded and no truncated command word built.
pub fn try_transfer_multiple_message(transfers: &Vec<SpidevTransfer>) -> (r: Option<
    (u64, Vec<spi_ioc_transfer>),
>)
    requires
        forall|i: int| 0 <= i < transfers@.len() ==> (#[trigger] transfers@[i]).wf(),
    ensures
        r is Some <==> spec_batch_fits(transfers@.len() as int),
        r is Some ==> {
            &&& r.unwrap().0 == spec_message_op(transfers@.len() as int)
            &&& r.unwrap().1@.len() == transfers@.len()
            &&& forall|i: int|
                0 <= i < transfers@.len() ==> raw_matches(
                    transfers@[i],
                    #[trigger] r.unwrap().1@[i],
                )
        },
{
    if transfers.len() < 512 {
        Some(transfer_multiple_message(transfers))
    } else {
        None
    }
}

} // verus!
