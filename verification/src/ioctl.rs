//! Encoding of ioctl command words.
//!
//! Linux ioctl operation numbers pack four fields into one integer:
//! the operation number, a driver type identifier, the payload size in
//! bytes, and the transfer direction.  The functions here reproduce the
//! kernel's `_IOC` / `_IO` / `_IOR` / `_IOW` / `_IOWR` macros, with the
//! packing proved exact and injective over the documented field widths.

use vstd::prelude::*;

verus! {

/// Number of bits for the operation-number field.
pub const IOC_NRBITS: u64 = 8;
/// Number of bits for the type-identifier field.
pub const IOC_TYPEBITS: u64 = 8;
/// Number of bits for the payload-size field.
pub const IOC_SIZEBITS: u64 = 14;
/// Number of bits for the direction field.
pub const IOC_DIRBITS: u64 = 2;

/// Shift of the operation-number field.
pub const IOC_NRSHIFT: u64 = 0;
/// Shift of the type-identifier field: just above the operation number.
pub const IOC_TYPESHIFT: u64 = 8;
/// Shift of the payload-size field: just above the type identifier.
pub const IOC_SIZESHIFT: u64 = 16;
/// Shift of the direction field: just above the payload size.
pub const IOC_DIRSHIFT: u64 = 30;

/// Largest value the 14-bit payload-size field can carry, plus one.
pub const IOC_SIZE_LIMIT: u16 = 0x4000;

/// Direction of an ioctl operation: what the kernel does with the data
/// pointer passed beside the command word.
#[derive(Clone, Copy, PartialEq, Eq, Structural, Debug)]
pub enum IoctlDir {
    /// The data pointer is not used; the command alone suffices.
    NoData,
    /// The kernel consumes the data behind the pointer.
    Write,
    /// The kernel populates the memory behind the pointer.
    Read,
    /// The kernel both consumes and populates the pointed-to memory.
    ReadWrite,
}

/// The two-bit pattern of a direction, as the kernel numbers them;
/// read-write is the bitwise OR of read and write.
pub open spec fn spec_dir_bits(dir: IoctlDir) -> u64 {
    match dir {
        IoctlDir::NoData => 0,
        IoctlDir::Write => 1,
        IoctlDir::Read => 2,
        IoctlDir::ReadWrite => 3,
    }
}

/// A command word from raw field values: non-overlapping bit fields,
/// matching the kernel's `_IOC(dir, type, nr, size)` expansion.
pub open spec fn spec_op_bits(dir_bits: u64, ioctl_type: u8, nr: u8, size: u16) -> u64 {
    (dir_bits << IOC_DIRSHIFT) | ((size as u64) << IOC_SIZESHIFT)
        | ((ioctl_type as u64) << IOC_TYPESHIFT) | ((nr as u64) << IOC_NRSHIFT)
}

/// A command word for a direction and the three remaining fields.
pub open spec fn spec_op(dir: IoctlDir, ioctl_type: u8, nr: u8, size: u16) -> u64 {
    spec_op_bits(spec_dir_bits(dir), ioctl_type, nr, size)
}

/// The two direction bits of `dir` as an executable value.
pub fn dir_bits(dir: IoctlDir) -> (r: u64)
    ensures
        r == spec_dir_bits(dir),
{
    match dir {
        IoctlDir::NoData => 0,
        IoctlDir::Write => 1,
        IoctlDir::Read => 2,
        IoctlDir::ReadWrite => 3,
    }
}

/// Build an ioctl command word with the provided parameters, for ioctls
/// following the kernel's numbering convention.
///
/// This provides the same functionality as the Linux `_IOC` macro.  A
/// payload size that does not fit the 14-bit size field would corrupt
/// the neighbouring fields, so it is excluded up front.
pub fn op(dir: IoctlDir, ioctl_type: u8, nr: u8, size: u16) -> (r: u64)
    requires
        size < IOC_SIZE_LIMIT,
    ensures
        r == spec_op(dir, ioctl_type, nr, size),
{
    let d: u64 = dir_bits(dir);
    (d << IOC_DIRSHIFT) | ((size as u64) << IOC_SIZESHIFT)
        | ((ioctl_type as u64) << IOC_TYPESHIFT) | ((nr as u64) << IOC_NRSHIFT)
}

/// Build a command word whose data pointer is unused.
///
/// This provides the same functionality as the Linux `_IO` macro.
pub fn op_none(ioctl_type: u8, nr: u8) -> (r: u64)
    ensures
        r == spec_op(IoctlDir::NoData, ioctl_type, nr, 0),
{
    op(IoctlDir::NoData, ioctl_type, nr, 0)
}

/// Build a command word whose data pointer the kernel populates.
///
/// This provides the same functionality as the Linux `_IOR` macro.
pub fn op_read(ioctl_type: u8, nr: u8, size: u16) -> (r: u64)
    requires
        size < IOC_SIZE_LIMIT,
    ensures
        r == spec_op(IoctlDir::Read, ioctl_type, nr, size),
{
    op(IoctlDir::Read, ioctl_type, nr, size)
}

/// Build a command word whose data pointer the kernel consumes.
///
/// This provides the same functionality as the Linux `_IOW` macro.
pub fn op_write(ioctl_type: u8, nr: u8, size: u16) -> (r: u64)
    requires
        size < IOC_SIZE_LIMIT,
    ensures
        r == spec_op(IoctlDir::Write, ioctl_type, nr, size),
{
    op(IoctlDir::Write, ioctl_type, nr, size)
}

/// Build a command word whose data pointer the kernel both consumes and
/// populates.
///
/// This provides the same functionality as the Linux `_IOWR` macro.
pub fn op_read_write(ioctl_type: u8, nr: u8, size: u16) -> (r: u64)
    requires
        size < IOC_SIZE_LIMIT,
    ensures
        r == spec_op(IoctlDir::ReadWrite, ioctl_type, nr, size),
{
    op(IoctlDir::ReadWrite, ioctl_type, nr, size)
}

/// Every field of a command word can be recovered from the word alone,
/// so the encoding never conflates two distinct operations: it is a
/// bijection between its field values and the words it produces.
pub proof fn lemma_op_injective(
    dir1: IoctlDir, ioctl_type1: u8, nr1: u8, size1: u16,
    dir2: IoctlDir, ioctl_type2: u8, nr2: u8, size2: u16,
)
    requires
        size1 < IOC_SIZE_LIMIT,
        size2 < IOC_SIZE_LIMIT,
        spec_op(dir1, ioctl_type1, nr1, size1) == spec_op(dir2, ioctl_type2, nr2, size2),
    ensures
        dir1 == dir2,
        ioctl_type1 == ioctl_type2,
        nr1 == nr2,
        size1 == size2,
{
    let d1 = spec_dir_bits(dir1);
    let d2 = spec_dir_bits(dir2);
    assert(d1 < 4 && d2 < 4);
    assert(spec_op_bits(d1, ioctl_type1, nr1, size1)
        == ((d1 << 30) | ((size1 as u64) << 16) | ((ioctl_type1 as u64) << 8) | ((nr1 as u64) << 0)));
    assert(spec_op_bits(d2, ioctl_type2, nr2, size2)
        == ((d2 << 30) | ((size2 as u64) << 16) | ((ioctl_type2 as u64) << 8) | ((nr2 as u64) << 0)));
    assert((
        ((d1 << 30) | ((size1 as u64) << 16) | ((ioctl_type1 as u64) << 8) | ((nr1 as u64) << 0))
            == ((d2 << 30) | ((size2 as u64) << 16) | ((ioctl_type2 as u64) << 8) | ((nr2 as u64) << 0))
        && d1 < 4 && d2 < 4 && size1 < 0x4000 && size2 < 0x4000)
        ==> (d1 == d2 && ioctl_type1 == ioctl_type2 && nr1 == nr2 && size1 == size2))
        by (bit_vector);
}

} // verus!

