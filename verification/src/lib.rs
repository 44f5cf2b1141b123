//! Userspace support for Linux SPI character devices (`/dev/spidevB.D`).
//!
//! This crate holds the pure, verified side of talking to the spidev
//! driver: encoding ioctl command words per the kernel's numbering
//! convention, turning an optional configuration into the exact sequence
//! of write ioctls that realizes it, and marshaling transfer descriptors
//! into the fixed-layout records the kernel's transfer ioctl expects.
//! Issuing the syscalls themselves is left to an unverified shell around
//! this library; everything it must get right about *what* to send is
//! stated and proved here.

pub mod dispatch;
pub mod ioctl;
pub mod marshal;
pub mod options;
pub mod spidevioctl;

pub use ioctl::op;
pub use ioctl::op_none;
pub use ioctl::op_read;
pub use ioctl::op_read_write;
pub use ioctl::op_write;
pub use ioctl::IoctlDir;

pub use options::SpiModeFlags;
pub use options::SpidevOptions;
pub use options::SPI_3WIRE;
pub use options::SPI_CPHA;
pub use options::SPI_CPOL;
pub use options::SPI_CS_HIGH;
pub use options::SPI_LOOP;
pub use options::SPI_LSB_FIRST;
pub use options::SPI_MODE_0;
pub use options::SPI_MODE_1;
pub use options::SPI_MODE_2;
pub use options::SPI_MODE_3;
pub use options::SPI_NO_CS;
pub use options::SPI_READY;
pub use options::SPI_RX_DUAL;
pub use options::SPI_RX_QUAD;
pub use options::SPI_TX_DUAL;
pub use options::SPI_TX_QUAD;

pub use spidevioctl::spi_ioc_transfer;
pub use spidevioctl::SpidevTransfer;

pub use marshal::configure_requests;
pub use marshal::ConfigPayload;
pub use marshal::ConfigRequest;

pub use dispatch::transfer_message;
pub use dispatch::transfer_multiple_message;
pub use dispatch::try_transfer_multiple_message;
