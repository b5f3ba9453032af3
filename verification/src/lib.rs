//! A verified SD-card driver core for SPI mode.
//!
//! The crate implements the physical and command layer of the SD Simplified
//! Specification in SPI mode: CRC7 command checksums, 6-byte command framing,
//! the polled initialization sequence, capacity-class detection, and 512-byte
//! single-block read and write transactions with bounded busy-waits.
//!
//! The driver is developed and proved against an in-memory simulated card
//! (`card::SimCard`), whose byte-level behaviour is itself verified.  Firmware
//! glue that binds the driver to real hardware lives outside the verified
//! library.

pub mod card;
pub mod crc;
pub mod device;
pub mod frame;
pub mod laws;
