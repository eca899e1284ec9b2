//! Decoder for the configuration EEPROM image of a USB-to-Ethernet bridge
//! controller.
//!
//! An image is a slice of bytes. [`report::decode`] checks its signature and
//! walks the register map, [`render::report`] gives the same walk as text,
//! [`hexdump::image_dump`] dumps the whole image, and
//! [`descriptor::resolve_manufacturer`] takes the manufacturer ID string
//! descriptor from it. Nothing here reads files or prints.

pub mod bits;
pub mod descriptor;
pub mod error;
pub mod hexdump;
pub mod led;
pub mod registers;
pub mod render;
pub mod report;
pub mod text;
pub mod utf16;
