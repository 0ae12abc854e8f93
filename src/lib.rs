//! Extraction of the square icon embedded in handheld-console cartridge images and
//! installable packages, decoded into a plain RGBA pixel buffer.

pub mod bytes;
pub mod cci;
pub mod cia;
pub mod color;
pub mod content;
pub mod cxi;
pub mod icon;
pub mod n3ds_errors;
pub mod nds;
pub mod smdh;

pub use color::{Bgr555, Rgb555, Rgb565, Rgb888};
