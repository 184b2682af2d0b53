//! Host-side driver logic for RX888-family software-defined radios.

pub mod discovery;
pub mod error;
pub mod gain;
pub mod interface;
pub mod lanes;
pub mod run;
pub mod sddc;
pub mod sdr;
pub mod stream;
pub mod task;
pub mod text;
pub mod usb;

pub use crate::error::SdrError;
pub use crate::sdr::Radio;
