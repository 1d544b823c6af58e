//! Binding of the STM32F4 USB OTG blocks (full speed and high speed) to a
//! generic USB device-controller driver, with a verified model of the
//! clock and reset sequence that brings a block up.
pub mod rcc;
pub mod gpio;
pub mod otg_fs;
pub mod otg_hs;
