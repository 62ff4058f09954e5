//! Verified core of a CAN / FDCAN / debugger-driven bootloader for STM32
//! microcontrollers: the wire format of the flashing protocol, the state
//! machines that drive a flashing session, and the address arithmetic that
//! decides what gets erased and written.

pub mod can;
pub mod debugger;
pub mod erase;
pub mod external_flash;
pub mod fdcan;
pub mod frame;
pub mod mpu;
pub mod octo_spi;
pub mod sector;
pub mod session;
pub mod session_laws;
pub mod wire;

pub use frame::{CanFrame, CanId};
