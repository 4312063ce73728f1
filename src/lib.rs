//! One-time bring-up of an STM32F303 board: a validated clock tree, pins
//! committed to their electrical roles, and typed handles for the LED, I²C,
//! SPI, chip-select and UART, handed out once from a take-once access token.
mod units;
pub mod clocks;
pub mod pins;
pub mod bus;
pub mod bringup;
