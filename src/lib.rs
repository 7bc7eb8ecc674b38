//! Arbitration and dispatch of shared, interrupt-driven peripherals among
//! isolated processes: a fair single-owner arbitrator for a motion sensor, a
//! direct multiplexer for asynchronous GPIO ports, and the decision logic of
//! an analog-to-digital converter.
pub mod return_code;
pub mod encoding;
pub mod upcall;
pub mod gpio_async;
pub mod ninedof;
pub mod adc;
