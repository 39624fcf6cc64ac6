//! Conversion of temperatures between the Celsius, Fahrenheit and Kelvin
//! scales.
//!
//! The library decides *which* arithmetic a conversion consists of
//! ([`temperature`]), proves what that arithmetic means over exact numbers
//! ([`exact`]), and decides how an interactive session reacts to each line of
//! input ([`session`]). Carrying the arithmetic out on machine numbers is left
//! to the caller, who walks through the stages of a [`temperature::Formula`]
//! in order.

pub mod exact;
pub mod session;
pub mod temperature;
