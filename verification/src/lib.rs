//! Keeps a solar inverter from feeding in during negative electricity prices.
//!
//! The crate holds the verified core of a one-shot control cycle: the
//! big-endian register codec for the inverter's 32-bit state value, the
//! validated device configuration, and the pure decision engine that maps a
//! spot-price series and an observed device state to a control action.
//! Opening the field-bus session, fetching the price series and issuing the
//! actual reads and writes are left to the surrounding program.

pub mod codec;
pub mod engine;
pub mod errors;
pub mod modbus_client;
