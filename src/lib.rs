//! Cargo delay insurance: a policy ledger paying a fixed amount for each whole
//! day that a shipment arrives late, up to a cap, out of an escrowed token
//! balance. The ledger is a state machine; token transfers, the clock and the
//! caller's identity are supplied by the host around it.
//!
//! Timestamps, day counts and token amounts are held as `u128`. That covers
//! any realistic time and any supply of an 18-decimal token, but it is narrower
//! than the 256-bit words of an EVM host, which must refuse larger values.

pub mod types;
pub mod days;
pub mod ledger;
pub mod laws;
