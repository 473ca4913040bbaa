//! The instructions of the escrow program.
pub mod create_trade;
pub mod cancel_trade;
