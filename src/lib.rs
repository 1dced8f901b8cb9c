pub mod delegation;
pub mod escrow;
pub mod key;
pub mod market;
pub mod pda;
pub mod sale;
pub mod state;
pub mod store;
pub mod trade;
pub mod laws;
