//! A ticketed lottery kept as plain records: tickets are sold against a pooled
//! balance, an oracle names the winning ordinal, and the whole pool is paid to
//! the holder of that ticket. A small fixed-destination transfer sits beside it.
pub mod error;
pub mod fee_payer;
pub mod key;
pub mod laws;
pub mod lottery;

pub use error::ErrorCode;
pub use fee_payer::transfer_sol;
pub use key::Pubkey;
pub use lottery::{buy_ticket, initialise_lottery, pay_out_winner, pick_winner, Lottery, Ticket};

