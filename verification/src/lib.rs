//! Reward economy of a single-user gacha server: pity counters, the mapping
//! from a drawn rarity to currency and vouchers, timer payouts, the daily
//! quest cycle and the voucher store.

pub mod daily;
pub mod errors;
pub mod isrdo;
pub mod laws;
pub mod ledger;
pub mod outside;
pub mod pull;
pub mod rarity;
pub mod store;
pub mod timer;
pub mod voucher;
