//! An in-memory ledger: named accounts with integer balances, money transfers
//! between them, and an append-only log of every attempted transfer.

pub mod account_map;
pub mod accounts;
pub mod theorems;
pub mod engine;
