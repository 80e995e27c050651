//! Verified core of the Pera wallet backend: request validation, money
//! movements, status lifecycles and the text rules that the HTTP handlers
//! apply between their database and provider calls.

pub mod accounts;
pub mod admin;
pub mod analytics;
pub mod auth;
pub mod bills;
pub mod bills_mock;
pub mod brails;
pub mod cards;
pub mod cash_deposit;
pub mod cash_withdrawal;
pub mod clock;
pub mod convert;
pub mod crypto;
pub mod crypto_transfers;
pub mod dto;
pub mod error;
pub mod ids;
pub mod ledger;
pub mod payment_flow;
pub mod security;
pub mod settings;
pub mod text;
