//! Quote decoding and position analysis for a stock profit calculator.
//!
//! The library reads a quote out of the text that the quote vendor answers
//! with, decides how a fetch proceeds when attempts fail, and derives from a
//! holding and a price the figures a holder acts on: target and stop-loss
//! price, profit, distances, risk/reward ratio, scale and status.
//!
//! Numbers are exact decimals with six places (`decimal`, `numeral`). The
//! library sends no request and touches no file: `api`, `storage` and
//! `notification` say what is to be sent, written and shown, and the caller
//! does it.

pub mod api;
pub mod calculator;
pub mod cli;
pub mod config;
pub mod decimal;
pub mod error;
pub mod models;
pub mod notification;
pub mod numeral;
pub mod storage;
pub mod text;
