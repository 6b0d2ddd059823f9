//! A terminal-oriented ledger of trading positions.
//!
//! A position is a named holding built from buy and sell orders; the library
//! keeps the position's net amount, average price and accumulated income in
//! step with its order list, sorts and paginates positions for display, and
//! converts between the in-memory model and its storage representation.
//! Monetary quantities are fixed-point numbers with four decimal places.

pub mod clock;
pub mod commands;
pub mod console;
pub mod constants;
pub mod fixed;
pub mod models;
pub mod options;
pub mod pagination;
pub mod positions;
pub mod sorting;
pub mod storage;
pub mod table;
pub mod text;
