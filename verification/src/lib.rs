//! Normalises token-transfer events of Starknet receipts into flat JSON records.
//!
//! Raw events are classified against the event tables of the two supported
//! token standards, decoded into typed fields and rendered as text. Every
//! function carries a contract over the mathematical model of its data.
//!
//! - [`felt`], [`hex`], [`decimal`]: field elements, 256-bit integers and
//!   their text.
//! - [`cairo`], [`selector`], [`table`]: typed fields, selectors and the event
//!   tables of the two standards.
//! - [`classify`], [`render`], [`json`]: from a raw event to its record.
//! - [`batch`]: from the transactions of a block to their records.

pub mod batch;
pub mod cairo;
pub mod classify;
pub mod decimal;
pub mod event;
pub mod felt;
pub mod hex;
pub mod json;
pub mod render;
pub mod selector;
pub mod table;
pub mod text;
