//! Exports trade records from an exchange node's per-hour log files into an
//! external analytics table, one calendar day at a time.
//!
//! The verified core has three layers, composed top-down: the batching
//! driver ([`batching`]) walks an inclusive day range and decides when to
//! extract and when to upload; the day extractor ([`data_processor`]) turns
//! one day's hour files into its trades in a fixed, deterministic order; and
//! the record parser (also [`data_processor`]) turns one raw JSON line into
//! a validated [`data_processor::Trade`] or a typed rejection. Days, instants
//! and decimal quantities are carried as plain validated values ([`date`],
//! [`numeric`]); the one outside call of the core, JSON decoding, stands
//! behind a trusted wrapper in [`json`]. File reading, configuration loading
//! and the remote upload client are collaborators outside the core.

pub mod batching;
pub mod config;
pub mod data_processor;
pub mod date;
pub mod json;
pub mod numeric;
