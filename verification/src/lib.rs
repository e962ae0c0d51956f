//! Generation and verification of SFV (Simple File Verification) checksum
//! listings.
//!
//! The crate holds the listing engine: the CRC32 checksum accumulator, the
//! parser for listing lines, the builders for the generated listing text, the
//! per-entry outcome classification and the report assembly with its
//! aggregate result.  File access and the command line live outside; the
//! engine works on plain values and states in its contracts exactly which
//! lines it produces and when a run counts as successful.

pub mod checksum;
pub mod config;
pub mod generator;
pub mod listing;
pub mod paths;
pub mod report;
pub mod sink;
pub mod textfmt;
pub mod verify;

pub use checksum::Crc32;
pub use config::Config;
pub use sink::Output;
