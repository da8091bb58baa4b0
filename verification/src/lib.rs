//! Conversion of binary data into hyphen-joined four-letter words and back.
//!
//! Every byte has one word; the words of the data are followed by the word
//! of its CRC-8, so that a changed word or two exchanged neighbours are
//! detected when the text is decoded. `[0x42, 0x43]` reads
//! `flea-flux-full`.
//!
//! - [`crc`]: the CRC-8, defined as a polynomial division and computed with
//!   a table.
//! - [`wordlist`]: the word of every byte and the hash table that leads from
//!   a word back to its byte.
//! - [`text`]: splitting and joining at hyphens, and ASCII case.
//! - [`error`]: the faults of a text and the error that reports them.
//! - [`codec`]: the four conversions and what they compute.
//! - [`laws`]: what holds of the conversions together.
pub mod codec;
pub mod crc;
pub mod error;
pub mod laws;
pub mod text;
pub mod wordlist;

pub use codec::bytes_to_words;
pub use codec::convert_from_pricklybird;
pub use codec::convert_to_pricklybird;
pub use codec::words_to_bytes;
pub use crc::calculate_crc8;
pub use crc::CRC8_TABLE;
pub use error::DecodeError;
pub use error::Fault;
