//! The Tiger hash function: a streaming digest that maps any byte sequence to
//! a 24-byte fingerprint.

pub mod buffer;
pub mod compress;
pub mod engine;
pub mod tables;
pub mod words;

pub use engine::Tiger;
