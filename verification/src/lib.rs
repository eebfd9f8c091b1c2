//! Block sealing and validation behind one interface, with a proof-of-work
//! engine as its first implementation.
//!
//! A caller that produces blocks hands a partial header to an engine's `seal`
//! and gets the sealed header back; a caller that receives blocks hands a
//! received header to `validate`. Every function here is pure: an engine holds
//! nothing but its own immutable configuration.

pub mod consensus;
pub mod hashing;
pub mod header;
pub mod pow;

pub use crate::consensus::Consensus;
pub use crate::hashing::hash;
pub use crate::header::Header;
pub use crate::pow::{moderate_difficulty_pow, trivial_always_valid_pow, Pow};
