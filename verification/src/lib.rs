//! State of two endless generators that an animation pulls from once per
//! frame: the trace of an Archimedean spiral and a cycling colour.
//!
//! Every real number that passes through this crate is held as the bit
//! pattern of its IEEE 754 encoding: an unsigned 64-bit integer for a double,
//! an unsigned 32-bit integer for a single. The crate stores, chains and hands
//! out such values and does no arithmetic on them: the caller computes each
//! new value and hands it over. The contracts say exactly what is kept and
//! what is handed out; they say nothing of how the caller computed.

pub mod archimedean_spiral;
pub mod rainbow;
