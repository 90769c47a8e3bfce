//! A lookup engine that maps known insult phrases to their canonical retorts.
//!
//! The registry holds five faction dictionaries and a pool of fallback
//! phrases. Resolution tries the factions in a fixed priority order, applies
//! the override rules of the two "novice" factions, and can fall back to a
//! randomly sampled phrase when nothing matches.

pub mod dict;
pub mod laws;
pub mod registry;
mod sampling;
