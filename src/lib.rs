//! Search for an account address derived from a base key, a seed and a
//! namespace whose text form carries a chosen prefix or suffix.
pub mod derive;
pub mod pattern;
pub mod seed;
pub mod stats;
pub mod search;
pub mod metal;
pub mod coordinator;
