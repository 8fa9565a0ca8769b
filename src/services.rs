//! Badge families: where each takes its value from, and how it shows it.

pub mod codestyles;
pub mod crates;
pub mod github;
pub mod licenses;
