//! Programs a Netrunner runs: Boosters and Defenders, which sit rezzed and
//! lend their effects, and Attackers, which strike once and derez.

pub mod active;
pub mod attackers;
