//! Netrunning: NET Architectures, the state of a netrun in progress, and
//! the actions a Netrunner and the Architecture's defenders take.

pub mod abilities;
pub mod black_ice;
pub mod demon;
pub mod actions;
pub mod architecture;
pub mod integration;
pub mod programs;
pub mod state;
pub mod virus;
