//! Rules engine for NET Architectures, netrunning actions and the
//! roll-versus-DV checks that drive them.

pub mod types;
pub mod text;
pub mod rng;
pub mod dice;
pub mod resolution;
pub mod error;
pub mod effects;
pub mod catalog;
pub mod character;
pub mod netrunning;
pub mod world;
pub mod combat;

pub use rand_chacha::ChaCha20Rng as Rng;
