//! A registry of uniquely numbered collectible creatures: each kitty carries a
//! sixteen-byte genome and has exactly one owner. Kitties are created, handed
//! from one account to another, and bred from two parents.

pub mod account;
pub mod entropy;
pub mod events;
pub mod genome;
pub mod history;
pub mod pallet;
pub mod registry;

pub use account::AccountId;
pub use entropy::Entropy;
pub use events::{Error, Event};
pub use genome::Kitty;
pub use pallet::Pallet;
pub use registry::{KittyIndex, Registry, RegistryView};
