//! A verified asset-registry core: uniquely identified entities ("kitties")
//! with ownership, lineage, and a deterministic bitwise genetic crossover.
//!
//! The library keeps a single service object, [`pallet::Pallet`], holding the
//! identifier allocator, the entity map, the ownership map and the lineage
//! map. The three transition operations (`create`, `breed`, `transfer`) are
//! verified against a mathematical model of that state, [`pallet::State`].

pub mod combinator;
pub mod laws;
pub mod pallet;
pub mod randomness;
pub mod types;

pub use combinator::combine;
pub use pallet::Pallet;
pub use pallet::State;
pub use types::{AccountId, Error, Event, Kitty, KittyID};
