//! A ledger of unique kitties, their owners and their optional sale prices.
//!
//! The ledger is an explicit state object, [`Pallet`]. Every operation on it
//! checks all of its conditions first and then either applies all of its
//! changes or none of them; what it changes is stated over the mathematical
//! model of the ledger, [`Ledger`].

pub mod dna;
pub mod impls;
pub mod laws;
pub mod model;
pub mod owned;
pub mod pallet;
pub mod registry;
pub mod types;

pub use model::Ledger;
pub use owned::MAX_OWNED;
pub use pallet::Pallet;
pub use types::{AccountId, Balance, BlockContext, Dna, Error, Event, Kitty, Payment};
