//! A ledger-backed registry of kitties: minting, breeding, listing,
//! transferring and trading, each as one state transition.
//!
//! The registry holds the kitties, their owners and their listings. The
//! balances live in a ledger outside it: an operation that needs the
//! ledger returns the call to make, and is resumed with the reply.

pub mod genome;
pub mod laws;
pub mod ledger;
pub mod pallet;
pub mod state;
pub mod types;

pub use genome::{crossover, random_value};
pub use ledger::{BuyStage, Call, Pending, Reply, Step, TransferStage};
pub use pallet::Pallet;
pub use types::{AccountId, Balance, Config, Error, Event, Kitty, KittyIndex};
