//! The plain values of the registry: identifiers, the kitty record, the
//! configuration, and the events and errors of its operations.

use vstd::prelude::*;

verus! {

/// Identifies an account of the balance ledger.
pub type AccountId = u64;

/// Identifies a kitty; assigned in increasing order from zero.
pub type KittyIndex = u32;

/// An amount of the ledger's currency.
pub type Balance = u128;

/// A kitty: its genome, fixed at minting.
#[derive(Clone, Copy, Debug, PartialEq, Eq)]
pub struct Kitty {
    pub dna: [u8; 16],
}

/// What the host fixes for a registry.
#[derive(Clone, Copy, Debug, PartialEq, Eq)]
pub struct Config {
    /// Reserved against an owner's balance for each kitty owned.
    pub stake_for_each_kitty: Balance,
    /// The largest value the kitty counter may take.
    pub max_kitty_index: KittyIndex,
}

/// What a successful operation reports.
#[derive(Clone, Copy, Debug, PartialEq, Eq)]
pub enum Event {
    /// A kitty was minted: its owner and identifier.
    KittyCreate(AccountId, KittyIndex),
    /// A kitty changed hands: giver, receiver, identifier.
    KittyTransfer(AccountId, AccountId, KittyIndex),
    /// A listing was set or cleared: owner, identifier, price.
    KittyListed(AccountId, KittyIndex, Option<Balance>),
    /// A kitty was sold: buyer, seller, identifier.
    KittyTrade(AccountId, AccountId, KittyIndex),
}

/// Why an operation was refused.
#[derive(Clone, Copy, Debug, PartialEq, Eq)]
pub enum Error {
    /// The counter has reached its maximum; no kitty can be minted.
    KittiesCountOverflow,
    /// The caller does not own the kitty.
    NotOwner,
    /// Both parents are the same kitty.
    SameParentIndex,
    /// No kitty has this identifier.
    InvalidKittyIndex,
    /// The buyer already owns the kitty.
    BuyerIsOwner,
    /// The kitty has no price.
    KittyNotForSell,
    /// The buyer cannot pay the price on top of the stake.
    NotEnoughBalanceForBuying,
    /// The ledger refused to reserve the stake.
    NotEnoughBalanceForStaking,
}

} // verus!
