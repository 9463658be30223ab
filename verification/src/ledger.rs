//! The boundary to the balance ledger. The registry never touches
//! balances itself: an operation names the ledger call it needs next,
//! the host performs it, and the operation resumes with the reply.

use crate::types::{AccountId, Balance, Error, Event, KittyIndex};
use vstd::prelude::*;

verus! {

/// A call that the host is to make on the balance ledger.
#[derive(Clone, Copy, Debug, PartialEq, Eq)]
pub enum Call {
    /// Ask for the spendable balance of `who`.
    FreeBalance { who: AccountId },
    /// Move `amount` of `who` from spendable to reserved; may be refused.
    Reserve { who: AccountId, amount: Balance },
    /// Move `amount` of `who` from reserved back to spendable.
    Unreserve { who: AccountId, amount: Balance },
    /// Pay `amount` from `from` to `to`, keeping the payer's account alive;
    /// may be refused.
    Transfer { from: AccountId, to: AccountId, amount: Balance },
}

/// What the ledger answered.
#[derive(Clone, Copy, Debug, PartialEq, Eq)]
pub enum Reply {
    /// The spendable balance asked for.
    Balance(Balance),
    /// The call was carried out.
    Accepted,
    /// The call was refused and changed nothing.
    Refused,
}

impl Reply {
    /// Whether the ledger carried the call out.
    pub open spec fn accepted(self) -> bool {
        self is Accepted
    }

    /// The balance that the reply reports; zero where it reports none.
    pub open spec fn balance(self) -> Balance {
        match self {
            Reply::Balance(free) => free,
            _ => 0,
        }
    }

    /// Whether the ledger carried the call out.
    pub fn is_accepted(&self) -> (accepted: bool)
        ensures
            accepted == self.accepted(),
    {
        match self {
            Reply::Accepted => true,
            _ => false,
        }
    }

    /// The balance that the reply reports; zero where it reports none.
    pub fn reported_balance(&self) -> (free: Balance)
        ensures
            free == self.balance(),
    {
        match self {
            Reply::Balance(free) => *free,
            _ => 0,
        }
    }
}

/// How far a transfer has come: which call it waits for.
#[derive(Clone, Copy, Debug, PartialEq, Eq)]
pub enum TransferStage {
    /// The stake of the receiver is being reserved.
    Stake,
    /// The stake of the giver is being released.
    Release,
}

/// How far a purchase has come: which call it waits for.
#[derive(Clone, Copy, Debug, PartialEq, Eq)]
pub enum BuyStage {
    /// The buyer's spendable balance is being read.
    Balance,
    /// The buyer's stake is being reserved.
    Stake,
    /// The seller's stake is being released.
    Release,
    /// The price is being paid.
    Payment,
}

/// An operation that waits for the ledger, with what it needs to go on.
#[allow(inconsistent_fields)]
#[derive(Clone, Copy, Debug, PartialEq, Eq)]
pub enum Pending {
    /// A minting for `owner`; the stake is being reserved.
    Mint { owner: AccountId, dna: [u8; 16] },
    /// A transfer of a kitty from `from` to `to`.
    Transfer { from: AccountId, to: AccountId, kitty_id: KittyIndex, stage: TransferStage },
    /// A purchase of a kitty by `buyer`.
    Buy { buyer: AccountId, kitty_id: KittyIndex, stage: BuyStage },
}

impl Pending {
    /// How many ledger calls the operation may still wait for, the one
    /// it waits for now included.
    pub open spec fn calls_left(self) -> nat {
        match self {
            Pending::Mint { .. } => 1,
            Pending::Transfer { stage: TransferStage::Stake, .. } => 2,
            Pending::Transfer { stage: TransferStage::Release, .. } => 1,
            Pending::Buy { stage: BuyStage::Balance, .. } => 4,
            Pending::Buy { stage: BuyStage::Stake, .. } => 3,
            Pending::Buy { stage: BuyStage::Release, .. } => 2,
            Pending::Buy { stage: BuyStage::Payment, .. } => 1,
        }
    }
}

/// Where an operation stands after one step.
#[derive(Clone, Copy, Debug, PartialEq, Eq)]
pub enum Step {
    /// The host makes the call and resumes the operation with the reply.
    Call(Call, Pending),
    /// The operation has ended.
    Done(Result<Event, Error>),
}

} // verus!
