//! The registry as a mathematical value, and its operations as
//! functions on that value. The executable registry is specified
//! against these.

use crate::ledger::{BuyStage, Call, Pending, Reply, Step, TransferStage};
use crate::types::{AccountId, Balance, Config, Error, Event, Kitty, KittyIndex};
use vstd::prelude::*;

verus! {

/// What a registry holds.
pub struct State {
    pub config: Config,
    /// The next identifier to assign; unset before the first minting.
    pub kitty_count: Option<KittyIndex>,
    pub kitties: Map<KittyIndex, Kitty>,
    pub owner: Map<KittyIndex, AccountId>,
    /// A kitty may be listed without a price; only a price can be bought.
    pub list_for_sale: Map<KittyIndex, Option<Balance>>,
}

impl State {
    /// A registry without kitties whose counter is `kitty_count`.
    pub open spec fn empty(config: Config, kitty_count: Option<KittyIndex>) -> State {
        State {
            config,
            kitty_count,
            kitties: Map::empty(),
            owner: Map::empty(),
            list_for_sale: Map::empty(),
        }
    }

    /// The stake reserved for each kitty.
    pub open spec fn stake(self) -> Balance {
        self.config.stake_for_each_kitty
    }

    /// The identifier that the next minted kitty gets.
    pub open spec fn next_index(self) -> KittyIndex {
        match self.kitty_count {
            Some(count) => count,
            None => 0,
        }
    }

    /// Whether the counter cannot be advanced any more.
    pub open spec fn exhausted(self) -> bool {
        self.next_index() == self.config.max_kitty_index
    }

    pub open spec fn kitty(self, kitty_id: KittyIndex) -> Option<Kitty> {
        if self.kitties.contains_key(kitty_id) {
            Some(self.kitties[kitty_id])
        } else {
            None
        }
    }

    pub open spec fn owner_of(self, kitty_id: KittyIndex) -> Option<AccountId> {
        if self.owner.contains_key(kitty_id) {
            Some(self.owner[kitty_id])
        } else {
            None
        }
    }

    /// The price at which a kitty can be bought, if it has one.
    pub open spec fn price_of(self, kitty_id: KittyIndex) -> Option<Balance> {
        if self.list_for_sale.contains_key(kitty_id) {
            self.list_for_sale[kitty_id]
        } else {
            None
        }
    }

    /// The kitties that `who` owns.
    pub open spec fn kitties_of(self, who: AccountId) -> Set<KittyIndex> {
        Set::new(|id: KittyIndex| self.owner_of(id) == Some(who))
    }

    /// Every kitty has an owner and every owner a kitty; every identifier
    /// in use lies below the counter, which has not passed its maximum;
    /// only kitties that exist are listed.
    pub open spec fn inv(self) -> bool {
        &&& self.kitties.dom() == self.owner.dom()
        &&& self.next_index() <= self.config.max_kitty_index
        &&& forall|id: KittyIndex| #[trigger]
            self.owner.contains_key(id) ==> id < self.next_index()
        &&& forall|id: KittyIndex| #[trigger]
            self.list_for_sale.contains_key(id) ==> self.owner.contains_key(id)
    }

    /// The registry after a kitty with genome `dna` was minted for `owner`.
    pub open spec fn minted(self, owner: AccountId, dna: [u8; 16]) -> State {
        State {
            kitty_count: Some((self.next_index() + 1) as KittyIndex),
            kitties: self.kitties.insert(self.next_index(), Kitty { dna }),
            owner: self.owner.insert(self.next_index(), owner),
            ..self
        }
    }

    /// The registry after it took over a kitty with its owner and price.
    pub open spec fn restored(
        self,
        kitty_id: KittyIndex,
        kitty: Kitty,
        owner: AccountId,
        price: Option<Balance>,
    ) -> State {
        State {
            kitties: self.kitties.insert(kitty_id, kitty),
            owner: self.owner.insert(kitty_id, owner),
            list_for_sale: match price {
                Some(_) => self.list_for_sale.insert(kitty_id, price),
                None => self.list_for_sale.remove(kitty_id),
            },
            ..self
        }
    }

    /// The registry after the listing of a kitty was set to `price`.
    pub open spec fn listed(self, kitty_id: KittyIndex, price: Option<Balance>) -> State {
        State { list_for_sale: self.list_for_sale.insert(kitty_id, price), ..self }
    }

    /// The registry after a kitty was given to `new_owner`. A listing stays.
    pub open spec fn given(self, kitty_id: KittyIndex, new_owner: AccountId) -> State {
        State { owner: self.owner.insert(kitty_id, new_owner), ..self }
    }

    /// The registry after `buyer` bought a kitty: it is theirs and no
    /// longer listed.
    pub open spec fn sold(self, kitty_id: KittyIndex, buyer: AccountId) -> State {
        State {
            owner: self.owner.insert(kitty_id, buyer),
            list_for_sale: self.list_for_sale.remove(kitty_id),
            ..self
        }
    }

    /// Starts a minting: refused when the counter is exhausted, else the
    /// stake of `owner` is to be reserved.
    pub open spec fn mint(self, owner: AccountId, dna: [u8; 16]) -> Step {
        if self.exhausted() {
            Step::Done(Err(Error::KittiesCountOverflow))
        } else {
            Step::Call(
                Call::Reserve { who: owner, amount: self.stake() },
                Pending::Mint { owner, dna },
            )
        }
    }

    /// Lists a kitty at `price`, or without one; only its owner may.
    pub open spec fn sell(self, who: AccountId, kitty_id: KittyIndex, price: Option<Balance>) -> (
        State,
        Result<Event, Error>,
    ) {
        if self.owner_of(kitty_id) == Some(who) {
            (self.listed(kitty_id, price), Ok(Event::KittyListed(who, kitty_id, price)))
        } else {
            (self, Err(Error::NotOwner))
        }
    }

    /// Starts a transfer: only the owner may; the stake of the receiver is
    /// to be reserved first.
    pub open spec fn transfer(
        self,
        who: AccountId,
        new_owner: AccountId,
        kitty_id: KittyIndex,
    ) -> Step {
        if self.owner_of(kitty_id) == Some(who) {
            Step::Call(
                Call::Reserve { who: new_owner, amount: self.stake() },
                Pending::Transfer { from: who, to: new_owner, kitty_id, stage: TransferStage::Stake },
            )
        } else {
            Step::Done(Err(Error::NotOwner))
        }
    }

    /// Whom `buyer` would buy a kitty from and at what price, or why they
    /// cannot: the kitty has no owner, is their own, or has no price.
    pub open spec fn buy_check(self, buyer: AccountId, kitty_id: KittyIndex) -> Result<
        (AccountId, Balance),
        Error,
    > {
        match self.owner_of(kitty_id) {
            None => Err(Error::InvalidKittyIndex),
            Some(seller) => if seller == buyer {
                Err(Error::BuyerIsOwner)
            } else {
                match self.price_of(kitty_id) {
                    None => Err(Error::KittyNotForSell),
                    Some(price) => Ok((seller, price)),
                }
            },
        }
    }

    /// Starts a purchase: where it is possible, the buyer's balance is to
    /// be read first.
    pub open spec fn buy(self, buyer: AccountId, kitty_id: KittyIndex) -> Step {
        match self.buy_check(buyer, kitty_id) {
            Err(error) => Step::Done(Err(error)),
            Ok(_) => Step::Call(
                Call::FreeBalance { who: buyer },
                Pending::Buy { buyer, kitty_id, stage: BuyStage::Balance },
            ),
        }
    }

    /// Goes on with a minting once the ledger has answered.
    pub open spec fn resume_mint(self, owner: AccountId, dna: [u8; 16], reply: Reply) -> (
        State,
        Step,
    ) {
        if self.exhausted() {
            (self, Step::Done(Err(Error::KittiesCountOverflow)))
        } else if !reply.accepted() {
            (self, Step::Done(Err(Error::NotEnoughBalanceForStaking)))
        } else {
            (
                self.minted(owner, dna),
                Step::Done(Ok(Event::KittyCreate(owner, self.next_index()))),
            )
        }
    }

    /// Goes on with a transfer once the ledger has answered. The giver's
    /// stake is released only after the receiver's was reserved, and the
    /// kitty changes hands only after both.
    pub open spec fn resume_transfer(
        self,
        from: AccountId,
        to: AccountId,
        kitty_id: KittyIndex,
        stage: TransferStage,
        reply: Reply,
    ) -> (State, Step) {
        if self.owner_of(kitty_id) != Some(from) {
            (self, Step::Done(Err(Error::NotOwner)))
        } else {
            match stage {
                TransferStage::Stake => if reply.accepted() {
                    (
                        self,
                        Step::Call(
                            Call::Unreserve { who: from, amount: self.stake() },
                            Pending::Transfer { from, to, kitty_id, stage: TransferStage::Release },
                        ),
                    )
                } else {
                    (self, Step::Done(Err(Error::NotEnoughBalanceForStaking)))
                },
                TransferStage::Release => (
                    self.given(kitty_id, to),
                    Step::Done(Ok(Event::KittyTransfer(from, to, kitty_id))),
                ),
            }
        }
    }

    /// Goes on with a purchase once the ledger has answered. The order is:
    /// the balance must exceed price and stake together; the buyer's stake
    /// is reserved; the seller's is released; the price is paid; then the
    /// kitty changes hands and its listing is cleared.
    pub open spec fn resume_buy(
        self,
        buyer: AccountId,
        kitty_id: KittyIndex,
        stage: BuyStage,
        reply: Reply,
    ) -> (State, Step) {
        match self.buy_check(buyer, kitty_id) {
            Err(error) => (self, Step::Done(Err(error))),
            Ok((seller, price)) => match stage {
                BuyStage::Balance => if reply.balance() > price + self.stake() {
                    (
                        self,
                        Step::Call(
                            Call::Reserve { who: buyer, amount: self.stake() },
                            Pending::Buy { buyer, kitty_id, stage: BuyStage::Stake },
                        ),
                    )
                } else {
                    (self, Step::Done(Err(Error::NotEnoughBalanceForBuying)))
                },
                BuyStage::Stake => if reply.accepted() {
                    (
                        self,
                        Step::Call(
                            Call::Unreserve { who: seller, amount: self.stake() },
                            Pending::Buy { buyer, kitty_id, stage: BuyStage::Release },
                        ),
                    )
                } else {
                    (self, Step::Done(Err(Error::NotEnoughBalanceForStaking)))
                },
                BuyStage::Release => (
                    self,
                    Step::Call(
                        Call::Transfer { from: buyer, to: seller, amount: price },
                        Pending::Buy { buyer, kitty_id, stage: BuyStage::Payment },
                    ),
                ),
                BuyStage::Payment => if reply.accepted() {
                    (
                        self.sold(kitty_id, buyer),
                        Step::Done(Ok(Event::KittyTrade(buyer, seller, kitty_id))),
                    )
                } else {
                    (self, Step::Done(Err(Error::NotEnoughBalanceForBuying)))
                },
            },
        }
    }

    /// Goes on with a waiting operation once the ledger has answered.
    pub open spec fn resume(self, pending: Pending, reply: Reply) -> (State, Step) {
        match pending {
            Pending::Mint { owner, dna } => self.resume_mint(owner, dna, reply),
            Pending::Transfer { from, to, kitty_id, stage } => self.resume_transfer(
                from,
                to,
                kitty_id,
                stage,
                reply,
            ),
            Pending::Buy { buyer, kitty_id, stage } => self.resume_buy(
                buyer,
                kitty_id,
                stage,
                reply,
            ),
        }
    }
}

} // verus!
