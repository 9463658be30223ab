//! The executable registry. Operations that need the balance ledger
//! return the call to make and are resumed with its reply; nothing is
//! written before the last call of an operation has been answered.

use crate::genome::{crossover, crossover_spec, random_value, random_value_spec};
use crate::ledger::{BuyStage, Call, Pending, Reply, Step, TransferStage};
use crate::state::State;
use crate::types::{AccountId, Balance, Config, Error, Event, Kitty, KittyIndex};
use std::collections::HashMap;
use vstd::prelude::*;
use vstd::std_specs::hash::group_hash_axioms;

verus! {

broadcast use group_hash_axioms;

/// The registry of kitties, their owners and their listings.
pub struct Pallet {
    config: Config,
    kitty_count: Option<KittyIndex>,
    kitties: HashMap<KittyIndex, Kitty>,
    owner: HashMap<KittyIndex, AccountId>,
    list_for_sale: HashMap<KittyIndex, Option<Balance>>,
}

impl View for Pallet {
    type V = State;

    closed spec fn view(&self) -> State {
        State {
            config: self.config,
            kitty_count: self.kitty_count,
            kitties: self.kitties@,
            owner: self.owner@,
            list_for_sale: self.list_for_sale@,
        }
    }
}

impl Pallet {
    /// A registry without kitties whose counter is unset.
    pub fn new(config: Config) -> (pallet: Pallet)
        ensures
            pallet@ == State::empty(config, None),
            pallet@.inv(),
    {
        Pallet {
            config,
            kitty_count: None,
            kitties: HashMap::new(),
            owner: HashMap::new(),
            list_for_sale: HashMap::new(),
        }
    }

    /// A registry without kitties whose counter stands at `kitty_count`,
    /// where that does not pass the configured maximum.
    pub fn with_kitty_count(config: Config, kitty_count: KittyIndex) -> (pallet: Option<Pallet>)
        ensures
            kitty_count <= config.max_kitty_index <==> pallet is Some,
            pallet matches Some(p) ==> p@ == State::empty(config, Some(kitty_count)) && p@.inv(),
    {
        if kitty_count <= config.max_kitty_index {
            Some(
                Pallet {
                    config,
                    kitty_count: Some(kitty_count),
                    kitties: HashMap::new(),
                    owner: HashMap::new(),
                    list_for_sale: HashMap::new(),
                },
            )
        } else {
            None
        }
    }

    /// Takes over a kitty that was minted before, with its owner and its
    /// price if it has one, where its identifier lies below the counter;
    /// a kitty held under that identifier is replaced. Else nothing is
    /// written.
    pub fn restore(
        &mut self,
        kitty_id: KittyIndex,
        kitty: Kitty,
        owner: AccountId,
        price: Option<Balance>,
    ) -> (restored: bool)
        requires
            old(self)@.inv(),
        ensures
            final(self)@.inv(),
            restored == (kitty_id < old(self)@.next_index()),
            restored ==> final(self)@ == old(self)@.restored(kitty_id, kitty, owner, price),
            !restored ==> final(self)@ == old(self)@,
    {
        if kitty_id < self.next_index() {
            self.kitties.insert(kitty_id, kitty);
            self.owner.insert(kitty_id, owner);
            match price {
                Some(_) => {
                    self.list_for_sale.insert(kitty_id, price);
                },
                None => {
                    self.list_for_sale.remove(&kitty_id);
                },
            }
            proof {
                assert(self@.kitties.dom() =~= self@.owner.dom());
                assert forall|id: KittyIndex| #[trigger]
                    self@.list_for_sale.contains_key(id) implies self@.owner.contains_key(id) by {
                    if id != kitty_id {
                        assert(old(self)@.list_for_sale.contains_key(id));
                    }
                }
            }
            true
        } else {
            false
        }
    }

    pub fn config(&self) -> (config: Config)
        ensures
            config == self@.config,
    {
        self.config
    }

    /// The counter: the identifier of the next kitty, unset before the
    /// first minting.
    pub fn kitty_cnt(&self) -> (count: Option<KittyIndex>)
        ensures
            count == self@.kitty_count,
    {
        self.kitty_count
    }

    pub fn kitties(&self, kitty_id: KittyIndex) -> (kitty: Option<Kitty>)
        ensures
            kitty == self@.kitty(kitty_id),
    {
        match self.kitties.get(&kitty_id) {
            Some(kitty) => Some(*kitty),
            None => None,
        }
    }

    pub fn owner(&self, kitty_id: KittyIndex) -> (owner: Option<AccountId>)
        ensures
            owner == self@.owner_of(kitty_id),
    {
        match self.owner.get(&kitty_id) {
            Some(owner) => Some(*owner),
            None => None,
        }
    }

    /// The price at which a kitty can be bought, if it has one.
    pub fn kitties_list_for_sales(&self, kitty_id: KittyIndex) -> (price: Option<Balance>)
        ensures
            price == self@.price_of(kitty_id),
    {
        match self.list_for_sale.get(&kitty_id) {
            Some(price) => *price,
            None => None,
        }
    }

    fn is_owner(&self, who: AccountId, kitty_id: KittyIndex) -> (is_owner: bool)
        ensures
            is_owner == (self@.owner_of(kitty_id) == Some(who)),
    {
        match self.owner.get(&kitty_id) {
            Some(owner) => *owner == who,
            None => false,
        }
    }

    fn next_index(&self) -> (next: KittyIndex)
        ensures
            next == self@.next_index(),
    {
        match self.kitty_count {
            Some(count) => count,
            None => 0,
        }
    }

    /// Starts the minting of a kitty with genome `dna` for `owner`. Fails
    /// with `KittiesCountOverflow` when the counter is exhausted, before
    /// the ledger is asked for anything; else the stake of `owner` is to
    /// be reserved, and the kitty is written when the minting is resumed.
    pub fn mint(&self, owner: AccountId, dna: [u8; 16]) -> (step: Step)
        ensures
            step == self@.mint(owner, dna),
            self@.exhausted() ==> step == Step::Done(Err(Error::KittiesCountOverflow)),
            !self@.exhausted() ==> step == Step::Call(
                Call::Reserve { who: owner, amount: self@.stake() },
                Pending::Mint { owner, dna },
            ),
    {
        if self.next_index() == self.config.max_kitty_index {
            Step::Done(Err(Error::KittiesCountOverflow))
        } else {
            Step::Call(
                Call::Reserve { who: owner, amount: self.config.stake_for_each_kitty },
                Pending::Mint { owner, dna },
            )
        }
    }

    /// Starts the creation of a kitty for `who`, with a genome drawn from
    /// the randomness seed, the caller and the index of the running
    /// extrinsic. Fails when the counter is exhausted; else the stake of
    /// `who` is to be reserved and the minting resumed.
    pub fn create(&self, who: AccountId, seed: &[u8], extrinsic_index: Option<u32>) -> (step: Step)
        ensures
            self@.exhausted() ==> step == Step::Done(Err(Error::KittiesCountOverflow)),
            !self@.exhausted() ==> {
                &&& step matches Step::Call(call, Pending::Mint { owner, dna })
                &&& call == Call::Reserve { who, amount: self@.stake() }
                &&& owner == who
                &&& dna@ == random_value_spec(seed@, who, extrinsic_index)
            },
    {
        let dna = random_value(seed, who, extrinsic_index);
        self.mint(who, dna)
    }

    /// Starts the breeding of a kitty for `who` from two parents. Each bit
    /// of the child's genome comes from the first parent where a freshly
    /// drawn selector has a one, from the second where it has a zero.
    /// Fails when the parents are the same, when one of them does not
    /// exist, or when the counter is exhausted, in this order.
    pub fn breed(
        &self,
        who: AccountId,
        parent1_kitty_id: KittyIndex,
        parent2_kitty_id: KittyIndex,
        seed: &[u8],
        extrinsic_index: Option<u32>,
    ) -> (step: Step)
        ensures
            parent1_kitty_id == parent2_kitty_id ==> step == Step::Done(
                Err(Error::SameParentIndex),
            ),
            parent1_kitty_id != parent2_kitty_id && (self@.kitty(parent1_kitty_id) is None
                || self@.kitty(parent2_kitty_id) is None) ==> step == Step::Done(
                Err(Error::InvalidKittyIndex),
            ),
            parent1_kitty_id != parent2_kitty_id && self@.kitty(parent1_kitty_id) is Some
                && self@.kitty(parent2_kitty_id) is Some && self@.exhausted() ==> step
                == Step::Done(Err(Error::KittiesCountOverflow)),
            parent1_kitty_id != parent2_kitty_id && self@.kitty(parent1_kitty_id) is Some
                && self@.kitty(parent2_kitty_id) is Some && !self@.exhausted() ==> {
                &&& step matches Step::Call(call, Pending::Mint { owner, dna })
                &&& call == Call::Reserve { who, amount: self@.stake() }
                &&& owner == who
                &&& dna@ == crossover_spec(
                    self@.kitty(parent1_kitty_id)->0.dna@,
                    self@.kitty(parent2_kitty_id)->0.dna@,
                    random_value_spec(seed@, who, extrinsic_index),
                )
            },
    {
        if parent1_kitty_id == parent2_kitty_id {
            return Step::Done(Err(Error::SameParentIndex));
        }
        let parent1_kitty = match self.kitties(parent1_kitty_id) {
            Some(kitty) => kitty,
            None => { return Step::Done(Err(Error::InvalidKittyIndex)); },
        };
        let parent2_kitty = match self.kitties(parent2_kitty_id) {
            Some(kitty) => kitty,
            None => { return Step::Done(Err(Error::InvalidKittyIndex)); },
        };
        let selector = random_value(seed, who, extrinsic_index);
        let new_dna = crossover(&parent1_kitty.dna, &parent2_kitty.dna, &selector);
        self.mint(who, new_dna)
    }

    /// Sets the listing of a kitty to `price`; `None` lists it without a
    /// price, which no purchase can match. Only the owner may: for anyone
    /// else the call fails with `NotOwner` and changes nothing.
    pub fn sell(&mut self, who: AccountId, kitty_id: KittyIndex, price: Option<Balance>) -> (result:
        Result<Event, Error>)
        requires
            old(self)@.inv(),
        ensures
            final(self)@.inv(),
            (final(self)@, result) == old(self)@.sell(who, kitty_id, price),
            old(self)@.owner_of(kitty_id) != Some(who) ==> result == Err::<Event, Error>(
                Error::NotOwner,
            ) && final(self)@ == old(self)@,
            old(self)@.owner_of(kitty_id) == Some(who) ==> result == Ok::<Event, Error>(
                Event::KittyListed(who, kitty_id, price),
            ) && final(self)@ == old(self)@.listed(kitty_id, price),
    {
        if self.is_owner(who, kitty_id) {
            self.list_for_sale.insert(kitty_id, price);
            Ok(Event::KittyListed(who, kitty_id, price))
        } else {
            Err(Error::NotOwner)
        }
    }

    /// Starts the transfer of a kitty from `who` to `new_owner`. Only the
    /// owner may: for anyone else the call ends with `NotOwner` and no
    /// ledger call is made. Else the stake of `new_owner` is to be
    /// reserved; the giver's stake is released only after that.
    pub fn transfer(&self, who: AccountId, new_owner: AccountId, kitty_id: KittyIndex) -> (step:
        Step)
        ensures
            step == self@.transfer(who, new_owner, kitty_id),
            self@.owner_of(kitty_id) != Some(who) ==> step == Step::Done(Err(Error::NotOwner)),
            self@.owner_of(kitty_id) == Some(who) ==> step == Step::Call(
                Call::Reserve { who: new_owner, amount: self@.stake() },
                Pending::Transfer { from: who, to: new_owner, kitty_id, stage: TransferStage::Stake },
            ),
    {
        if self.is_owner(who, kitty_id) {
            Step::Call(
                Call::Reserve { who: new_owner, amount: self.config.stake_for_each_kitty },
                Pending::Transfer { from: who, to: new_owner, kitty_id, stage: TransferStage::Stake },
            )
        } else {
            Step::Done(Err(Error::NotOwner))
        }
    }

    /// Whom `buyer` would buy the kitty from and at what price, or why
    /// they cannot.
    fn buy_check(&self, buyer: AccountId, kitty_id: KittyIndex) -> (checked: Result<
        (AccountId, Balance),
        Error,
    >)
        ensures
            checked == self@.buy_check(buyer, kitty_id),
    {
        let seller = match self.owner(kitty_id) {
            Some(seller) => seller,
            None => { return Err(Error::InvalidKittyIndex); },
        };
        if seller == buyer {
            return Err(Error::BuyerIsOwner);
        }
        match self.kitties_list_for_sales(kitty_id) {
            Some(price) => Ok((seller, price)),
            None => Err(Error::KittyNotForSell),
        }
    }

    /// Starts the purchase of a kitty by `buyer`. Fails with
    /// `InvalidKittyIndex` when the kitty has no owner, with
    /// `BuyerIsOwner` when it is the buyer's own, with `KittyNotForSell`
    /// when it has no price, in this order. Else the buyer's spendable
    /// balance is to be read.
    pub fn buy(&self, buyer: AccountId, kitty_id: KittyIndex) -> (step: Step)
        ensures
            step == self@.buy(buyer, kitty_id),
            self@.buy_check(buyer, kitty_id) matches Err(error) ==> step == Step::Done(
                Err(error),
            ),
            self@.buy_check(buyer, kitty_id) is Ok ==> step == Step::Call(
                Call::FreeBalance { who: buyer },
                Pending::Buy { buyer, kitty_id, stage: BuyStage::Balance },
            ),
    {
        match self.buy_check(buyer, kitty_id) {
            Err(error) => Step::Done(Err(error)),
            Ok(_) => Step::Call(
                Call::FreeBalance { who: buyer },
                Pending::Buy { buyer, kitty_id, stage: BuyStage::Balance },
            ),
        }
    }

    /// Ends a minting: writes the kitty, its owner and the advanced
    /// counter together, once the stake has been reserved.
    fn resume_mint(&mut self, owner: AccountId, dna: [u8; 16], reply: Reply) -> (step: Step)
        requires
            old(self)@.inv(),
        ensures
            final(self)@.inv(),
            (final(self)@, step) == old(self)@.resume_mint(owner, dna, reply),
    {
        let kitty_id = self.next_index();
        if kitty_id == self.config.max_kitty_index {
            Step::Done(Err(Error::KittiesCountOverflow))
        } else if !reply.is_accepted() {
            Step::Done(Err(Error::NotEnoughBalanceForStaking))
        } else {
            self.kitties.insert(kitty_id, Kitty { dna });
            self.owner.insert(kitty_id, owner);
            self.kitty_count = Some(kitty_id + 1);
            proof {
                assert(self@.kitties.dom() =~= self@.owner.dom());
                assert forall|id: KittyIndex| #[trigger]
                    self@.list_for_sale.contains_key(id) implies self@.owner.contains_key(id) by {
                    assert(old(self)@.list_for_sale.contains_key(id));
                }
            }
            Step::Done(Ok(Event::KittyCreate(owner, kitty_id)))
        }
    }

    /// Goes on with a transfer: after the receiver's stake, the giver's
    /// release; after that, the new owner is written.
    fn resume_transfer(
        &mut self,
        from: AccountId,
        to: AccountId,
        kitty_id: KittyIndex,
        stage: TransferStage,
        reply: Reply,
    ) -> (step: Step)
        requires
            old(self)@.inv(),
        ensures
            final(self)@.inv(),
            (final(self)@, step) == old(self)@.resume_transfer(from, to, kitty_id, stage, reply),
    {
        if !self.is_owner(from, kitty_id) {
            Step::Done(Err(Error::NotOwner))
        } else {
            match stage {
                TransferStage::Stake => if reply.is_accepted() {
                    Step::Call(
                        Call::Unreserve { who: from, amount: self.config.stake_for_each_kitty },
                        Pending::Transfer { from, to, kitty_id, stage: TransferStage::Release },
                    )
                } else {
                    Step::Done(Err(Error::NotEnoughBalanceForStaking))
                },
                TransferStage::Release => {
                    self.owner.insert(kitty_id, to);
                    proof {
                        assert(self@.kitties.dom() =~= self@.owner.dom());
                        assert forall|id: KittyIndex| #[trigger]
                            self@.list_for_sale.contains_key(id) implies self@.owner.contains_key(
                            id,
                        ) by {
                            assert(old(self)@.list_for_sale.contains_key(id));
                        }
                    }
                    Step::Done(Ok(Event::KittyTransfer(from, to, kitty_id)))
                },
            }
        }
    }

    /// Whether `free` exceeds `price` and the stake together.
    fn can_afford(&self, free: Balance, price: Balance) -> (enough: bool)
        ensures
            enough == (free > price + self@.stake()),
    {
        match price.checked_add(self.config.stake_for_each_kitty) {
            Some(needed) => free > needed,
            None => false,
        }
    }

    /// Goes on with a purchase; the owner and the listing are written
    /// only after the price has been paid.
    fn resume_buy(
        &mut self,
        buyer: AccountId,
        kitty_id: KittyIndex,
        stage: BuyStage,
        reply: Reply,
    ) -> (step: Step)
        requires
            old(self)@.inv(),
        ensures
            final(self)@.inv(),
            (final(self)@, step) == old(self)@.resume_buy(buyer, kitty_id, stage, reply),
    {
        let stake = self.config.stake_for_each_kitty;
        match self.buy_check(buyer, kitty_id) {
            Err(error) => Step::Done(Err(error)),
            Ok((seller, price)) => match stage {
                BuyStage::Balance => if self.can_afford(reply.reported_balance(), price) {
                    Step::Call(
                        Call::Reserve { who: buyer, amount: stake },
                        Pending::Buy { buyer, kitty_id, stage: BuyStage::Stake },
                    )
                } else {
                    Step::Done(Err(Error::NotEnoughBalanceForBuying))
                },
                BuyStage::Stake => if reply.is_accepted() {
                    Step::Call(
                        Call::Unreserve { who: seller, amount: stake },
                        Pending::Buy { buyer, kitty_id, stage: BuyStage::Release },
                    )
                } else {
                    Step::Done(Err(Error::NotEnoughBalanceForStaking))
                },
                BuyStage::Release => Step::Call(
                    Call::Transfer { from: buyer, to: seller, amount: price },
                    Pending::Buy { buyer, kitty_id, stage: BuyStage::Payment },
                ),
                BuyStage::Payment => if reply.is_accepted() {
                    self.owner.insert(kitty_id, buyer);
                    self.list_for_sale.remove(&kitty_id);
                    proof {
                        assert(self@.kitties.dom() =~= self@.owner.dom());
                    }
                    Step::Done(Ok(Event::KittyTrade(buyer, seller, kitty_id)))
                } else {
                    Step::Done(Err(Error::NotEnoughBalanceForBuying))
                },
            },
        }
    }

    /// Goes on with a waiting operation once the host has made the call
    /// and has the ledger's reply. Every check of the operation is made
    /// again on the registry as it stands, so an operation that no longer
    /// applies ends with its error and writes nothing. The registry is
    /// written only by the last step of an operation, and then at once.
    pub fn resume(&mut self, pending: Pending, reply: Reply) -> (step: Step)
        requires
            old(self)@.inv(),
        ensures
            final(self)@.inv(),
            (final(self)@, step) == old(self)@.resume(pending, reply),
            !(step matches Step::Done(Ok(_))) ==> final(self)@ == old(self)@,
    {
        match pending {
            Pending::Mint { owner, dna } => self.resume_mint(owner, dna, reply),
            Pending::Transfer { from, to, kitty_id, stage } => self.resume_transfer(
                from,
                to,
                kitty_id,
                stage,
                reply,
            ),
            Pending::Buy { buyer, kitty_id, stage } => self.resume_buy(
                buyer,
                kitty_id,
                stage,
                reply,
            ),
        }
    }
}

} // verus!
