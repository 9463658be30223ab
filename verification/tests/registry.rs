use std::collections::HashMap;

use kitties::{
    BuyStage, Call, Config, Error, Event, Kitty, Pallet, Pending, Reply, Step, TransferStage,
};

const STAKE: u128 = 50;

/// A balance ledger in memory: spendable and reserved funds per account.
#[derive(Clone, Debug, PartialEq, Eq)]
struct Ledger {
    free: HashMap<u64, u128>,
    reserved: HashMap<u64, u128>,
}

impl Ledger {
    fn free(&self, who: u64) -> u128 {
        *self.free.get(&who).unwrap_or(&0)
    }

    fn reserved(&self, who: u64) -> u128 {
        *self.reserved.get(&who).unwrap_or(&0)
    }

    fn total(&self, who: u64) -> u128 {
        self.free(who) + self.reserved(who)
    }

    fn perform(&mut self, call: Call) -> Reply {
        match call {
            Call::FreeBalance { who } => Reply::Balance(self.free(who)),
            Call::Reserve { who, amount } => {
                if self.free(who) < amount {
                    return Reply::Refused;
                }
                self.free.insert(who, self.free(who) - amount);
                self.reserved.insert(who, self.reserved(who) + amount);
                Reply::Accepted
            }
            Call::Unreserve { who, amount } => {
                let moved = amount.min(self.reserved(who));
                self.reserved.insert(who, self.reserved(who) - moved);
                self.free.insert(who, self.free(who) + moved);
                Reply::Accepted
            }
            Call::Transfer { from, to, amount } => {
                // the payer must keep at least one unit
                if self.free(from) <= amount {
                    return Reply::Refused;
                }
                self.free.insert(from, self.free(from) - amount);
                self.free.insert(to, self.free(to) + amount);
                Reply::Accepted
            }
        }
    }
}

/// The registry with its ledger, its event log and a record of the
/// ledger calls made, as a host would run it.
struct Host {
    pallet: Pallet,
    ledger: Ledger,
    events: Vec<Event>,
    calls: Vec<Call>,
    seed: Vec<u8>,
    extrinsic_index: u32,
}

fn config() -> Config {
    Config { stake_for_each_kitty: STAKE, max_kitty_index: u32::MAX }
}

fn ledger() -> Ledger {
    let mut free = HashMap::new();
    free.insert(1, 10_000);
    free.insert(2, 10_000);
    free.insert(3, 10_000);
    Ledger { free, reserved: HashMap::new() }
}

fn host_with(pallet: Pallet) -> Host {
    Host {
        pallet,
        ledger: ledger(),
        events: Vec::new(),
        calls: Vec::new(),
        seed: (0u8..32).collect(),
        extrinsic_index: 0,
    }
}

fn new_test_ext() -> Host {
    host_with(Pallet::new(config()))
}

impl Host {
    /// Runs an operation to its end as one transition: on failure the
    /// ledger is put back as it was.
    fn run(&mut self, first: Step) -> Result<(), Error> {
        self.extrinsic_index += 1;
        let before = self.ledger.clone();
        let mut step = first;
        loop {
            match step {
                Step::Call(call, pending) => {
                    self.calls.push(call);
                    let reply = self.ledger.perform(call);
                    step = self.pallet.resume(pending, reply);
                }
                Step::Done(Ok(event)) => {
                    self.events.push(event);
                    return Ok(());
                }
                Step::Done(Err(error)) => {
                    self.ledger = before;
                    return Err(error);
                }
            }
        }
    }

    fn create(&mut self, who: u64) -> Result<(), Error> {
        let first = self.pallet.create(who, &self.seed, Some(self.extrinsic_index));
        self.run(first)
    }

    fn breed(&mut self, who: u64, parent1: u32, parent2: u32) -> Result<(), Error> {
        let first =
            self.pallet.breed(who, parent1, parent2, &self.seed, Some(self.extrinsic_index));
        self.run(first)
    }

    fn sell(&mut self, who: u64, kitty_id: u32, price: Option<u128>) -> Result<(), Error> {
        self.extrinsic_index += 1;
        let event = self.pallet.sell(who, kitty_id, price)?;
        self.events.push(event);
        Ok(())
    }

    fn transfer(&mut self, who: u64, new_owner: u64, kitty_id: u32) -> Result<(), Error> {
        let first = self.pallet.transfer(who, new_owner, kitty_id);
        self.run(first)
    }

    fn buy(&mut self, buyer: u64, kitty_id: u32) -> Result<(), Error> {
        let first = self.pallet.buy(buyer, kitty_id);
        self.run(first)
    }

    fn has_event(&self, event: Event) -> bool {
        self.events.contains(&event)
    }

    /// All that an operation could have written.
    fn observed(&self) -> (Option<u32>, Vec<(Option<Kitty>, Option<u64>, Option<u128>)>, Ledger, usize)
    {
        let ids = [0, 1, 2, 3, u32::MAX - 2, u32::MAX - 1, u32::MAX];
        let records = ids
            .iter()
            .map(|id| {
                (
                    self.pallet.kitties(*id),
                    self.pallet.owner(*id),
                    self.pallet.kitties_list_for_sales(*id),
                )
            })
            .collect();
        (self.pallet.kitty_cnt(), records, self.ledger.clone(), self.events.len())
    }
}

/// The operation fails with `error` and leaves everything as it was.
fn assert_noop(host: &mut Host, run: impl FnOnce(&mut Host) -> Result<(), Error>, error: Error) {
    let before = host.observed();
    assert_eq!(run(host), Err(error));
    assert_eq!(host.observed(), before);
}

#[test]
fn create_works() {
    let mut host = new_test_ext();
    let account_id: u64 = 1;
    let kitty_id: u32 = 0;
    assert_eq!(host.create(account_id), Ok(()));
    assert_eq!(host.pallet.owner(kitty_id), Some(account_id));
    assert!(host.has_event(Event::KittyCreate(account_id, kitty_id)));
}

#[test]
fn create_kitty_failed_count_overflow() {
    let mut host = host_with(Pallet::with_kitty_count(config(), u32::MAX).unwrap());
    let account_id = 1;
    assert_noop(&mut host, |host| host.create(account_id), Error::KittiesCountOverflow);
}

#[test]
fn create_kitty_failed_not_enough_balance_for_staking() {
    let mut host = new_test_ext();
    let account_id: u64 = 100;
    assert_noop(&mut host, |host| host.create(account_id), Error::NotEnoughBalanceForStaking);
}

#[test]
fn breed_works() {
    let mut host = new_test_ext();
    let account_id: u64 = 1;
    let parent1_kitty_id = 0u32;
    let parent2_kitty_id = 1u32;
    let new_kitty_id: u32 = 2u32;
    assert_eq!(host.create(account_id), Ok(()));
    assert_eq!(host.create(account_id), Ok(()));

    assert_eq!(host.breed(account_id, parent1_kitty_id, parent2_kitty_id), Ok(()));
    assert!(host.has_event(Event::KittyCreate(account_id, new_kitty_id)));
}

#[test]
fn breed_failed_same_parent() {
    let mut host = new_test_ext();
    let account_id: u64 = 1;
    let parent1_kitty_id = 0u32;
    let parent2_kitty_id = 0u32;
    assert_eq!(host.create(account_id), Ok(()));
    assert_noop(
        &mut host,
        |host| host.breed(account_id, parent1_kitty_id, parent2_kitty_id),
        Error::SameParentIndex,
    );
}

#[test]
fn breed_failed_invalid_kitty_index() {
    let mut host = new_test_ext();
    let account_id: u64 = 1;
    let parent1_kitty_id = 0u32;
    let parent2_kitty_id = 1u32;
    assert_noop(
        &mut host,
        |host| host.breed(account_id, parent1_kitty_id, parent2_kitty_id),
        Error::InvalidKittyIndex,
    );
}

#[test]
fn breed_failed_count_overflow() {
    let mut host = host_with(Pallet::with_kitty_count(config(), u32::MAX - 2).unwrap());
    let account_id: u64 = 1;
    let parent1_kitty_id = u32::MAX - 1;
    let parent2_kitty_id = u32::MAX - 2;
    assert_eq!(host.create(account_id), Ok(()));
    assert_eq!(host.create(account_id), Ok(()));
    assert_noop(
        &mut host,
        |host| host.breed(account_id, parent1_kitty_id, parent2_kitty_id),
        Error::KittiesCountOverflow,
    );
}

#[test]
fn breed_failed_not_enough_balance_for_staking() {
    let mut host = new_test_ext();
    let account_id: u64 = 1;
    // account 4 holds nothing
    let other_account_id: u64 = 4;
    let parent1_kitty_id = 0;
    let parent2_kitty_id = 1;
    assert_eq!(host.create(account_id), Ok(()));
    assert_eq!(host.create(account_id), Ok(()));
    assert_noop(
        &mut host,
        |host| host.breed(other_account_id, parent1_kitty_id, parent2_kitty_id),
        Error::NotEnoughBalanceForStaking,
    );
}

#[test]
fn sell_works() {
    let mut host = new_test_ext();
    let account_seller: u64 = 1;
    let kitty_id = 0;
    let price = 100;
    assert_eq!(host.create(account_seller), Ok(()));
    assert_eq!(host.sell(account_seller, kitty_id, Some(price)), Ok(()));
    assert_eq!(host.pallet.kitties_list_for_sales(kitty_id), Some(price));
    assert!(host.has_event(Event::KittyListed(account_seller, kitty_id, Some(price))));
}

#[test]
fn sell_failed_not_owner() {
    let mut host = new_test_ext();
    let account_owner: u64 = 1;
    let account_seller: u64 = 2;
    let kitty_id = 0;
    let price = 100;
    assert_eq!(host.create(account_owner), Ok(()));
    assert_noop(
        &mut host,
        |host| host.sell(account_seller, kitty_id, Some(price)),
        Error::NotOwner,
    );
}

#[test]
fn transfer_works() {
    let mut host = new_test_ext();
    let account_giver: u64 = 1;
    let account_receiver: u64 = 2;
    let kitty_id = 0;
    assert_eq!(host.create(account_giver), Ok(()));
    assert_eq!(host.transfer(account_giver, account_receiver, kitty_id), Ok(()));
    assert!(host.has_event(Event::KittyTransfer(account_giver, account_receiver, kitty_id)));
}

#[test]
fn transfer_failed_not_owner() {
    let mut host = new_test_ext();
    let account_owner: u64 = 1;
    let account_seller: u64 = 2;
    let account_buyer: u64 = 3;
    let kitty_id = 0;
    assert_eq!(host.create(account_owner), Ok(()));
    assert_noop(
        &mut host,
        |host| host.transfer(account_seller, account_buyer, kitty_id),
        Error::NotOwner,
    );
}

#[test]
fn transfer_failed_not_enough_balance_for_staking() {
    let mut host = new_test_ext();
    let account_seller: u64 = 1;
    // account 4 holds nothing
    let account_buyer: u64 = 4;
    let kitty_id = 0;
    assert_eq!(host.create(account_seller), Ok(()));
    assert_noop(
        &mut host,
        |host| host.transfer(account_seller, account_buyer, kitty_id),
        Error::NotEnoughBalanceForStaking,
    );
}

#[test]
fn buy_works() {
    let mut host = new_test_ext();
    let account_seller: u64 = 1;
    let account_buyer: u64 = 2;
    let kitty_id = 0;
    let price: u128 = 100;
    assert_eq!(host.create(account_seller), Ok(()));
    assert_eq!(host.sell(account_seller, kitty_id, Some(price)), Ok(()));
    assert_eq!(host.buy(account_buyer, kitty_id), Ok(()));
    assert!(host.has_event(Event::KittyTrade(account_buyer, account_seller, kitty_id)));
}

#[test]
fn buy_failed_buyer_is_owner() {
    let mut host = new_test_ext();
    let account_buyer: u64 = 1;
    let kitty_id = 0;
    let price: u128 = 100;
    assert_eq!(host.create(account_buyer), Ok(()));
    assert_eq!(host.sell(account_buyer, kitty_id, Some(price)), Ok(()));
    assert_noop(&mut host, |host| host.buy(account_buyer, kitty_id), Error::BuyerIsOwner);
}

#[test]
fn buy_failed_not_for_sell() {
    let mut host = new_test_ext();
    let account_seller: u64 = 1;
    let account_buyer: u64 = 2;
    let kitty_id = 0;
    assert_eq!(host.create(account_seller), Ok(()));
    assert_noop(&mut host, |host| host.buy(account_buyer, kitty_id), Error::KittyNotForSell);
}

#[test]
fn buy_failed_buyer_not_enough_balance_for_buying() {
    let mut host = new_test_ext();
    let account_seller: u64 = 1;
    let account_buyer: u64 = 3;
    let kitty_id = 0;
    let price: u128 = 100000;
    assert_eq!(host.create(account_seller), Ok(()));
    assert_eq!(host.sell(account_seller, kitty_id, Some(price)), Ok(()));
    assert_noop(
        &mut host,
        |host| host.buy(account_buyer, kitty_id),
        Error::NotEnoughBalanceForBuying,
    );
}

#[test]
fn create_takes_the_counter_and_advances_it_by_one() {
    let mut host = new_test_ext();
    assert_eq!(host.pallet.kitty_cnt(), None);
    for id in 0u32..5 {
        assert_eq!(host.create(1), Ok(()));
        assert_eq!(host.events.last(), Some(&Event::KittyCreate(1, id)));
        assert_eq!(host.pallet.kitty_cnt(), Some(id + 1));
        assert_eq!(host.pallet.owner(id), Some(1));
        assert!(host.pallet.kitties(id).is_some());
        assert_eq!(host.pallet.owner(id + 1), None);
    }
    assert_eq!(host.ledger.reserved(1), 5 * STAKE);
    assert_eq!(host.ledger.free(1), 10_000 - 5 * STAKE);
}

#[test]
fn create_stores_the_genome_drawn_for_the_caller() {
    let mut host = new_test_ext();
    host.extrinsic_index = 1;
    let first = host.pallet.create(1, &host.seed, Some(1));
    let expected = [
        0x28, 0xde, 0x0d, 0x67, 0x51, 0xa8, 0x0c, 0xba, 0x73, 0x54, 0xf3, 0x65, 0xc7, 0x66, 0x00,
        0x2f,
    ];
    assert_eq!(
        first,
        Step::Call(
            Call::Reserve { who: 1, amount: STAKE },
            Pending::Mint { owner: 1, dna: expected }
        )
    );
    assert_eq!(host.run(first), Ok(()));
    assert_eq!(host.pallet.kitties(0), Some(Kitty { dna: expected }));
}

#[test]
fn create_from_a_preset_counter_starts_there() {
    let mut host = host_with(Pallet::with_kitty_count(config(), 7).unwrap());
    assert_eq!(host.create(2), Ok(()));
    assert!(host.has_event(Event::KittyCreate(2, 7)));
    assert_eq!(host.pallet.kitty_cnt(), Some(8));
}

#[test]
fn counter_cannot_be_preset_beyond_its_maximum() {
    let small = Config { stake_for_each_kitty: STAKE, max_kitty_index: 3 };
    assert!(Pallet::with_kitty_count(small, 4).is_none());
    assert!(Pallet::with_kitty_count(small, 3).is_some());
}

#[test]
fn create_fails_at_a_configured_maximum() {
    let small = Config { stake_for_each_kitty: STAKE, max_kitty_index: 2 };
    let mut host = host_with(Pallet::new(small));
    assert_eq!(host.create(1), Ok(()));
    assert_eq!(host.create(1), Ok(()));
    assert_noop(&mut host, |host| host.create(1), Error::KittiesCountOverflow);
    assert_eq!(host.pallet.kitty_cnt(), Some(2));
}

#[test]
fn overflow_is_found_before_the_ledger_is_asked() {
    let host = host_with(Pallet::with_kitty_count(config(), u32::MAX).unwrap());
    assert_eq!(
        host.pallet.create(1, &host.seed, None),
        Step::Done(Err(Error::KittiesCountOverflow))
    );
    assert_eq!(host.pallet.owner(u32::MAX), None);
    assert_eq!(host.pallet.kitties(u32::MAX), None);
}

#[test]
fn breed_fails_with_same_parent_whether_or_not_it_exists() {
    let mut host = new_test_ext();
    assert_noop(&mut host, |host| host.breed(1, 5, 5), Error::SameParentIndex);
    assert_eq!(host.create(1), Ok(()));
    assert_noop(&mut host, |host| host.breed(1, 0, 0), Error::SameParentIndex);
    assert_noop(&mut host, |host| host.breed(4, 9, 9), Error::SameParentIndex);
}

#[test]
fn breed_fails_when_either_parent_is_missing() {
    let mut host = new_test_ext();
    assert_eq!(host.create(1), Ok(()));
    assert_noop(&mut host, |host| host.breed(1, 0, 1), Error::InvalidKittyIndex);
    assert_noop(&mut host, |host| host.breed(1, 1, 0), Error::InvalidKittyIndex);
}

#[test]
fn breed_crosses_the_parents_under_a_drawn_selector() {
    let mut host = new_test_ext();
    assert_eq!(host.create(1), Ok(()));
    assert_eq!(host.create(2), Ok(()));
    let a = host.pallet.kitties(0).unwrap().dna;
    let b = host.pallet.kitties(1).unwrap().dna;
    let selector = kitties::random_value(&host.seed, 3, Some(host.extrinsic_index));
    assert_eq!(host.breed(3, 0, 1), Ok(()));
    let child = host.pallet.kitties(2).unwrap().dna;
    for i in 0..16 {
        assert_eq!(child[i], (selector[i] & a[i]) | (!selector[i] & b[i]));
    }
    assert_eq!(host.pallet.owner(2), Some(3));
    assert_eq!(host.ledger.reserved(3), STAKE);
}

#[test]
fn sell_without_price_lists_nothing_to_buy() {
    let mut host = new_test_ext();
    assert_eq!(host.create(1), Ok(()));
    assert_eq!(host.sell(1, 0, Some(100)), Ok(()));
    assert_eq!(host.sell(1, 0, None), Ok(()));
    assert!(host.has_event(Event::KittyListed(1, 0, None)));
    assert_eq!(host.pallet.kitties_list_for_sales(0), None);
    assert_noop(&mut host, |host| host.buy(2, 0), Error::KittyNotForSell);
}

#[test]
fn sell_of_a_missing_kitty_is_not_the_callers() {
    let mut host = new_test_ext();
    assert_noop(&mut host, |host| host.sell(1, 0, Some(1)), Error::NotOwner);
}

#[test]
fn transfer_reserves_before_it_releases() {
    let mut host = new_test_ext();
    assert_eq!(host.create(1), Ok(()));
    host.calls.clear();
    assert_eq!(host.transfer(1, 2, 0), Ok(()));
    assert_eq!(
        host.calls,
        vec![
            Call::Reserve { who: 2, amount: STAKE },
            Call::Unreserve { who: 1, amount: STAKE }
        ]
    );
    assert_eq!(host.pallet.owner(0), Some(2));
    assert_eq!(host.ledger.reserved(1), 0);
    assert_eq!(host.ledger.free(1), 10_000);
    assert_eq!(host.ledger.reserved(2), STAKE);
    assert_eq!(host.ledger.free(2), 10_000 - STAKE);
}

#[test]
fn transfer_by_a_stranger_asks_the_ledger_for_nothing() {
    let mut host = new_test_ext();
    assert_eq!(host.create(1), Ok(()));
    host.calls.clear();
    assert_eq!(host.pallet.transfer(2, 3, 0), Step::Done(Err(Error::NotOwner)));
    assert_noop(&mut host, |host| host.transfer(2, 3, 0), Error::NotOwner);
    assert!(host.calls.is_empty());
    assert_eq!(host.pallet.owner(0), Some(1));
    assert_eq!(host.ledger.reserved(1), STAKE);
    assert_eq!(host.ledger.reserved(2), 0);
    assert_eq!(host.ledger.reserved(3), 0);
}

#[test]
fn transfer_keeps_the_listing() {
    let mut host = new_test_ext();
    assert_eq!(host.create(1), Ok(()));
    assert_eq!(host.sell(1, 0, Some(100)), Ok(()));
    assert_eq!(host.transfer(1, 2, 0), Ok(()));
    assert_eq!(host.pallet.kitties_list_for_sales(0), Some(100));
}

#[test]
fn resumed_transfer_of_a_stranger_writes_nothing() {
    let mut host = new_test_ext();
    assert_eq!(host.create(1), Ok(()));
    let stake = Pending::Transfer { from: 2, to: 3, kitty_id: 0, stage: TransferStage::Stake };
    let release = Pending::Transfer { from: 2, to: 3, kitty_id: 0, stage: TransferStage::Release };
    assert_eq!(host.pallet.resume(stake, Reply::Accepted), Step::Done(Err(Error::NotOwner)));
    assert_eq!(host.pallet.resume(release, Reply::Accepted), Step::Done(Err(Error::NotOwner)));
    assert_eq!(host.pallet.owner(0), Some(1));
}

#[test]
fn buy_moves_price_stake_kitty_and_listing() {
    let mut host = new_test_ext();
    let a: u64 = 1;
    let b: u64 = 2;
    assert_eq!(host.create(a), Ok(()));
    assert!(host.has_event(Event::KittyCreate(a, 0)));
    assert_eq!(host.sell(a, 0, Some(100)), Ok(()));
    let a_before = host.ledger.total(a);
    let b_before = host.ledger.total(b);
    assert_eq!(b_before, 10_000);
    host.calls.clear();
    assert_eq!(host.buy(b, 0), Ok(()));
    assert_eq!(
        host.calls,
        vec![
            Call::FreeBalance { who: b },
            Call::Reserve { who: b, amount: STAKE },
            Call::Unreserve { who: a, amount: STAKE },
            Call::Transfer { from: b, to: a, amount: 100 },
        ]
    );
    assert_eq!(host.ledger.total(b), b_before - 100);
    assert_eq!(host.ledger.total(a), a_before + 100);
    assert_eq!(host.ledger.free(b), 10_000 - STAKE - 100);
    assert_eq!(host.ledger.reserved(b), STAKE);
    assert_eq!(host.ledger.free(a), 10_000 + 100);
    assert_eq!(host.ledger.reserved(a), 0);
    assert_eq!(host.pallet.owner(0), Some(b));
    assert_eq!(host.pallet.kitties_list_for_sales(0), None);
    assert_eq!(host.events.last(), Some(&Event::KittyTrade(b, a, 0)));
}

#[test]
fn second_buy_finds_nothing_for_sale() {
    let mut host = new_test_ext();
    assert_eq!(host.create(1), Ok(()));
    assert_eq!(host.sell(1, 0, Some(100)), Ok(()));
    assert_eq!(host.buy(2, 0), Ok(()));
    assert_noop(&mut host, |host| host.buy(3, 0), Error::KittyNotForSell);
    assert_noop(&mut host, |host| host.buy(1, 0), Error::KittyNotForSell);
    assert_noop(&mut host, |host| host.buy(2, 0), Error::BuyerIsOwner);
}

#[test]
fn buy_of_a_missing_kitty_is_invalid() {
    let mut host = new_test_ext();
    assert_noop(&mut host, |host| host.buy(2, 0), Error::InvalidKittyIndex);
}

#[test]
fn buy_needs_more_than_price_and_stake() {
    let mut host = new_test_ext();
    assert_eq!(host.create(1), Ok(()));
    assert_eq!(host.sell(1, 0, Some(100)), Ok(()));
    let waiting = Pending::Buy { buyer: 2, kitty_id: 0, stage: BuyStage::Balance };
    assert_eq!(
        host.pallet.resume(waiting, Reply::Balance(100 + STAKE)),
        Step::Done(Err(Error::NotEnoughBalanceForBuying))
    );
    assert_eq!(
        host.pallet.resume(waiting, Reply::Balance(100 + STAKE + 1)),
        Step::Call(
            Call::Reserve { who: 2, amount: STAKE },
            Pending::Buy { buyer: 2, kitty_id: 0, stage: BuyStage::Stake }
        )
    );
}

#[test]
fn buy_at_a_price_near_the_largest_amount_is_refused() {
    let mut host = new_test_ext();
    assert_eq!(host.create(1), Ok(()));
    assert_eq!(host.sell(1, 0, Some(u128::MAX)), Ok(()));
    let waiting = Pending::Buy { buyer: 2, kitty_id: 0, stage: BuyStage::Balance };
    assert_eq!(
        host.pallet.resume(waiting, Reply::Balance(u128::MAX)),
        Step::Done(Err(Error::NotEnoughBalanceForBuying))
    );
}

#[test]
fn buy_fails_when_the_stake_is_refused() {
    let mut host = new_test_ext();
    assert_eq!(host.create(1), Ok(()));
    assert_eq!(host.sell(1, 0, Some(100)), Ok(()));
    let waiting = Pending::Buy { buyer: 2, kitty_id: 0, stage: BuyStage::Stake };
    assert_eq!(
        host.pallet.resume(waiting, Reply::Refused),
        Step::Done(Err(Error::NotEnoughBalanceForStaking))
    );
    assert_eq!(host.pallet.owner(0), Some(1));
    assert_eq!(host.pallet.kitties_list_for_sales(0), Some(100));
}

#[test]
fn buy_fails_when_the_payment_is_refused() {
    let mut host = new_test_ext();
    assert_eq!(host.create(1), Ok(()));
    assert_eq!(host.sell(1, 0, Some(100)), Ok(()));
    let waiting = Pending::Buy { buyer: 2, kitty_id: 0, stage: BuyStage::Payment };
    assert_eq!(
        host.pallet.resume(waiting, Reply::Refused),
        Step::Done(Err(Error::NotEnoughBalanceForBuying))
    );
    assert_eq!(host.pallet.owner(0), Some(1));
    assert_eq!(host.pallet.kitties_list_for_sales(0), Some(100));
}

#[test]
fn mint_fails_when_the_stake_is_refused() {
    let mut host = new_test_ext();
    let waiting = Pending::Mint { owner: 1, dna: [7; 16] };
    assert_eq!(
        host.pallet.resume(waiting, Reply::Refused),
        Step::Done(Err(Error::NotEnoughBalanceForStaking))
    );
    assert_eq!(host.pallet.kitty_cnt(), None);
    assert_eq!(host.pallet.kitties(0), None);
    assert_eq!(
        host.pallet.resume(waiting, Reply::Accepted),
        Step::Done(Ok(Event::KittyCreate(1, 0)))
    );
    assert_eq!(host.pallet.kitties(0), Some(Kitty { dna: [7; 16] }));
    assert_eq!(host.pallet.kitty_cnt(), Some(1));
}

#[test]
fn mint_asks_for_the_stake_of_the_owner() {
    let host = new_test_ext();
    assert_eq!(
        host.pallet.mint(2, [3; 16]),
        Step::Call(
            Call::Reserve { who: 2, amount: STAKE },
            Pending::Mint { owner: 2, dna: [3; 16] }
        )
    );
    let full = Pallet::with_kitty_count(config(), u32::MAX).unwrap();
    assert_eq!(full.mint(2, [3; 16]), Step::Done(Err(Error::KittiesCountOverflow)));
}

#[test]
fn a_reply_of_the_wrong_kind_counts_as_no_balance_and_no_consent() {
    assert!(Reply::Accepted.is_accepted());
    assert!(!Reply::Refused.is_accepted());
    assert!(!Reply::Balance(9).is_accepted());
    assert_eq!(Reply::Balance(9).reported_balance(), 9);
    assert_eq!(Reply::Accepted.reported_balance(), 0);
    assert_eq!(Reply::Refused.reported_balance(), 0);
}

#[test]
fn restore_takes_over_a_kitty_below_the_counter() {
    let mut pallet = Pallet::with_kitty_count(config(), 3).unwrap();
    assert!(pallet.restore(1, Kitty { dna: [9; 16] }, 5, Some(40)));
    assert_eq!(pallet.kitties(1), Some(Kitty { dna: [9; 16] }));
    assert_eq!(pallet.owner(1), Some(5));
    assert_eq!(pallet.kitties_list_for_sales(1), Some(40));
    assert!(pallet.restore(1, Kitty { dna: [9; 16] }, 6, None));
    assert_eq!(pallet.owner(1), Some(6));
    assert_eq!(pallet.kitties_list_for_sales(1), None);
    assert!(!pallet.restore(3, Kitty { dna: [1; 16] }, 5, None));
    assert_eq!(pallet.owner(3), None);
    assert_eq!(pallet.kitty_cnt(), Some(3));
    assert_eq!(pallet.config(), config());
}

#[test]
fn restore_into_a_fresh_registry_is_refused() {
    let mut pallet = Pallet::new(config());
    assert!(!pallet.restore(0, Kitty { dna: [1; 16] }, 5, None));
    assert_eq!(pallet.kitties(0), None);
}
