//! What holds of the registry's operations, proved over the model.

use crate::genome::{bit, crossover_spec, lemma_crossover_byte_bits};
use crate::ledger::{BuyStage, Call, Pending, Reply, Step, TransferStage};
use crate::state::State;
use crate::types::{AccountId, Balance, Error, Event, Kitty, KittyIndex};
use vstd::prelude::*;

verus! {

/// Every bit of a child genome is the bit of the first parent where the
/// selector bit is one and the bit of the second parent where it is
/// zero: crossover never makes a bit that neither parent has.
pub proof fn law_crossover_inherits_every_bit(a: Seq<u8>, b: Seq<u8>, selector: Seq<u8>)
    ensures
        crossover_spec(a, b, selector).len() == 16,
        forall|i: int, k: u8|
            0 <= i < 16 && k < 8 ==> #[trigger] bit(crossover_spec(a, b, selector)[i], k) == (
            if bit(selector[i], k) {
                bit(a[i], k)
            } else {
                bit(b[i], k)
            }),
        forall|i: int, k: u8|
            0 <= i < 16 && k < 8 ==> #[trigger] bit(crossover_spec(a, b, selector)[i], k) == bit(
                a[i],
                k,
            ) || bit(crossover_spec(a, b, selector)[i], k) == bit(b[i], k),
{
    assert forall|i: int, k: u8| 0 <= i < 16 && k < 8 implies #[trigger] bit(
        crossover_spec(a, b, selector)[i],
        k,
    ) == (if bit(selector[i], k) {
        bit(a[i], k)
    } else {
        bit(b[i], k)
    }) by {
        lemma_crossover_byte_bits(a[i], b[i], selector[i], k);
    }
}

/// No step breaks the registry's invariant, and a step that does not end
/// in success writes nothing.
pub proof fn law_steps_keep_invariant(s: State, pending: Pending, reply: Reply)
    requires
        s.inv(),
    ensures
        s.resume(pending, reply).0.inv(),
        !(s.resume(pending, reply).1 matches Step::Done(Ok(_))) ==> s.resume(pending, reply).0
            == s,
{
    let after = s.resume(pending, reply).0;
    assert(after.kitties.dom() =~= after.owner.dom());
    assert forall|id: KittyIndex| #[trigger]
        after.list_for_sale.contains_key(id) implies after.owner.contains_key(id) by {
        assert(s.list_for_sale.contains_key(id));
    }
}

/// Every operation ends: each step that asks for another ledger call
/// leaves fewer calls to wait for, and none waits for more than four.
pub proof fn law_operations_end(s: State, pending: Pending, reply: Reply)
    ensures
        1 <= pending.calls_left() <= 4,
        s.resume(pending, reply).1 matches Step::Call(_, next) ==> next.calls_left()
            < pending.calls_left(),
{
}

/// Listing keeps the invariant; whoever is not the owner is refused with
/// `NotOwner` and changes nothing.
pub proof fn law_sell_keeps_invariant(
    s: State,
    who: AccountId,
    kitty_id: KittyIndex,
    price: Option<Balance>,
)
    requires
        s.inv(),
    ensures
        s.sell(who, kitty_id, price).0.inv(),
        s.owner_of(kitty_id) != Some(who) ==> s.sell(who, kitty_id, price) == (
            s,
            Err::<Event, Error>(Error::NotOwner),
        ),
        s.owner_of(kitty_id) == Some(who) ==> s.sell(who, kitty_id, price).0.price_of(kitty_id)
            == price,
{
}

/// A minting that succeeds gives the kitty the identifier at which the
/// counter stood, an identifier that no kitty had, and advances the
/// counter by exactly one. It succeeds exactly when the counter is not
/// exhausted and the ledger reserved the stake.
pub proof fn law_mint_takes_the_counter(s: State, owner: AccountId, dna: [u8; 16], reply: Reply)
    requires
        s.inv(),
    ensures
        s.resume(Pending::Mint { owner, dna }, reply).1 is Done,
        s.resume(Pending::Mint { owner, dna }, reply).1 matches Step::Done(Ok(_))
            <==> !s.exhausted() && reply.accepted(),
        s.resume(Pending::Mint { owner, dna }, reply).1 matches Step::Done(Ok(event)) ==> {
            let after = s.resume(Pending::Mint { owner, dna }, reply).0;
            &&& event == Event::KittyCreate(owner, s.next_index())
            &&& after.kitty_count == Some((s.next_index() + 1) as KittyIndex)
            &&& after.next_index() == s.next_index() + 1
            &&& s.owner_of(s.next_index()) is None
            &&& s.kitty(s.next_index()) is None
            &&& after.owner_of(s.next_index()) == Some(owner)
            &&& after.kitty(s.next_index()) == Some(Kitty { dna })
            &&& after.kitties_of(owner) == s.kitties_of(owner).insert(s.next_index())
            &&& forall|id: KittyIndex|
                id != s.next_index() ==> after.owner_of(id) == s.owner_of(id) && after.kitty(id)
                    == s.kitty(id)
        },
        s.exhausted() ==> s.resume(Pending::Mint { owner, dna }, reply) == (
            s,
            Step::Done(Err(Error::KittiesCountOverflow)),
        ),
{
    assert(!s.owner.contains_key(s.next_index()));
    assert(s.kitties.dom().contains(s.next_index()) == s.owner.dom().contains(s.next_index()));
    if !s.exhausted() && reply.accepted() {
        let after = s.resume(Pending::Mint { owner, dna }, reply).0;
        assert(after.kitties_of(owner) =~= s.kitties_of(owner).insert(s.next_index()));
    }
}

/// A transfer that its owner starts reserves the receiver's stake
/// first, releases the giver's stake only when that was accepted, and
/// hands the kitty over only after the release. Where the ledger refuses
/// the reservation nothing is released and nothing is written.
pub proof fn law_transfer_reserves_before_it_releases(
    s: State,
    who: AccountId,
    new_owner: AccountId,
    kitty_id: KittyIndex,
    released: Reply,
)
    requires
        s.inv(),
        s.owner_of(kitty_id) == Some(who),
    ensures
        ({
            let stake = Pending::Transfer {
                from: who,
                to: new_owner,
                kitty_id,
                stage: TransferStage::Stake,
            };
            let release = Pending::Transfer {
                from: who,
                to: new_owner,
                kitty_id,
                stage: TransferStage::Release,
            };
            let after = s.given(kitty_id, new_owner);
            &&& s.transfer(who, new_owner, kitty_id) == Step::Call(
                Call::Reserve { who: new_owner, amount: s.stake() },
                stake,
            )
            &&& s.resume(stake, Reply::Refused) == (
                s,
                Step::Done(Err(Error::NotEnoughBalanceForStaking)),
            )
            &&& s.resume(stake, Reply::Accepted) == (
                s,
                Step::Call(Call::Unreserve { who, amount: s.stake() }, release),
            )
            &&& s.resume(release, released) == (
                after,
                Step::Done(Ok(Event::KittyTransfer(who, new_owner, kitty_id))),
            )
            &&& after.owner_of(kitty_id) == Some(new_owner)
            &&& after.price_of(kitty_id) == s.price_of(kitty_id)
            &&& forall|id: KittyIndex| id != kitty_id ==> after.owner_of(id) == s.owner_of(id)
            &&& after.kitties_of(new_owner) == s.kitties_of(new_owner).insert(kitty_id)
            &&& who != new_owner ==> after.kitties_of(who) == s.kitties_of(who).remove(kitty_id)
        }),
{
    let after = s.given(kitty_id, new_owner);
    assert(after.kitties_of(new_owner) =~= s.kitties_of(new_owner).insert(kitty_id));
    if who != new_owner {
        assert(after.kitties_of(who) =~= s.kitties_of(who).remove(kitty_id));
    }
}

/// Whoever does not own a kitty cannot transfer it: the transfer ends
/// with `NotOwner` before any ledger call, and no step of a transfer in
/// their name writes anything or asks the ledger for anything.
pub proof fn law_transfer_needs_the_owner(
    s: State,
    who: AccountId,
    new_owner: AccountId,
    kitty_id: KittyIndex,
    reply: Reply,
)
    requires
        s.owner_of(kitty_id) != Some(who),
    ensures
        s.transfer(who, new_owner, kitty_id) == Step::Done(Err(Error::NotOwner)),
        forall|stage: TransferStage| #[trigger]
            s.resume(Pending::Transfer { from: who, to: new_owner, kitty_id, stage }, reply) == (
                s,
                Step::Done(Err(Error::NotOwner)),
            ),
{
}

/// Once its owner has listed a kitty at a price, another account whose
/// balance exceeds price and stake together buys it, provided the ledger
/// accepts the reservation and the payment: the buyer's stake is
/// reserved, the seller's released, exactly the price is paid from the
/// buyer to the seller, the kitty becomes the buyer's and its listing is
/// cleared. After that, whoever else tries to buy it is told that it is
/// not for sale.
pub proof fn law_listed_kitty_is_sold_once(
    s: State,
    owner: AccountId,
    kitty_id: KittyIndex,
    price: Balance,
    buyer: AccountId,
    free: Balance,
    released: Reply,
    latecomer: AccountId,
)
    requires
        s.inv(),
        s.owner_of(kitty_id) == Some(owner),
        buyer != owner,
        free > price + s.stake(),
        latecomer != buyer,
    ensures
        ({
            let (listed, listing) = s.sell(owner, kitty_id, Some(price));
            let sold = listed.sold(kitty_id, buyer);
            let balance = Pending::Buy { buyer, kitty_id, stage: BuyStage::Balance };
            let stake = Pending::Buy { buyer, kitty_id, stage: BuyStage::Stake };
            let release = Pending::Buy { buyer, kitty_id, stage: BuyStage::Release };
            let payment = Pending::Buy { buyer, kitty_id, stage: BuyStage::Payment };
            &&& listing == Ok::<Event, Error>(Event::KittyListed(owner, kitty_id, Some(price)))
            &&& listed.buy(buyer, kitty_id) == Step::Call(Call::FreeBalance { who: buyer }, balance)
            &&& listed.resume(balance, Reply::Balance(free)) == (
                listed,
                Step::Call(Call::Reserve { who: buyer, amount: s.stake() }, stake),
            )
            &&& listed.resume(stake, Reply::Accepted) == (
                listed,
                Step::Call(Call::Unreserve { who: owner, amount: s.stake() }, release),
            )
            &&& listed.resume(release, released) == (
                listed,
                Step::Call(Call::Transfer { from: buyer, to: owner, amount: price }, payment),
            )
            &&& listed.resume(payment, Reply::Accepted) == (
                sold,
                Step::Done(Ok(Event::KittyTrade(buyer, owner, kitty_id))),
            )
            &&& sold.owner_of(kitty_id) == Some(buyer)
            &&& sold.price_of(kitty_id) is None
            &&& sold.kitties_of(buyer) == s.kitties_of(buyer).insert(kitty_id)
            &&& sold.kitties_of(owner) == s.kitties_of(owner).remove(kitty_id)
            &&& sold.inv()
            &&& sold.buy(latecomer, kitty_id) == Step::Done(Err(Error::KittyNotForSell))
        }),
{
    let (listed, listing) = s.sell(owner, kitty_id, Some(price));
    law_sell_keeps_invariant(s, owner, kitty_id, Some(price));
    law_steps_keep_invariant(
        listed,
        Pending::Buy { buyer, kitty_id, stage: BuyStage::Payment },
        Reply::Accepted,
    );
    let sold = listed.sold(kitty_id, buyer);
    assert(sold.kitties_of(buyer) =~= s.kitties_of(buyer).insert(kitty_id));
    assert(sold.kitties_of(owner) =~= s.kitties_of(owner).remove(kitty_id));
}

/// A purchase is refused before any ledger call when the kitty has no
/// owner, is the buyer's own or has no price, in this order. It ends
/// with `NotEnoughBalanceForBuying` when the balance does not exceed
/// price and stake together or the ledger refuses the payment, and with
/// `NotEnoughBalanceForStaking` when the ledger refuses the buyer's
/// stake. None of these writes anything.
pub proof fn law_buy_refusals(s: State, buyer: AccountId, kitty_id: KittyIndex, reply: Reply)
    ensures
        ({
            let balance = Pending::Buy { buyer, kitty_id, stage: BuyStage::Balance };
            let stake = Pending::Buy { buyer, kitty_id, stage: BuyStage::Stake };
            let payment = Pending::Buy { buyer, kitty_id, stage: BuyStage::Payment };
            &&& s.owner_of(kitty_id) is None ==> s.buy(buyer, kitty_id) == Step::Done(
                Err(Error::InvalidKittyIndex),
            )
            &&& s.owner_of(kitty_id) == Some(buyer) ==> s.buy(buyer, kitty_id) == Step::Done(
                Err(Error::BuyerIsOwner),
            )
            &&& s.owner_of(kitty_id) is Some && s.owner_of(kitty_id) != Some(buyer) && s.price_of(
                kitty_id,
            ) is None ==> s.buy(buyer, kitty_id) == Step::Done(Err(Error::KittyNotForSell))
            &&& s.buy_check(buyer, kitty_id) matches Ok((_, price)) ==> {
                &&& reply.balance() <= price + s.stake() ==> s.resume(balance, reply) == (
                    s,
                    Step::Done(Err(Error::NotEnoughBalanceForBuying)),
                )
                &&& !reply.accepted() ==> s.resume(stake, reply) == (
                    s,
                    Step::Done(Err(Error::NotEnoughBalanceForStaking)),
                )
                &&& !reply.accepted() ==> s.resume(payment, reply) == (
                    s,
                    Step::Done(Err(Error::NotEnoughBalanceForBuying)),
                )
            }
        }),
{
}

} // verus!
