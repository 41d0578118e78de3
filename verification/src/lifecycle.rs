use vstd::prelude::*;
use crate::contexts::{Delist, Initialize, List, Purchase};
use crate::identity::Identity;
use crate::laws::{
    lemma_delist_keeps_escrow, lemma_initialize_keeps_escrow, lemma_list_keeps_escrow,
    lemma_purchase_keeps_escrow,
};
use crate::ledger::settles;
use crate::market::{Failure, Market};

verus! {

/// Creates the marketplace called `name` with the fee `fee` and the admin of
/// `ctx`, once per name: files its record under the identity that the name
/// derives, with the bump seeds that re-derive the marketplace, its treasury
/// and its reward credit, and makes the marketplace the issuer of that
/// credit. Either all of it happens or nothing changes.
pub fn initialize(market: &mut Market, ctx: &Initialize, name: String, fee: u16) -> (r: Result<
    (),
    Failure,
>)
    requires
        old(market).wf(),
    ensures
        final(market).wf(),
        settles(r, old(market)@, final(market)@, ctx.initialized(old(market)@, name, fee)),
        old(market)@.escrowed() ==> final(market)@.escrowed(),
        r is Ok ==> forall|id: Identity|
            final(market)@.registries.contains_key(id) && !old(market)@.registries.contains_key(
                id,
            ) ==> Initialize::rederivable(
                old(market)@.ledger.program,
                id,
                #[trigger] final(market)@.registries[id],
            ),
{
    proof {
        if market@.escrowed() {
            lemma_initialize_keeps_escrow(market@, *ctx, name, fee);
        }
    }
    ctx.init(market, name, fee)
}

/// The steps of [`list`] in their order, up to the first that fails.
fn list_steps(market: &mut Market, ctx: &List, price: u64) -> (r: Result<(), Failure>)
    requires
        old(market).wf(),
    ensures
        final(market).wf(),
        final(market)@.registries == old(market)@.registries,
        match r {
            Ok(()) => ctx.listed(old(market)@, price) == Ok::<_, Failure>(final(market)@),
            Err(e) => ctx.listed(old(market)@, price) == Err::<crate::market::MarketState, _>(e),
        },
{
    let bumps = match ctx.validate(market) {
        Ok(bumps) => bumps,
        Err(e) => {
            return Err(e);
        },
    };
    match ctx.create_listing(market, price, &bumps) {
        Ok(()) => {},
        Err(e) => {
            return Err(e);
        },
    }
    ctx.deposit_nft(market)
}

/// Lists an asset: validates the request, files the listing, opens its vault
/// and moves the maker's one unit into it. Either all of it happens or
/// nothing changes.
pub fn list(market: &mut Market, ctx: &List, price: u64) -> (r: Result<(), Failure>)
    requires
        old(market).wf(),
    ensures
        final(market).wf(),
        settles(r, old(market)@, final(market)@, ctx.listed(old(market)@, price)),
        old(market)@.escrowed() ==> final(market)@.escrowed(),
{
    proof {
        if market@.escrowed() {
            lemma_list_keeps_escrow(market@, *ctx, price);
        }
    }
    let ledger = market.ledger().snapshot();
    let listings = market.saved_listings();
    match list_steps(market, ctx, price) {
        Ok(()) => Ok(()),
        Err(e) => {
            market.restore(ledger, listings);
            Err(e)
        },
    }
}

/// The steps of [`delist`] in their order, up to the first that fails.
fn delist_steps(market: &mut Market, ctx: &Delist) -> (r: Result<(), Failure>)
    requires
        old(market).wf(),
    ensures
        final(market).wf(),
        final(market)@.registries == old(market)@.registries,
        match r {
            Ok(()) => ctx.delisted(old(market)@) == Ok::<_, Failure>(final(market)@),
            Err(e) => ctx.delisted(old(market)@) == Err::<crate::market::MarketState, _>(e),
        },
{
    match ctx.withdraw_nft(market) {
        Ok(()) => {},
        Err(e) => {
            return Err(e);
        },
    }
    ctx.close_listing(market)
}

/// Takes a listing back: returns the escrowed asset to the maker, closes the
/// vault and closes the listing. Only the listing's maker may ask for it.
/// Either all of it happens or nothing changes.
pub fn delist(market: &mut Market, ctx: &Delist) -> (r: Result<(), Failure>)
    requires
        old(market).wf(),
    ensures
        final(market).wf(),
        settles(r, old(market)@, final(market)@, ctx.delisted(old(market)@)),
        old(market)@.escrowed() ==> final(market)@.escrowed(),
{
    proof {
        if market@.escrowed() {
            lemma_delist_keeps_escrow(market@, *ctx);
        }
    }
    let ledger = market.ledger().snapshot();
    let listings = market.saved_listings();
    match delist_steps(market, ctx) {
        Ok(()) => Ok(()),
        Err(e) => {
            market.restore(ledger, listings);
            Err(e)
        },
    }
}

/// The steps of [`purchase`] in their order, up to the first that fails.
fn purchase_steps(market: &mut Market, ctx: &Purchase) -> (r: Result<(), Failure>)
    requires
        old(market).wf(),
    ensures
        final(market).wf(),
        final(market)@.registries == old(market)@.registries,
        match r {
            Ok(()) => ctx.purchased(old(market)@) == Ok::<_, Failure>(final(market)@),
            Err(e) => ctx.purchased(old(market)@) == Err::<crate::market::MarketState, _>(e),
        },
{
    match ctx.pay(market) {
        Ok(()) => {},
        Err(e) => {
            return Err(e);
        },
    }
    match ctx.transfer_nft(market) {
        Ok(()) => {},
        Err(e) => {
            return Err(e);
        },
    }
    match ctx.close_vault_account(market) {
        Ok(()) => {},
        Err(e) => {
            return Err(e);
        },
    }
    match ctx.close_listing(market) {
        Ok(()) => {},
        Err(e) => {
            return Err(e);
        },
    }
    ctx.reward_buyer(market)
}

/// Sells a listed asset: the taker pays the maker the price less the fee and
/// the treasury the fee, receives the asset from the vault, vault and listing
/// are closed, and the taker is given one reward credit. Either all of it
/// happens or nothing changes.
pub fn purchase(market: &mut Market, ctx: &Purchase) -> (r: Result<(), Failure>)
    requires
        old(market).wf(),
    ensures
        final(market).wf(),
        settles(r, old(market)@, final(market)@, ctx.purchased(old(market)@)),
        old(market)@.escrowed() ==> final(market)@.escrowed(),
{
    proof {
        if market@.escrowed() {
            lemma_purchase_keeps_escrow(market@, *ctx);
        }
    }
    let ledger = market.ledger().snapshot();
    let listings = market.saved_listings();
    match purchase_steps(market, ctx) {
        Ok(()) => Ok(()),
        Err(e) => {
            market.restore(ledger, listings);
            Err(e)
        },
    }
}

} // verus!
