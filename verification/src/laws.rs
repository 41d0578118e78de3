use vstd::prelude::*;
use crate::contexts::{Delist, Initialize, List, Purchase};
use crate::identity::Identity;
use crate::authority::{authority_of, owned_seeds, rewards_tag, treasury_tag, with_bump};
use crate::calls::Request;
use crate::ledger::{proves, Claim, Collection, Custody, LedgerState};
use crate::market::{Failure, MarketState};
use crate::state::MarketplaceError;

verus! {

/// Creating a marketplace keeps every listing's vault at exactly one unit.
pub proof fn lemma_initialize_keeps_escrow(
    s: MarketState,
    ctx: Initialize,
    name: String,
    fee: u16,
)
    requires
        s.escrowed(),
    ensures
        ctx.initialized(s, name, fee) matches Ok(after) ==> after.escrowed(),
{
    Initialize::lemma_requests();
}

/// Listing an asset keeps every listing's vault, the new one included, at
/// exactly one unit of the listed asset.
pub proof fn lemma_list_keeps_escrow(s: MarketState, ctx: List, price: u64)
    requires
        s.escrowed(),
    ensures
        ctx.listed(s, price) matches Ok(after) ==> after.escrowed(),
{
    ctx.lemma_requests();
    if let Ok(after) = ctx.listed(s, price) {
        let bumps = ctx.validated(s)->Ok_0;
        let s1 = ctx.created(s, price, bumps)->Ok_0;
        assert forall|address: Identity| #[trigger] after.listings.contains_key(address) implies {
            let vault = MarketState::vault(after.listings[address].mint, address);
            after.ledger.accounts.contains_key(vault) && after.ledger.accounts[vault] == 1
        } by {
            if address != ctx.listing {
                assert(s.listings.contains_key(address));
            }
        }
    }
}

/// Taking a listing back keeps every remaining listing's vault at exactly one
/// unit.
pub proof fn lemma_delist_keeps_escrow(s: MarketState, ctx: Delist)
    requires
        s.escrowed(),
    ensures
        ctx.delisted(s) matches Ok(after) ==> after.escrowed(),
{
    ctx.lemma_requests();
    if let Ok(after) = ctx.delisted(s) {
        assert forall|address: Identity| #[trigger] after.listings.contains_key(address) implies {
            let vault = MarketState::vault(after.listings[address].mint, address);
            after.ledger.accounts.contains_key(vault) && after.ledger.accounts[vault] == 1
        } by {
            assert(s.listings.contains_key(address));
        }
    }
}

/// A purchase keeps every remaining listing's vault at exactly one unit.
pub proof fn lemma_purchase_keeps_escrow(s: MarketState, ctx: Purchase)
    requires
        s.escrowed(),
    ensures
        ctx.purchased(s) matches Ok(after) ==> after.escrowed(),
{
    ctx.lemma_requests();
    if let Ok(after) = ctx.purchased(s) {
        let s1 = ctx.paid(s)->Ok_0;
        let s2 = ctx.transferred(s1)->Ok_0;
        let s3 = ctx.vault_closed(s2)->Ok_0;
        let s4 = ctx.listing_closed(s3)->Ok_0;
        assert forall|address: Identity| #[trigger] after.listings.contains_key(address) implies {
            let vault = MarketState::vault(after.listings[address].mint, address);
            after.ledger.accounts.contains_key(vault) && after.ledger.accounts[vault] == 1
        } by {
            assert(s.listings.contains_key(address));
        }
    }
}

/// The treasury of the marketplace `id`, as its stored bump seed re-derives
/// it.
pub open spec fn treasury_of(s: MarketState, id: Identity) -> Option<Identity> {
    authority_of(
        with_bump(owned_seeds(treasury_tag(), id), s.registries[id].treasury_bump),
        s.ledger.program,
    )
}

/// The reward credit of the marketplace `id`, as its stored bump seed
/// re-derives it.
pub open spec fn credit_of(s: MarketState, id: Identity) -> Option<Identity> {
    authority_of(
        with_bump(owned_seeds(rewards_tag(), id), s.registries[id].rewards_mint_bump),
        s.ledger.program,
    )
}

/// Conservation: a purchase among three different parties adds exactly the
/// price less the fee to the maker's balance and exactly the fee to the
/// treasury's, and takes exactly the price from the taker's.
pub proof fn lemma_purchase_conserves(s: MarketState, ctx: Purchase)
    requires
        ctx.purchased(s) is Ok,
        ctx.taker != ctx.maker,
        treasury_of(s, ctx.marketplace) != Some(ctx.taker),
        treasury_of(s, ctx.marketplace) != Some(ctx.maker),
    ensures
        ({
            let after = ctx.purchased(s)->Ok_0;
            let price = s.listings[ctx.listing].price;
            let fee = s.registries[ctx.marketplace].fee;
            let treasury = treasury_of(s, ctx.marketplace)->Some_0;
            &&& price >= fee
            &&& after.ledger.balance(ctx.maker) == s.ledger.balance(ctx.maker) + (price - fee)
            &&& after.ledger.balance(treasury) == s.ledger.balance(treasury) + fee
            &&& after.ledger.balance(ctx.taker) == s.ledger.balance(ctx.taker) - price
        }),
{
    ctx.lemma_requests();
    let s1 = ctx.paid(s)->Ok_0;
    let s2 = ctx.transferred(s1)->Ok_0;
    let s3 = ctx.vault_closed(s2)->Ok_0;
    let s4 = ctx.listing_closed(s3)->Ok_0;
    let after = ctx.rewarded(s4)->Ok_0;
    assert(after.ledger.balances == s1.ledger.balances);
}

/// What a purchase at `price` under a fee of `fee` adds to the balance of
/// `who`, each party counted in every part that it plays.
pub open spec fn net_flow(ctx: Purchase, treasury: Identity, price: u64, fee: u16, who: Identity)
    -> int {
    (if who == ctx.maker {
        price - fee
    } else {
        0
    }) + (if who == treasury {
        fee as int
    } else {
        0
    }) - (if who == ctx.taker {
        price as int
    } else {
        0
    })
}

/// Conservation, whoever the parties are: a purchase changes every balance
/// by exactly what its owner receives as maker and as treasury less what it
/// pays as taker.
pub proof fn lemma_purchase_net_flows(s: MarketState, ctx: Purchase, who: Identity)
    requires
        ctx.purchased(s) is Ok,
    ensures
        ({
            let after = ctx.purchased(s)->Ok_0;
            let price = s.listings[ctx.listing].price;
            let fee = s.registries[ctx.marketplace].fee;
            let treasury = treasury_of(s, ctx.marketplace)->Some_0;
            after.ledger.balance(who) == s.ledger.balance(who) + net_flow(
                ctx,
                treasury,
                price,
                fee,
                who,
            )
        }),
{
    ctx.lemma_requests();
    let s1 = ctx.paid(s)->Ok_0;
    let s2 = ctx.transferred(s1)->Ok_0;
    let s3 = ctx.vault_closed(s2)->Ok_0;
    let s4 = ctx.listing_closed(s3)->Ok_0;
    let after = ctx.rewarded(s4)->Ok_0;
    assert(after.ledger.balances == s1.ledger.balances);
}

/// Fee bound: where the marketplace's fee is larger than the listing's
/// price, the purchase fails, and it fails on that account.
pub proof fn lemma_purchase_fee_bound(s: MarketState, ctx: Purchase)
    requires
        s.listings.contains_key(ctx.listing),
        s.registries.contains_key(ctx.marketplace),
        s.listings[ctx.listing].price < s.registries[ctx.marketplace].fee,
    ensures
        ctx.purchased(s) == Err::<MarketState, Failure>(Failure::FeeExceedsPrice),
        ctx.paid(s) == Err::<MarketState, Failure>(Failure::FeeExceedsPrice),
{
    ctx.lemma_requests();
}

/// Delivery: after a purchase the listing and its vault are gone, the taker
/// holds one unit more of the asset and one reward credit more.
pub proof fn lemma_purchase_delivers(s: MarketState, ctx: Purchase)
    requires
        ctx.purchased(s) is Ok,
        credit_of(s, ctx.marketplace) != Some(ctx.maker_mint),
    ensures
        ({
            let after = ctx.purchased(s)->Ok_0;
            let credit = credit_of(s, ctx.marketplace)->Some_0;
            &&& !after.listings.contains_key(ctx.listing)
            &&& !after.ledger.accounts.contains_key(ctx.vault())
            &&& after.ledger.holding(ctx.maker_mint, ctx.taker) == s.ledger.holding(
                ctx.maker_mint,
                ctx.taker,
            ) + 1
            &&& after.ledger.holding(credit, ctx.taker) == s.ledger.holding(credit, ctx.taker) + 1
        }),
{
    ctx.lemma_requests();
    let s1 = ctx.paid(s)->Ok_0;
    let s2 = ctx.transferred(s1)->Ok_0;
    let s3 = ctx.vault_closed(s2)->Ok_0;
    let s4 = ctx.listing_closed(s3)->Ok_0;
    let after = ctx.rewarded(s4)->Ok_0;
    let credit = credit_of(s, ctx.marketplace)->Some_0;
    assert(ctx.taker != ctx.listing);
    assert(Custody { asset: credit, holder: ctx.taker } != ctx.vault());
}

/// The request that takes back what `ctx` listed.
pub open spec fn undo(ctx: List) -> Delist {
    Delist {
        maker: ctx.maker,
        maker_mint: ctx.maker_mint,
        marketplace: ctx.marketplace,
        listing: ctx.listing,
    }
}

/// Round trip: where a listing went through, the maker can take it back at
/// once, and that puts the whole state back as it was: the maker's holding,
/// no listing and no vault.
pub proof fn lemma_list_delist_round_trip(s: MarketState, ctx: List, price: u64)
    requires
        ctx.listed(s, price) is Ok,
    ensures
        undo(ctx).delisted(ctx.listed(s, price)->Ok_0) == Ok::<MarketState, Failure>(s),
        s.ledger.holding(ctx.maker_mint, ctx.maker) == 1,
        !s.listings.contains_key(ctx.listing),
        !s.ledger.accounts.contains_key(ctx.vault()),
{
    ctx.lemma_requests();
    let bumps = ctx.validated(s)->Ok_0;
    let s1 = ctx.created(s, price, bumps)->Ok_0;
    let s2 = ctx.deposited(s1)->Ok_0;
    let back = undo(ctx);
    back.lemma_requests();
    let s3 = back.withdrawn(s2)->Ok_0;
    assert(back.withdrawn(s2) is Ok);
    let s4 = back.listing_closed(s3)->Ok_0;
    assert(s4.ledger.accounts =~= s.ledger.accounts);
    assert(s4.listings =~= s.listings);
    assert(s4.ledger == s.ledger);
}

/// Access control: a request to take a listing back that names another maker
/// than the one who listed the asset fails, and it fails on that account.
pub proof fn lemma_delist_by_maker_only(s: MarketState, ctx: Delist)
    requires
        s.listings.contains_key(ctx.listing),
        s.listings[ctx.listing].maker != ctx.maker,
    ensures
        ctx.delisted(s) == Err::<MarketState, Failure>(Failure::WrongMaker),
{
    ctx.lemma_requests();
}

/// A request to take back a listing that does not exist fails.
pub proof fn lemma_delist_needs_listing(s: MarketState, ctx: Delist)
    requires
        !s.listings.contains_key(ctx.listing),
    ensures
        ctx.delisted(s) == Err::<MarketState, Failure>(Failure::UnknownListing),
{
    ctx.lemma_requests();
}

/// Collection gate: an asset whose metadata names another collection than the
/// required one is refused as of an invalid collection, and one whose
/// reference to the required collection is not verified as of an unverified
/// one, whatever else holds of the request.
pub proof fn lemma_list_collection_gate(s: MarketState, ctx: List, price: u64, c: Collection)
    requires
        s.ledger.collection_of(ctx.maker_mint) == Some(c),
        c.key != ctx.collection_mint || !c.verified,
    ensures
        ctx.listed(s, price) == Err::<MarketState, Failure>(
            Failure::Marketplace(
                if c.key != ctx.collection_mint {
                    MarketplaceError::InvalidCollection
                } else {
                    MarketplaceError::UnverifedCollection
                },
            ),
        ),
{
    ctx.lemma_requests();
}

/// An asset can be listed once only: while it is listed, a second request
/// for the same listing fails.
pub proof fn lemma_list_once(s: MarketState, ctx: List, price: u64)
    requires
        s.listings.contains_key(ctx.listing),
    ensures
        ctx.listed(s, price) is Err,
{
    ctx.lemma_requests();
}

/// Return: after a listing has been taken back, the listing and its vault
/// are gone and the maker holds one unit more of the asset.
pub proof fn lemma_delist_returns(s: MarketState, ctx: Delist)
    requires
        ctx.delisted(s) is Ok,
    ensures
        ({
            let after = ctx.delisted(s)->Ok_0;
            &&& !after.listings.contains_key(ctx.listing)
            &&& !after.ledger.accounts.contains_key(ctx.vault())
            &&& after.ledger.holding(ctx.maker_mint, ctx.maker) == s.ledger.holding(
                ctx.maker_mint,
                ctx.maker,
            ) + 1
            &&& after.ledger.balances == s.ledger.balances
        }),
{
    ctx.lemma_requests();
    let s1 = ctx.withdrawn(s)->Ok_0;
    assert(ctx.maker != ctx.listing);
}

/// Once per name: after a marketplace has been created, a second one of the
/// same name is refused, whoever asks and whatever the fee.
pub proof fn lemma_initialize_once(
    s: MarketState,
    first: Initialize,
    second: Initialize,
    name: String,
    fee: u16,
    other_fee: u16,
)
    requires
        first.initialized(s, name, fee) is Ok,
    ensures
        second.initialized(first.initialized(s, name, fee)->Ok_0, name, other_fee) == Err::<
            MarketState,
            Failure,
        >(Failure::DuplicateMarketplace),
{
    Initialize::lemma_requests();
}

/// A marketplace, once created, stays as it is: no request changes or
/// removes its record.
pub proof fn lemma_marketplaces_stay(s: MarketState, id: Identity)
    requires
        s.registries.contains_key(id),
    ensures
        forall|ctx: Initialize, name: String, fee: u16| #[trigger]
            ctx.initialized(s, name, fee) matches Ok(after) ==> after.registries.contains_key(id)
                && after.registries[id] == s.registries[id],
        forall|ctx: List, price: u64| #[trigger]
            ctx.listed(s, price) matches Ok(after) ==> after.registries == s.registries,
        forall|ctx: Delist| #[trigger]
            ctx.delisted(s) matches Ok(after) ==> after.registries == s.registries,
        forall|ctx: Purchase| #[trigger]
            ctx.purchased(s) matches Ok(after) ==> after.registries == s.registries,
{
    Initialize::lemma_requests();
    assert forall|ctx: List, price: u64| #[trigger]
        ctx.listed(s, price) matches Ok(after) ==> after.registries == s.registries by {
        ctx.lemma_requests();
        if ctx.listed(s, price) is Ok {
            let bumps = ctx.validated(s)->Ok_0;
            let s1 = ctx.created(s, price, bumps)->Ok_0;
        }
    }
    assert forall|ctx: Delist| #[trigger]
        ctx.delisted(s) matches Ok(after) ==> after.registries == s.registries by {
        ctx.lemma_requests();
        if ctx.delisted(s) is Ok {
            let s1 = ctx.withdrawn(s)->Ok_0;
        }
    }
    assert forall|ctx: Purchase| #[trigger]
        ctx.purchased(s) matches Ok(after) ==> after.registries == s.registries by {
        ctx.lemma_requests();
        if ctx.purchased(s) is Ok {
            let s1 = ctx.paid(s)->Ok_0;
            let s2 = ctx.transferred(s1)->Ok_0;
            let s3 = ctx.vault_closed(s2)->Ok_0;
            let s4 = ctx.listing_closed(s3)->Ok_0;
        }
    }
}

/// Custody: units leave an account, and the account is closed, only on the
/// authority of its holder. A vault's holder is its listing, so no party
/// that signs in its own name, the maker and the taker included, moves the
/// escrowed asset or closes the vault.
pub proof fn lemma_only_the_holder_releases(
    ledger: LedgerState,
    asset: Identity,
    holder: Identity,
    to: Identity,
    claim: Claim,
)
    requires
        !proves(ledger.program, claim, holder),
    ensures
        ledger.transfer_asset(asset, holder, to, claim) is Err,
        ledger.close_account(Custody { asset, holder }, claim) is Err,
        forall|who: Identity| who != holder ==> !proves(ledger.program, Claim::Signer(who), holder),
{
}

/// Reclaim: where a purchase or a withdrawal goes through, the ledger is
/// asked to let the listing's own maker have the storage cost of the vault.
pub proof fn lemma_vault_is_reclaimed_by_the_maker(s: MarketState, sale: Purchase, back: Delist)
    ensures
        sale.purchased(s) is Ok ==> forall|bump: u8|
            (#[trigger] sale.close_requests(bump))[0] matches Request::CloseAccount {
                account,
                reclaim_to,
                claim,
            } && account == sale.vault() && reclaim_to == s.listings[sale.listing].maker,
        back.delisted(s) is Ok ==> forall|bump: u8|
            (#[trigger] back.withdraw_requests(bump))[2] matches Request::CloseAccount {
                account,
                reclaim_to,
                claim,
            } && account == back.vault() && reclaim_to == s.listings[back.listing].maker,
{
}

} // verus!
