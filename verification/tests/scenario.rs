use marketplace::authority::{find_listing, find_marketplace, find_rewards_mint, find_treasury};
use marketplace::{
    delist, initialize, list, purchase, Collection, Custody, Delist, Failure, Identity,
    Initialize, Ledger, LedgerError, List, ListBumps, Listing, Market, Marketplace,
    MarketplaceError, Purchase, Warrant,
};

fn id(tag: u8) -> Identity {
    Identity::new([tag; 32])
}

const FEE: u16 = 100;
const PRICE: u64 = 1000;

struct World {
    program: Identity,
    maker: Identity,
    taker: Identity,
    creator: Identity,
    asset: Identity,
    collection: Identity,
    registry: Identity,
    listing: Identity,
    treasury: Identity,
    credit: Identity,
}

fn world(taker_funds: u64) -> (Market, World) {
    let program = id(7);
    let maker = id(1);
    let taker = id(2);
    let creator = id(3);
    let asset = id(10);
    let collection = id(11);
    let mut ledger = Ledger::new(program);
    ledger.deposit(&taker, taker_funds).unwrap();
    ledger.create_issuer(&asset, &creator).unwrap();
    ledger
        .open_account(Custody { asset, holder: maker })
        .unwrap();
    ledger
        .mint(&asset, &maker, 1, &Warrant::Signer(creator))
        .unwrap();
    ledger.record_metadata(&asset, Collection { key: collection, verified: true });
    let mut market = Market::new(ledger);
    initialize(&mut market, &Initialize { admin: id(4) }, String::from("toys"), FEE).unwrap();
    let (registry, _) = find_marketplace(&program, "toys").unwrap();
    let (listing, _) = find_listing(&program, &registry, &asset).unwrap();
    let (treasury, _) = find_treasury(&program, &registry).unwrap();
    let (credit, _) = find_rewards_mint(&program, &registry).unwrap();
    let w =
        World { program, maker, taker, creator, asset, collection, registry, listing, treasury, credit };
    (market, w)
}

fn list_ctx(w: &World) -> List {
    List {
        maker: w.maker,
        maker_mint: w.asset,
        marketplace: w.registry,
        listing: w.listing,
        collection_mint: w.collection,
    }
}

fn purchase_ctx(w: &World) -> Purchase {
    Purchase {
        taker: w.taker,
        maker: w.maker,
        maker_mint: w.asset,
        marketplace: w.registry,
        listing: w.listing,
    }
}

fn delist_ctx(w: &World) -> Delist {
    Delist { maker: w.maker, maker_mint: w.asset, marketplace: w.registry, listing: w.listing }
}

#[test]
fn toys_sale_pays_maker_and_treasury_and_rewards_taker() {
    let (mut market, w) = world(5000);
    let marketplace = market.marketplace(&w.registry).unwrap();
    assert_eq!(marketplace.name, "toys");
    assert_eq!(marketplace.fee, 100);
    assert_eq!(marketplace.admin, id(4));

    assert_eq!(list(&mut market, &list_ctx(&w), PRICE), Ok(()));
    let listing = market.listing(&w.listing).unwrap();
    assert_eq!(listing.maker, w.maker);
    assert_eq!(listing.mint, w.asset);
    assert_eq!(listing.price, 1000);
    assert_eq!(market.ledger().account(&w.asset, &w.listing), Some(1));
    assert_eq!(market.ledger().account(&w.asset, &w.maker), Some(0));

    assert_eq!(purchase(&mut market, &purchase_ctx(&w)), Ok(()));
    let ledger = market.ledger();
    assert_eq!(ledger.balance(&w.maker), 900);
    assert_eq!(ledger.balance(&w.treasury), 100);
    assert_eq!(ledger.balance(&w.taker), 4000);
    assert_eq!(ledger.account(&w.asset, &w.taker), Some(1));
    assert_eq!(ledger.account(&w.credit, &w.taker), Some(1));
    assert_eq!(ledger.account(&w.asset, &w.listing), None);
    assert_eq!(market.listing(&w.listing), None);
    assert!(!market.is_listing(&w.listing));
}

#[test]
fn second_purchase_of_a_sold_asset_fails() {
    let (mut market, w) = world(5000);
    list(&mut market, &list_ctx(&w), PRICE).unwrap();
    purchase(&mut market, &purchase_ctx(&w)).unwrap();
    assert_eq!(purchase(&mut market, &purchase_ctx(&w)), Err(Failure::UnknownListing));
    assert_eq!(market.ledger().balance(&w.taker), 4000);
}

#[test]
fn purchase_with_the_whole_price_as_fee_pays_the_maker_nothing() {
    let (mut market, w) = world(5000);
    list(&mut market, &list_ctx(&w), 100).unwrap();
    assert_eq!(purchase(&mut market, &purchase_ctx(&w)), Ok(()));
    assert_eq!(market.ledger().balance(&w.maker), 0);
    assert_eq!(market.ledger().balance(&w.treasury), 100);
    assert_eq!(market.ledger().balance(&w.taker), 4900);
}

#[test]
fn purchase_below_the_fee_fails_before_any_payment() {
    let (mut market, w) = world(5000);
    list(&mut market, &list_ctx(&w), 99).unwrap();
    assert_eq!(purchase(&mut market, &purchase_ctx(&w)), Err(Failure::FeeExceedsPrice));
    assert_eq!(purchase_ctx(&w).pay(&mut market), Err(Failure::FeeExceedsPrice));
    assert_eq!(market.ledger().balance(&w.taker), 5000);
    assert_eq!(market.ledger().balance(&w.maker), 0);
    assert_eq!(market.ledger().balance(&w.treasury), 0);
    assert_eq!(market.ledger().account(&w.asset, &w.listing), Some(1));
    assert!(market.is_listing(&w.listing));
}

#[test]
fn purchase_without_funds_changes_nothing() {
    let (mut market, w) = world(999);
    list(&mut market, &list_ctx(&w), PRICE).unwrap();
    assert_eq!(
        purchase(&mut market, &purchase_ctx(&w)),
        Err(Failure::Ledger(LedgerError::InsufficientFunds))
    );
    assert_eq!(market.ledger().balance(&w.taker), 999);
    assert_eq!(market.ledger().balance(&w.maker), 0);
    assert_eq!(market.ledger().balance(&w.treasury), 0);
    assert_eq!(market.ledger().account(&w.asset, &w.listing), Some(1));
    assert_eq!(market.ledger().account(&w.asset, &w.taker), None);
    assert_eq!(market.ledger().account(&w.credit, &w.taker), None);
    assert!(market.is_listing(&w.listing));
}

#[test]
fn pay_makes_both_payments_or_none() {
    let (mut market, w) = world(950);
    list(&mut market, &list_ctx(&w), PRICE).unwrap();
    assert_eq!(
        purchase_ctx(&w).pay(&mut market),
        Err(Failure::Ledger(LedgerError::InsufficientFunds))
    );
    assert_eq!(market.ledger().balance(&w.taker), 950);
    assert_eq!(market.ledger().balance(&w.maker), 0);
}

#[test]
fn purchase_steps_run_one_by_one() {
    let (mut market, w) = world(1000);
    list(&mut market, &list_ctx(&w), PRICE).unwrap();
    let ctx = purchase_ctx(&w);
    assert_eq!(ctx.close_vault_account(&mut market), Err(Failure::Ledger(LedgerError::NotEmpty)));
    assert_eq!(ctx.pay(&mut market), Ok(()));
    assert_eq!(market.ledger().balance(&w.taker), 0);
    assert_eq!(market.ledger().balance(&w.maker), 900);
    assert_eq!(market.ledger().balance(&w.treasury), 100);
    assert_eq!(ctx.transfer_nft(&mut market), Ok(()));
    assert_eq!(market.ledger().account(&w.asset, &w.taker), Some(1));
    assert_eq!(market.ledger().account(&w.asset, &w.listing), Some(0));
    assert_eq!(
        ctx.transfer_nft(&mut market),
        Err(Failure::Ledger(LedgerError::NotOneUnit))
    );
    assert_eq!(ctx.close_vault_account(&mut market), Ok(()));
    assert_eq!(market.ledger().account(&w.asset, &w.listing), None);
    assert_eq!(ctx.close_vault_account(&mut market), Err(Failure::Ledger(LedgerError::NoAccount)));
    assert_eq!(ctx.close_listing(&mut market), Ok(()));
    assert_eq!(ctx.close_listing(&mut market), Err(Failure::UnknownListing));
    assert_eq!(ctx.reward_buyer(&mut market), Ok(()));
    assert_eq!(ctx.reward_buyer(&mut market), Ok(()));
    assert_eq!(market.ledger().account(&w.credit, &w.taker), Some(2));
    assert_eq!(market.ledger().issuer(&w.credit), Some(w.registry));
}

#[test]
fn purchase_that_names_another_maker_fails() {
    let (mut market, w) = world(5000);
    list(&mut market, &list_ctx(&w), PRICE).unwrap();
    let mut ctx = purchase_ctx(&w);
    ctx.maker = w.taker;
    assert_eq!(purchase(&mut market, &ctx), Err(Failure::WrongMaker));
    assert_eq!(market.ledger().balance(&w.taker), 5000);
}

#[test]
fn purchase_that_names_another_asset_fails_and_pays_nothing() {
    let (mut market, w) = world(5000);
    list(&mut market, &list_ctx(&w), PRICE).unwrap();
    let mut ctx = purchase_ctx(&w);
    ctx.maker_mint = id(99);
    assert_eq!(purchase(&mut market, &ctx), Err(Failure::WrongAsset));
    assert_eq!(market.ledger().balance(&w.taker), 5000);
    assert_eq!(market.ledger().balance(&w.maker), 0);
}

#[test]
fn purchase_on_another_marketplace_cannot_sign_for_the_vault() {
    let (mut market, w) = world(5000);
    initialize(&mut market, &Initialize { admin: id(4) }, String::from("books"), 1).unwrap();
    let (books, _) = find_marketplace(&w.program, "books").unwrap();
    list(&mut market, &list_ctx(&w), PRICE).unwrap();
    let mut ctx = purchase_ctx(&w);
    ctx.marketplace = books;
    assert_eq!(purchase(&mut market, &ctx), Err(Failure::Ledger(LedgerError::Unauthorized)));
    assert_eq!(market.ledger().balance(&w.taker), 5000);
    assert_eq!(market.ledger().balance(&w.maker), 0);
    ctx.marketplace = id(98);
    assert_eq!(purchase(&mut market, &ctx), Err(Failure::UnknownMarketplace));
}

#[test]
fn purchase_by_the_maker_costs_the_fee() {
    let (mut market, w) = world(0);
    let mut ledger = Ledger::new(w.program);
    ledger.deposit(&w.maker, 500).unwrap();
    ledger.create_issuer(&w.asset, &w.creator).unwrap();
    ledger.open_account(Custody { asset: w.asset, holder: w.maker }).unwrap();
    ledger.mint(&w.asset, &w.maker, 1, &Warrant::Signer(w.creator)).unwrap();
    ledger.record_metadata(&w.asset, Collection { key: w.collection, verified: true });
    market = Market::new(ledger);
    initialize(&mut market, &Initialize { admin: id(4) }, String::from("toys"), FEE).unwrap();
    list(&mut market, &list_ctx(&w), PRICE).unwrap();
    let mut ctx = purchase_ctx(&w);
    ctx.taker = w.maker;
    assert_eq!(purchase(&mut market, &ctx), Err(Failure::Ledger(LedgerError::InsufficientFunds)));
    list(&mut market, &list_ctx(&w), 400).unwrap_err();
    delist(&mut market, &delist_ctx(&w)).unwrap();
    list(&mut market, &list_ctx(&w), 400).unwrap();
    assert_eq!(purchase(&mut market, &ctx), Ok(()));
    assert_eq!(market.ledger().balance(&w.maker), 400);
    assert_eq!(market.ledger().balance(&w.treasury), 100);
    assert_eq!(market.ledger().account(&w.asset, &w.maker), Some(1));
}

#[test]
fn list_then_delist_restores_the_maker() {
    let (mut market, w) = world(0);
    assert_eq!(market.ledger().account(&w.asset, &w.maker), Some(1));
    assert_eq!(list(&mut market, &list_ctx(&w), PRICE), Ok(()));
    assert_eq!(delist(&mut market, &delist_ctx(&w)), Ok(()));
    assert_eq!(market.ledger().account(&w.asset, &w.maker), Some(1));
    assert_eq!(market.ledger().account(&w.asset, &w.listing), None);
    assert_eq!(market.listing(&w.listing), None);
    assert_eq!(list(&mut market, &list_ctx(&w), PRICE), Ok(()));
}

#[test]
fn delist_by_another_party_changes_nothing() {
    let (mut market, w) = world(0);
    assert_eq!(list(&mut market, &list_ctx(&w), PRICE), Ok(()));
    let mut ctx = delist_ctx(&w);
    ctx.maker = w.taker;
    assert_eq!(delist(&mut market, &ctx), Err(Failure::WrongMaker));
    assert_eq!(ctx.withdraw_nft(&mut market), Err(Failure::WrongMaker));
    assert_eq!(market.ledger().account(&w.asset, &w.listing), Some(1));
    assert_eq!(market.ledger().account(&w.asset, &w.taker), None);
    assert!(market.is_listing(&w.listing));
}

#[test]
fn delist_of_what_is_not_listed_fails() {
    let (mut market, w) = world(0);
    assert_eq!(delist(&mut market, &delist_ctx(&w)), Err(Failure::UnknownListing));
    assert_eq!(delist_ctx(&w).close_listing(&mut market), Err(Failure::UnknownListing));
    assert_eq!(market.ledger().account(&w.asset, &w.maker), Some(1));
}

#[test]
fn delist_that_names_another_asset_fails() {
    let (mut market, w) = world(0);
    list(&mut market, &list_ctx(&w), PRICE).unwrap();
    let mut ctx = delist_ctx(&w);
    ctx.maker_mint = id(99);
    assert_eq!(delist(&mut market, &ctx), Err(Failure::WrongAsset));
}

#[test]
fn delist_steps_run_one_by_one() {
    let (mut market, w) = world(0);
    list(&mut market, &list_ctx(&w), PRICE).unwrap();
    let ctx = delist_ctx(&w);
    assert_eq!(ctx.withdraw_nft(&mut market), Ok(()));
    assert_eq!(market.ledger().account(&w.asset, &w.maker), Some(1));
    assert_eq!(market.ledger().account(&w.asset, &w.listing), None);
    assert!(market.is_listing(&w.listing));
    assert_eq!(ctx.close_listing(&mut market), Ok(()));
    assert!(!market.is_listing(&w.listing));
}

#[test]
fn list_of_an_asset_of_another_collection_is_refused() {
    let (mut market, w) = world(0);
    let mut ctx = list_ctx(&w);
    ctx.collection_mint = id(12);
    assert_eq!(
        list(&mut market, &ctx, PRICE),
        Err(Failure::Marketplace(MarketplaceError::InvalidCollection))
    );
    assert_eq!(market.listing(&w.listing), None);
    assert_eq!(market.ledger().account(&w.asset, &w.listing), None);
    assert_eq!(market.ledger().account(&w.asset, &w.maker), Some(1));
}

#[test]
fn list_of_an_unverified_asset_is_refused() {
    let program = id(7);
    let maker = id(1);
    let asset = id(10);
    let mut ledger = Ledger::new(program);
    ledger.create_issuer(&asset, &id(3)).unwrap();
    ledger.open_account(Custody { asset, holder: maker }).unwrap();
    ledger.mint(&asset, &maker, 1, &Warrant::Signer(id(3))).unwrap();
    ledger.record_metadata(&asset, Collection { key: id(11), verified: false });
    let mut market = Market::new(ledger);
    initialize(&mut market, &Initialize { admin: id(4) }, String::from("toys"), FEE).unwrap();
    let (registry, _) = find_marketplace(&program, "toys").unwrap();
    let (listing, _) = find_listing(&program, &registry, &asset).unwrap();
    let mut ctx =
        List { maker, maker_mint: asset, marketplace: registry, listing, collection_mint: id(11) };
    assert_eq!(
        list(&mut market, &ctx, PRICE),
        Err(Failure::Marketplace(MarketplaceError::UnverifedCollection))
    );
    assert_eq!(market.listing(&listing), None);
    assert_eq!(market.ledger().account(&asset, &maker), Some(1));
    ctx.collection_mint = id(12);
    assert_eq!(
        list(&mut market, &ctx, PRICE),
        Err(Failure::Marketplace(MarketplaceError::InvalidCollection))
    );
}

#[test]
fn list_of_an_asset_without_metadata_is_refused() {
    let (mut market, w) = world(0);
    let mut ctx = list_ctx(&w);
    ctx.maker_mint = id(50);
    assert_eq!(list(&mut market, &ctx, PRICE), Err(Failure::MissingMetadata));
}

#[test]
fn list_on_an_unknown_marketplace_is_refused() {
    let (mut market, w) = world(0);
    let mut ctx = list_ctx(&w);
    ctx.marketplace = id(60);
    assert_eq!(list(&mut market, &ctx, PRICE), Err(Failure::UnknownMarketplace));
}

#[test]
fn list_at_another_address_is_refused() {
    let (mut market, w) = world(0);
    let mut ctx = list_ctx(&w);
    ctx.listing = id(61);
    assert_eq!(list(&mut market, &ctx, PRICE), Err(Failure::SeedsMismatch));
    assert_eq!(market.listing(&id(61)), None);
    assert_eq!(market.ledger().account(&w.asset, &id(61)), None);
}

#[test]
fn list_by_the_listing_itself_is_refused() {
    let (mut market, w) = world(0);
    let mut ctx = list_ctx(&w);
    ctx.maker = w.listing;
    assert_eq!(list(&mut market, &ctx, PRICE), Err(Failure::EscrowParty));
}

#[test]
fn list_twice_is_refused_and_keeps_the_first() {
    let (mut market, w) = world(0);
    list(&mut market, &list_ctx(&w), PRICE).unwrap();
    assert_eq!(list(&mut market, &list_ctx(&w), 5), Err(Failure::DuplicateListing));
    assert_eq!(market.listing(&w.listing).unwrap().price, 1000);
    assert_eq!(market.ledger().account(&w.asset, &w.listing), Some(1));
}

#[test]
fn list_by_one_who_does_not_hold_the_asset_is_refused() {
    let (mut market, w) = world(0);
    let mut ctx = list_ctx(&w);
    ctx.maker = w.taker;
    assert_eq!(list(&mut market, &ctx, PRICE), Err(Failure::Ledger(LedgerError::NoAccount)));
    assert_eq!(market.listing(&w.listing), None);
    assert_eq!(market.ledger().account(&w.asset, &w.listing), None);
}

#[test]
fn list_steps_run_one_by_one() {
    let (mut market, w) = world(0);
    let ctx = list_ctx(&w);
    let bumps = ctx.validate(&market).unwrap();
    let (_, bump) = find_listing(&w.program, &w.registry, &w.asset).unwrap();
    assert_eq!(bumps, ListBumps { listing: bump });
    assert_eq!(ctx.deposit_nft(&mut market), Err(Failure::Ledger(LedgerError::NoAccount)));
    assert_eq!(ctx.create_listing(&mut market, 77, &bumps), Ok(()));
    assert_eq!(
        market.listing(&w.listing),
        Some(Listing { maker: w.maker, mint: w.asset, price: 77, bump })
    );
    assert_eq!(market.ledger().account(&w.asset, &w.listing), Some(0));
    assert_eq!(ctx.create_listing(&mut market, 78, &bumps), Err(Failure::DuplicateListing));
    assert_eq!(ctx.deposit_nft(&mut market), Ok(()));
    assert_eq!(market.ledger().account(&w.asset, &w.listing), Some(1));
    assert_eq!(market.ledger().account(&w.asset, &w.maker), Some(0));
    assert_eq!(ctx.deposit_nft(&mut market), Err(Failure::Ledger(LedgerError::NotOneUnit)));
}

#[test]
fn initialize_accepts_a_name_of_32_bytes_and_refuses_33() {
    let mut market = Market::new(Ledger::new(id(7)));
    let admin = Initialize { admin: id(4) };
    let long = "a".repeat(33);
    assert_eq!(
        initialize(&mut market, &admin, long, 5),
        Err(Failure::Marketplace(MarketplaceError::NameTooLong))
    );
    let fits = "a".repeat(32);
    assert_eq!(initialize(&mut market, &admin, fits.clone(), 5), Ok(()));
    let (registry, bump) = find_marketplace(&id(7), &fits).unwrap();
    let (_, treasury_bump) = find_treasury(&id(7), &registry).unwrap();
    let (credit, rewards_mint_bump) = find_rewards_mint(&id(7), &registry).unwrap();
    assert_eq!(
        market.marketplace(&registry),
        Some(&Marketplace {
            admin: id(4),
            fee: 5,
            bump,
            treasury_bump,
            rewards_mint_bump,
            name: fits
        })
    );
    assert_eq!(market.ledger().issuer(&credit), Some(registry));
    let wide = "\u{e9}".repeat(17);
    assert_eq!(wide.len(), 34);
    assert_eq!(
        initialize(&mut market, &admin, wide, 5),
        Err(Failure::Marketplace(MarketplaceError::NameTooLong))
    );
}

#[test]
fn initialize_twice_with_one_name_is_refused() {
    let mut market = Market::new(Ledger::new(id(7)));
    let first = Initialize { admin: id(4) };
    let second = Initialize { admin: id(5) };
    assert_eq!(initialize(&mut market, &first, String::from("toys"), 100), Ok(()));
    assert_eq!(
        initialize(&mut market, &second, String::from("toys"), 7),
        Err(Failure::DuplicateMarketplace)
    );
    let (registry, _) = find_marketplace(&id(7), "toys").unwrap();
    assert_eq!(market.marketplace(&registry).unwrap().admin, id(4));
    assert_eq!(market.marketplace(&registry).unwrap().fee, 100);
    assert_eq!(initialize(&mut market, &second, String::from("games"), 7), Ok(()));
}

#[test]
fn initialize_fails_where_the_reward_credit_is_taken() {
    let program = id(7);
    let (registry, _) = find_marketplace(&program, "toys").unwrap();
    let (credit, _) = find_rewards_mint(&program, &registry).unwrap();
    let mut ledger = Ledger::new(program);
    ledger.create_issuer(&credit, &id(9)).unwrap();
    let mut market = Market::new(ledger);
    assert_eq!(
        initialize(&mut market, &Initialize { admin: id(4) }, String::from("toys"), 100),
        Err(Failure::Ledger(LedgerError::AccountExists))
    );
    assert_eq!(market.marketplace(&registry), None);
    assert_eq!(market.ledger().issuer(&credit), Some(id(9)));
}

#[test]
fn error_messages() {
    assert_eq!(MarketplaceError::NameTooLong.message(), "Given name is too long");
    assert_eq!(MarketplaceError::InvalidCollection.message(), "Collection is not Valid");
    assert_eq!(MarketplaceError::UnverifedCollection.message(), "Collection is not Verified");
}

#[test]
fn record_sizes() {
    assert_eq!(Listing::INIT_SPACE, 81);
    assert_eq!(Marketplace::INIT_SPACE, 81);
}
