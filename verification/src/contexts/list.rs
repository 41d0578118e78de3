use vstd::prelude::*;
use crate::authority::{authority_found, authority_of, find_listing, listing_seeds, with_bump};
use crate::identity::{Identity, Key};
use crate::calls::{lemma_run_one, requests, Call, Request};
use crate::ledger::{settles, Claim, Collection, Custody, LedgerState, Warrant};
use crate::market::{Failure, Market, MarketState};
use crate::state::{Listing, MarketplaceError};

verus! {

/// Whether an asset is admitted whose metadata holds `collection`, where
/// the marketplace lists the collection `required`: the reference must name
/// that collection, and must be verified.
pub open spec fn gate_of(collection: Option<Collection>, required: Identity) -> Result<
    (),
    Failure,
> {
    match collection {
        None => Err(Failure::MissingMetadata),
        Some(c) => if c.key != required {
            Err(Failure::Marketplace(MarketplaceError::InvalidCollection))
        } else if !c.verified {
            Err(Failure::Marketplace(MarketplaceError::UnverifedCollection))
        } else {
            Ok(())
        },
    }
}

/// Admits an asset only if its metadata names the required collection and
/// the reference is verified.
pub fn collection_gate(collection: Option<Collection>, required: &Identity) -> (r: Result<
    (),
    Failure,
>)
    ensures
        r == gate_of(collection, *required),
{
    match collection {
        None => Err(Failure::MissingMetadata),
        Some(c) => {
            if !c.key.same(required) {
                Err(Failure::Marketplace(MarketplaceError::InvalidCollection))
            } else if !c.verified {
                Err(Failure::Marketplace(MarketplaceError::UnverifedCollection))
            } else {
                Ok(())
            }
        },
    }
}

/// The bump seeds that the validation of a [`List`] request finds.
#[derive(Clone, Copy, Debug, PartialEq, Eq)]
pub struct ListBumps {
    pub listing: u8,
}

/// The parties and records of one request to list: the maker, the asset, the
/// marketplace, the listing to create, and the collection that the asset must
/// belong to.
#[derive(Clone, Copy, Debug, PartialEq, Eq)]
pub struct List {
    pub maker: Identity,
    pub maker_mint: Identity,
    pub marketplace: Identity,
    pub listing: Identity,
    pub collection_mint: Identity,
}

impl List {
    /// The vault of the listing to create.
    pub open spec fn vault(self) -> Custody {
        Custody { asset: self.maker_mint, holder: self.listing }
    }

    /// What creating the listing asks of the ledger: to open its vault.
    pub open spec fn create_requests(self) -> Seq<Request> {
        seq![Request::OpenAccount { account: self.vault() }]
    }

    /// What the deposit asks of the ledger: the one unit from the maker to
    /// the vault, signed for by the maker.
    pub open spec fn deposit_requests(self) -> Seq<Request> {
        seq![
            Request::TransferAsset {
                asset: self.maker_mint,
                from: self.maker,
                to: self.listing,
                claim: Claim::Signer(self.maker),
            },
        ]
    }

    /// What the collection gate says of the asset.
    pub open spec fn gate(self, s: MarketState) -> Result<(), Failure> {
        gate_of(s.ledger.collection_of(self.maker_mint), self.collection_mint)
    }

    /// Whether the listing is where a search put it: the search must have
    /// found an authority, and the listing named must be that one. The bump
    /// seed that was found with it is the listing's.
    pub open spec fn placed(self, found: Option<(Identity, u8)>) -> Result<ListBumps, Failure> {
        match found {
            None => Err(Failure::Underivable),
            Some((address, bump)) => if address == self.listing {
                Ok(ListBumps { listing: bump })
            } else {
                Err(Failure::SeedsMismatch)
            },
        }
    }

    /// What the validation of the request comes to: the bump seed of the
    /// listing, or the first rule that the request breaks. The collection
    /// gate comes first; then the marketplace must exist, the maker must not
    /// be a listing's authority, and the listing must be where the
    /// marketplace and the asset put it, with a bump seed that re-derives it.
    pub open spec fn validated(self, s: MarketState) -> Result<ListBumps, Failure> {
        let seeds = listing_seeds(self.marketplace, self.maker_mint);
        let found = authority_found(seeds, s.ledger.program);
        match self.gate(s) {
            Err(e) => Err(e),
            Ok(()) => if !s.registries.contains_key(self.marketplace) {
                Err(Failure::UnknownMarketplace)
            } else if s.listings.contains_key(self.maker) || self.maker == self.listing {
                Err(Failure::EscrowParty)
            } else if found matches Some((address, bump)) && authority_of(
                with_bump(seeds, bump),
                s.ledger.program,
            ) != Some(address) {
                Err(Failure::SeedsMismatch)
            } else {
                self.placed(found)
            },
        }
    }

    /// The state after the listing has been filed and its vault opened.
    pub open spec fn created(self, s: MarketState, price: u64, bumps: ListBumps) -> Result<
        MarketState,
        Failure,
    > {
        if s.listings.contains_key(self.listing) {
            Err(Failure::DuplicateListing)
        } else {
            match s.ledger.run(self.create_requests()) {
                Err(e) => Err(Failure::Ledger(e)),
                Ok(ledger) => Ok(
                    MarketState {
                        ledger,
                        listings: s.listings.insert(
                            self.listing,
                            Listing {
                                maker: self.maker,
                                mint: self.maker_mint,
                                price,
                                bump: bumps.listing,
                            },
                        ),
                        ..s
                    },
                ),
            }
        }
    }

    /// The state after the maker's one unit of the asset has gone into the
    /// vault.
    pub open spec fn deposited(self, s: MarketState) -> Result<MarketState, Failure> {
        s.after(s.ledger.run(self.deposit_requests()))
    }

    /// The state after the whole request: validation, creation of listing and
    /// vault, and deposit, in this order, or the first failure among them.
    pub open spec fn listed(self, s: MarketState, price: u64) -> Result<MarketState, Failure> {
        match self.validated(s) {
            Err(e) => Err(e),
            Ok(bumps) => match self.created(s, price, bumps) {
                Err(e) => Err(e),
                Ok(s1) => self.deposited(s1),
            },
        }
    }

    /// What the lists of requests of a listing come to on any ledger: the
    /// opening of the vault, and the transfer of the asset into it.
    pub proof fn lemma_requests(self)
        ensures
            forall|ledger: LedgerState| #[trigger]
                ledger.run(self.create_requests()) == ledger.open_account(self.vault()),
            forall|ledger: LedgerState| #[trigger]
                ledger.run(self.deposit_requests()) == ledger.transfer_asset(
                    self.maker_mint,
                    self.maker,
                    self.listing,
                    Claim::Signer(self.maker),
                ),
    {
        assert forall|ledger: LedgerState| #[trigger]
            ledger.run(self.create_requests()) == ledger.open_account(self.vault()) by {
            lemma_run_one(ledger, self.create_requests()[0]);
        }
        assert forall|ledger: LedgerState| #[trigger]
            ledger.run(self.deposit_requests()) == ledger.transfer_asset(
                self.maker_mint,
                self.maker,
                self.listing,
                Claim::Signer(self.maker),
            ) by {
            lemma_run_one(ledger, self.deposit_requests()[0]);
        }
    }

    /// Checks the request against the rules that must hold before anything is
    /// changed, and finds the listing's bump seed.
    pub fn validate(&self, market: &Market) -> (r: Result<ListBumps, Failure>)
        requires
            market.wf(),
        ensures
            r == self.validated(market@),
    {
        let collection = market.ledger().collection_of(&self.maker_mint);
        match collection_gate(collection, &self.collection_mint) {
            Ok(()) => {},
            Err(e) => {
                return Err(e);
            },
        }
        if market.marketplace(&self.marketplace).is_none() {
            return Err(Failure::UnknownMarketplace);
        }
        if market.is_listing(&self.maker) || self.maker.same(&self.listing) {
            return Err(Failure::EscrowParty);
        }
        let program = market.ledger().program();
        self.place(find_listing(&program, &self.marketplace, &self.maker_mint))
    }

    /// Decides whether the listing is where a search put it, and takes the
    /// bump seed that was found with it.
    pub fn place(&self, found: Option<(Identity, u8)>) -> (r: Result<ListBumps, Failure>)
        ensures
            r == self.placed(found),
    {
        match found {
            None => Err(Failure::Underivable),
            Some((address, bump)) => {
                if address.same(&self.listing) {
                    Ok(ListBumps { listing: bump })
                } else {
                    Err(Failure::SeedsMismatch)
                }
            },
        }
    }

    /// Lists the calls that go with the creation of the listing.
    pub fn create_calls(&self) -> (calls: Vec<Call>)
        ensures
            requests(calls@) == self.create_requests(),
    {
        let mut calls: Vec<Call> = Vec::new();
        calls.push(
            Call::OpenAccount { account: Custody { asset: self.maker_mint, holder: self.listing } },
        );
        assert(requests(calls@) =~= self.create_requests());
        calls
    }

    /// Lists the calls that deposit the asset.
    pub fn deposit_calls(&self) -> (calls: Vec<Call>)
        ensures
            requests(calls@) == self.deposit_requests(),
    {
        let mut calls: Vec<Call> = Vec::new();
        calls.push(
            Call::TransferAsset {
                asset: self.maker_mint,
                from: self.maker,
                to: self.listing,
                warrant: Warrant::Signer(self.maker),
            },
        );
        assert(requests(calls@) =~= self.deposit_requests());
        calls
    }

    /// Files the listing with maker, asset, price and bump seed, and opens
    /// its vault.
    pub fn create_listing(&self, market: &mut Market, price: u64, bumps: &ListBumps) -> (r: Result<
        (),
        Failure,
    >)
        requires
            old(market).wf(),
        ensures
            final(market).wf(),
            settles(r, old(market)@, final(market)@, self.created(old(market)@, price, *bumps)),
    {
        if market.is_listing(&self.listing) {
            return Err(Failure::DuplicateListing);
        }
        match market.ask(&self.create_calls()) {
            Ok(()) => {},
            Err(e) => {
                return Err(e);
            },
        }
        market.put_listing(
            self.listing,
            Listing { maker: self.maker, mint: self.maker_mint, price, bump: bumps.listing },
        );
        Ok(())
    }

    /// Moves the maker's one unit of the asset into the vault, on the
    /// maker's own authority.
    pub fn deposit_nft(&self, market: &mut Market) -> (r: Result<(), Failure>)
        requires
            old(market).wf(),
        ensures
            final(market).wf(),
            settles(r, old(market)@, final(market)@, self.deposited(old(market)@)),
    {
        market.ask(&self.deposit_calls())
    }
}

} // verus!
