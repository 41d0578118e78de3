use vstd::prelude::*;
use crate::authority::{build_listing_seeds, listing_seeds, push_bump, with_bump};
use crate::identity::{Identity, Key};
use crate::calls::{lemma_run_three, requests, Call, Request};
use crate::ledger::{settles, Claim, Custody, LedgerState, Warrant};
use crate::market::{Failure, Market, MarketState};

verus! {

/// The parties and records of one request to take a listing back: the maker,
/// the asset, the marketplace it is listed on, and the listing.
#[derive(Clone, Copy, Debug, PartialEq, Eq)]
pub struct Delist {
    pub maker: Identity,
    pub maker_mint: Identity,
    pub marketplace: Identity,
    pub listing: Identity,
}

impl Delist {
    /// The seeds by which the listing signs for its vault, bump seed included.
    pub open spec fn signer_seeds(self, bump: u8) -> Seq<Seq<u8>> {
        with_bump(listing_seeds(self.marketplace, self.maker_mint), bump)
    }

    /// The listing's vault.
    pub open spec fn vault(self) -> Custody {
        Custody { asset: self.maker_mint, holder: self.listing }
    }

    /// The account in which the maker receives the asset back.
    pub open spec fn maker_account(self) -> Custody {
        Custody { asset: self.maker_mint, holder: self.maker }
    }

    /// What the withdrawal asks of the ledger: an account for the maker,
    /// opened where there is none, then the one unit from the vault to the
    /// maker, then to close the vault and let the maker have its storage
    /// cost, both signed for by the listing.
    pub open spec fn withdraw_requests(self, bump: u8) -> Seq<Request> {
        seq![
            Request::EnsureOpen { account: self.maker_account() },
            Request::TransferAsset {
                asset: self.maker_mint,
                from: self.listing,
                to: self.maker,
                claim: Claim::Seeds(self.signer_seeds(bump)),
            },
            Request::CloseAccount {
                account: self.vault(),
                reclaim_to: self.maker,
                claim: Claim::Seeds(self.signer_seeds(bump)),
            },
        ]
    }

    /// The state after the asset has gone back from the vault to the maker,
    /// whose account for it is opened where there is none, and the emptied
    /// vault has been closed. Only the listing's own maker may ask for it.
    pub open spec fn withdrawn(self, s: MarketState) -> Result<MarketState, Failure> {
        if !s.listings.contains_key(self.listing) {
            Err(Failure::UnknownListing)
        } else if s.listings[self.listing].maker != self.maker {
            Err(Failure::WrongMaker)
        } else if s.listings[self.listing].mint != self.maker_mint {
            Err(Failure::WrongAsset)
        } else if s.listings.contains_key(self.maker) {
            Err(Failure::EscrowParty)
        } else {
            s.after(s.ledger.run(self.withdraw_requests(s.listings[self.listing].bump)))
        }
    }

    /// The state after the listing has been taken out of the store.
    pub open spec fn listing_closed(self, s: MarketState) -> Result<MarketState, Failure> {
        if !s.listings.contains_key(self.listing) {
            Err(Failure::UnknownListing)
        } else {
            Ok(MarketState { listings: s.listings.remove(self.listing), ..s })
        }
    }

    /// The state after the whole request: withdrawal, then closing of the
    /// listing, or the first failure among them.
    pub open spec fn delisted(self, s: MarketState) -> Result<MarketState, Failure> {
        match self.withdrawn(s) {
            Err(e) => Err(e),
            Ok(s1) => self.listing_closed(s1),
        }
    }

    /// What the list of requests of a withdrawal comes to on any ledger: the
    /// opening of the maker's account where there is none, the transfer of
    /// the asset, and the closing of the vault.
    pub proof fn lemma_requests(self)
        ensures
            forall|ledger: LedgerState, bump: u8| #[trigger]
                ledger.run(self.withdraw_requests(bump)) == match ledger.opened(
                    self.maker_account(),
                ).transfer_asset(
                    self.maker_mint,
                    self.listing,
                    self.maker,
                    Claim::Seeds(self.signer_seeds(bump)),
                ) {
                    Err(e) => Err(e),
                    Ok(next) => next.close_account(
                        self.vault(),
                        Claim::Seeds(self.signer_seeds(bump)),
                    ),
                },
    {
        assert forall|ledger: LedgerState, bump: u8| #[trigger]
            ledger.run(self.withdraw_requests(bump)) == match ledger.opened(
                self.maker_account(),
            ).transfer_asset(
                self.maker_mint,
                self.listing,
                self.maker,
                Claim::Seeds(self.signer_seeds(bump)),
            ) {
                Err(e) => Err(e),
                Ok(next) => next.close_account(
                    self.vault(),
                    Claim::Seeds(self.signer_seeds(bump)),
                ),
            } by {
            lemma_run_three(
                ledger,
                self.withdraw_requests(bump)[0],
                self.withdraw_requests(bump)[1],
                self.withdraw_requests(bump)[2],
            );
        }
    }

    /// Builds the warrant by which the listing signs for its vault: its
    /// seeds, with the stored bump seed.
    pub fn vault_warrant(&self, bump: u8) -> (warrant: Warrant)
        ensures
            warrant@ == Claim::Seeds(self.signer_seeds(bump)),
    {
        let mut seeds = build_listing_seeds(&self.marketplace, &self.maker_mint);
        push_bump(&mut seeds, bump);
        Warrant::Seeds(seeds)
    }

    /// Lists the calls that return the asset to the maker and close the
    /// vault.
    pub fn withdraw_calls(&self, bump: u8) -> (calls: Vec<Call>)
        ensures
            requests(calls@) == self.withdraw_requests(bump),
    {
        let mut calls: Vec<Call> = Vec::new();
        calls.push(
            Call::EnsureOpen { account: Custody { asset: self.maker_mint, holder: self.maker } },
        );
        calls.push(
            Call::TransferAsset {
                asset: self.maker_mint,
                from: self.listing,
                to: self.maker,
                warrant: self.vault_warrant(bump),
            },
        );
        calls.push(
            Call::CloseAccount {
                account: Custody { asset: self.maker_mint, holder: self.listing },
                reclaim_to: self.maker,
                warrant: self.vault_warrant(bump),
            },
        );
        assert(requests(calls@) =~= self.withdraw_requests(bump));
        calls
    }

    /// Moves the escrowed asset from the vault back to the maker and closes
    /// the vault, signing with the listing's derived authority. Either both
    /// are done or none.
    pub fn withdraw_nft(&self, market: &mut Market) -> (r: Result<(), Failure>)
        requires
            old(market).wf(),
        ensures
            final(market).wf(),
            settles(r, old(market)@, final(market)@, self.withdrawn(old(market)@)),
    {
        let listing = match market.listing(&self.listing) {
            Some(listing) => listing,
            None => {
                return Err(Failure::UnknownListing);
            },
        };
        if !listing.maker.same(&self.maker) {
            return Err(Failure::WrongMaker);
        }
        if !listing.mint.same(&self.maker_mint) {
            return Err(Failure::WrongAsset);
        }
        if market.is_listing(&self.maker) {
            return Err(Failure::EscrowParty);
        }
        market.ask(&self.withdraw_calls(listing.bump))
    }

    /// Takes the listing out of the store.
    pub fn close_listing(&self, market: &mut Market) -> (r: Result<(), Failure>)
        requires
            old(market).wf(),
        ensures
            final(market).wf(),
            settles(r, old(market)@, final(market)@, self.listing_closed(old(market)@)),
    {
        if !market.is_listing(&self.listing) {
            return Err(Failure::UnknownListing);
        }
        market.remove_listing(&self.listing);
        Ok(())
    }
}

} // verus!
