use vstd::prelude::*;
use crate::authority::{
    authority_of, build_listing_seeds, build_marketplace_seeds, build_rewards_seeds,
    build_treasury_seeds, derive_authority, listing_seeds, marketplace_seeds, owned_seeds,
    push_bump, rewards_tag, treasury_tag, with_bump,
};
use crate::identity::{Identity, Key};
use crate::calls::{lemma_run_one, lemma_run_two, requests, Call, Request};
use crate::ledger::{settles, Claim, Custody, LedgerState, Warrant};
use crate::market::{Failure, Market, MarketState};
use crate::state::{Listing, Marketplace};

verus! {

/// The reward credits that a purchase earns the taker.
pub const REWARD_UNITS: u64 = 1;

/// The decimals of the reward credit.
pub const REWARD_DECIMALS: u8 = 6;

/// What a sale at `price` pays out under a fee of `fee`: first the maker's
/// share, then the treasury's. There is no such split where the fee is larger
/// than the price.
pub open spec fn settlement_of(price: u64, fee: u16) -> Option<(u64, u64)> {
    if price >= fee {
        Some(((price - fee) as u64, fee as u64))
    } else {
        None
    }
}

/// Splits the price of a sale into the maker's share and the treasury's fee.
pub fn settlement(price: u64, fee: u16) -> (split: Option<(u64, u64)>)
    ensures
        split == settlement_of(price, fee),
{
    match price.checked_sub(fee as u64) {
        Some(share) => Some((share, fee as u64)),
        None => None,
    }
}

/// What the taker owes in a purchase: the maker's share, the fee, and the
/// treasury that receives the fee.
#[derive(Clone, Copy, Debug, PartialEq, Eq)]
pub struct Payments {
    pub share: u64,
    pub fee: u64,
    pub treasury: Identity,
}

/// The parties and records of one purchase: the taker who pays, the maker who
/// is paid, the asset, the marketplace it is listed on, and the listing.
#[derive(Clone, Copy, Debug, PartialEq, Eq)]
pub struct Purchase {
    pub taker: Identity,
    pub maker: Identity,
    pub maker_mint: Identity,
    pub marketplace: Identity,
    pub listing: Identity,
}

impl Purchase {
    /// The seeds by which the listing signs for its vault, bump seed included.
    pub open spec fn signer_seeds(self, bump: u8) -> Seq<Seq<u8>> {
        with_bump(listing_seeds(self.marketplace, self.maker_mint), bump)
    }

    /// The listing's vault.
    pub open spec fn vault(self) -> Custody {
        Custody { asset: self.maker_mint, holder: self.listing }
    }

    /// The account in which the taker receives the asset.
    pub open spec fn taker_account(self) -> Custody {
        Custody { asset: self.maker_mint, holder: self.taker }
    }

    /// What paying `due` asks of the ledger: the maker's share from the
    /// taker to the maker, then the fee from the taker to the treasury.
    pub open spec fn pay_requests(self, due: Payments) -> Seq<Request> {
        seq![
            Request::Transfer { from: self.taker, to: self.maker, amount: due.share },
            Request::Transfer { from: self.taker, to: due.treasury, amount: due.fee },
        ]
    }

    /// What handing over the asset asks of the ledger: an account for the
    /// taker, opened where there is none, then the one unit from the vault to
    /// the taker, signed for by the listing.
    pub open spec fn transfer_requests(self, bump: u8) -> Seq<Request> {
        seq![
            Request::EnsureOpen { account: self.taker_account() },
            Request::TransferAsset {
                asset: self.maker_mint,
                from: self.listing,
                to: self.taker,
                claim: Claim::Seeds(self.signer_seeds(bump)),
            },
        ]
    }

    /// What closing the vault asks of the ledger: to close it, signed for by
    /// the listing, and to let the maker have its storage cost.
    pub open spec fn close_requests(self, bump: u8) -> Seq<Request> {
        seq![
            Request::CloseAccount {
                account: self.vault(),
                reclaim_to: self.maker,
                claim: Claim::Seeds(self.signer_seeds(bump)),
            },
        ]
    }

    /// What rewarding the taker asks of the ledger: an account for the
    /// taker's credits, opened where there is none, then one credit issued
    /// to the taker, signed for by the marketplace.
    pub open spec fn reward_requests(self, credit: Identity, claim: Claim) -> Seq<Request> {
        seq![
            Request::EnsureOpen { account: Custody { asset: credit, holder: self.taker } },
            Request::Mint { asset: credit, to: self.taker, amount: REWARD_UNITS, claim },
        ]
    }

    /// What the taker owes for `listing` under the fee `fee`, where the
    /// marketplace's treasury is `treasury`: the price less the fee to the
    /// maker, and the fee to the treasury. Nothing is owed where the fee is
    /// larger than the price, where the maker named is not the listing's, or
    /// where there is no treasury.
    pub open spec fn settled(self, listing: Listing, fee: u16, treasury: Option<Identity>)
        -> Result<Payments, Failure> {
        match settlement_of(listing.price, fee) {
            None => Err(Failure::FeeExceedsPrice),
            Some((share, fee)) => if listing.maker != self.maker {
                Err(Failure::WrongMaker)
            } else {
                match treasury {
                    None => Err(Failure::Underivable),
                    Some(treasury) => Ok(Payments { share, fee, treasury }),
                }
            },
        }
    }

    /// What the taker owes for `listing` on the marketplace `registry`, whose
    /// treasury is the one that its stored bump seed re-derives.
    pub open spec fn payments_of(
        self,
        listing: Listing,
        registry: Marketplace,
        program: Identity,
    ) -> Result<Payments, Failure> {
        self.settled(
            listing,
            registry.fee,
            authority_of(
                with_bump(owned_seeds(treasury_tag(), self.marketplace), registry.treasury_bump),
                program,
            ),
        )
    }

    /// The state after the taker has paid: the price less the fee to the
    /// maker, then the fee to the marketplace's treasury.
    pub open spec fn paid(self, s: MarketState) -> Result<MarketState, Failure> {
        if !s.listings.contains_key(self.listing) {
            Err(Failure::UnknownListing)
        } else if !s.registries.contains_key(self.marketplace) {
            Err(Failure::UnknownMarketplace)
        } else {
            match self.payments_of(
                s.listings[self.listing],
                s.registries[self.marketplace],
                s.ledger.program,
            ) {
                Err(e) => Err(e),
                Ok(due) => s.after(s.ledger.run(self.pay_requests(due))),
            }
        }
    }

    /// The state after the asset has gone from the vault to the taker, whose
    /// account for it is opened where there is none.
    pub open spec fn transferred(self, s: MarketState) -> Result<MarketState, Failure> {
        if !s.listings.contains_key(self.listing) {
            Err(Failure::UnknownListing)
        } else if s.listings[self.listing].mint != self.maker_mint {
            Err(Failure::WrongAsset)
        } else if s.listings.contains_key(self.taker) {
            Err(Failure::EscrowParty)
        } else {
            s.after(s.ledger.run(self.transfer_requests(s.listings[self.listing].bump)))
        }
    }

    /// The state after the emptied vault has been closed.
    pub open spec fn vault_closed(self, s: MarketState) -> Result<MarketState, Failure> {
        if !s.listings.contains_key(self.listing) {
            Err(Failure::UnknownListing)
        } else {
            s.after(s.ledger.run(self.close_requests(s.listings[self.listing].bump)))
        }
    }

    /// The state after the listing has been taken out of the store.
    pub open spec fn listing_closed(self, s: MarketState) -> Result<MarketState, Failure> {
        if !s.listings.contains_key(self.listing) {
            Err(Failure::UnknownListing)
        } else {
            Ok(MarketState { listings: s.listings.remove(self.listing), ..s })
        }
    }

    /// The reward credit of the marketplace `registry`, as its stored bump
    /// seed re-derives it, and the seeds by which the marketplace signs as
    /// its issuer.
    pub open spec fn reward_of(self, registry: Marketplace, program: Identity) -> Result<
        (Identity, Claim),
        Failure,
    > {
        match authority_of(
            with_bump(owned_seeds(rewards_tag(), self.marketplace), registry.rewards_mint_bump),
            program,
        ) {
            None => Err(Failure::Underivable),
            Some(credit) => Ok(
                (
                    credit,
                    Claim::Seeds(
                        with_bump(marketplace_seeds(registry.name_bytes()), registry.bump),
                    ),
                ),
            ),
        }
    }

    /// The state after the taker has been given one reward credit, in an
    /// account that is opened where there is none.
    pub open spec fn rewarded(self, s: MarketState) -> Result<MarketState, Failure> {
        if !s.registries.contains_key(self.marketplace) {
            Err(Failure::UnknownMarketplace)
        } else {
            match self.reward_of(s.registries[self.marketplace], s.ledger.program) {
                Err(e) => Err(e),
                Ok((credit, claim)) => s.after(s.ledger.run(self.reward_requests(credit, claim))),
            }
        }
    }

    /// The state after the whole purchase: payment, transfer of the asset,
    /// closing of vault and listing, and the reward, in this order, or the
    /// first failure among them.
    pub open spec fn purchased(self, s: MarketState) -> Result<MarketState, Failure> {
        match self.paid(s) {
            Err(e) => Err(e),
            Ok(s1) => match self.transferred(s1) {
                Err(e) => Err(e),
                Ok(s2) => match self.vault_closed(s2) {
                    Err(e) => Err(e),
                    Ok(s3) => match self.listing_closed(s3) {
                        Err(e) => Err(e),
                        Ok(s4) => self.rewarded(s4),
                    },
                },
            },
        }
    }

    /// What the lists of requests of a purchase come to on any ledger: two
    /// transfers; the opening of the taker's account where there is none and
    /// the transfer of the asset; the closing of the vault; the opening of
    /// the taker's credit account where there is none and the issue of the
    /// credit.
    pub proof fn lemma_requests(self)
        ensures
            forall|ledger: LedgerState, due: Payments| #[trigger]
                ledger.run(self.pay_requests(due)) == match ledger.transfer(
                    self.taker,
                    self.maker,
                    due.share,
                ) {
                    Err(e) => Err(e),
                    Ok(next) => next.transfer(self.taker, due.treasury, due.fee),
                },
            forall|ledger: LedgerState, bump: u8| #[trigger]
                ledger.run(self.transfer_requests(bump)) == ledger.opened(
                    self.taker_account(),
                ).transfer_asset(
                    self.maker_mint,
                    self.listing,
                    self.taker,
                    Claim::Seeds(self.signer_seeds(bump)),
                ),
            forall|ledger: LedgerState, bump: u8| #[trigger]
                ledger.run(self.close_requests(bump)) == ledger.close_account(
                    self.vault(),
                    Claim::Seeds(self.signer_seeds(bump)),
                ),
            forall|ledger: LedgerState, credit: Identity, claim: Claim| #[trigger]
                ledger.run(self.reward_requests(credit, claim)) == ledger.opened(
                    Custody { asset: credit, holder: self.taker },
                ).mint(credit, self.taker, REWARD_UNITS, claim),
    {
        assert forall|ledger: LedgerState, due: Payments| #[trigger]
            ledger.run(self.pay_requests(due)) == match ledger.transfer(
                self.taker,
                self.maker,
                due.share,
            ) {
                Err(e) => Err(e),
                Ok(next) => next.transfer(self.taker, due.treasury, due.fee),
            } by {
            lemma_run_two(ledger, self.pay_requests(due)[0], self.pay_requests(due)[1]);
        }
        assert forall|ledger: LedgerState, bump: u8| #[trigger]
            ledger.run(self.transfer_requests(bump)) == ledger.opened(
                self.taker_account(),
            ).transfer_asset(
                self.maker_mint,
                self.listing,
                self.taker,
                Claim::Seeds(self.signer_seeds(bump)),
            ) by {
            lemma_run_two(
                ledger,
                self.transfer_requests(bump)[0],
                self.transfer_requests(bump)[1],
            );
        }
        assert forall|ledger: LedgerState, bump: u8| #[trigger]
            ledger.run(self.close_requests(bump)) == ledger.close_account(
                self.vault(),
                Claim::Seeds(self.signer_seeds(bump)),
            ) by {
            lemma_run_one(ledger, self.close_requests(bump)[0]);
        }
        assert forall|ledger: LedgerState, credit: Identity, claim: Claim| #[trigger]
            ledger.run(self.reward_requests(credit, claim)) == ledger.opened(
                Custody { asset: credit, holder: self.taker },
            ).mint(credit, self.taker, REWARD_UNITS, claim) by {
            lemma_run_two(
                ledger,
                self.reward_requests(credit, claim)[0],
                self.reward_requests(credit, claim)[1],
            );
        }
    }

    /// Builds the warrant by which the listing signs for its vault: its
    /// seeds, with the stored bump seed.
    pub fn vault_warrant(&self, bump: u8) -> (warrant: Warrant)
        ensures
            warrant@ == Claim::Seeds(self.signer_seeds(bump)),
    {
        let mut seeds = build_listing_seeds(&self.marketplace, &self.maker_mint);
        push_bump(&mut seeds, bump);
        Warrant::Seeds(seeds)
    }

    /// Works out what the taker owes for `listing` under the fee `fee`, and
    /// to whom, where the marketplace's treasury is `treasury`.
    pub fn settle(&self, listing: &Listing, fee: u16, treasury: Option<Identity>) -> (r: Result<
        Payments,
        Failure,
    >)
        ensures
            r == self.settled(*listing, fee, treasury),
    {
        let (share, fee) = match settlement(listing.price, fee) {
            Some(split) => split,
            None => {
                return Err(Failure::FeeExceedsPrice);
            },
        };
        if !listing.maker.same(&self.maker) {
            return Err(Failure::WrongMaker);
        }
        match treasury {
            Some(treasury) => Ok(Payments { share, fee, treasury }),
            None => Err(Failure::Underivable),
        }
    }

    /// Works out what the taker owes for `listing` on the marketplace
    /// `registry`, and to whom: re-derives the treasury from the stored bump
    /// seed, then settles.
    pub fn payments(&self, listing: &Listing, registry: &Marketplace, program: &Identity) -> (r:
        Result<Payments, Failure>)
        ensures
            r == self.payments_of(*listing, *registry, *program),
    {
        let mut seeds = build_treasury_seeds(&self.marketplace);
        push_bump(&mut seeds, registry.treasury_bump);
        self.settle(listing, registry.fee, derive_authority(&seeds, program))
    }

    /// Re-derives the reward credit of the marketplace `registry` and builds
    /// the warrant by which the marketplace signs as its issuer.
    pub fn reward(&self, registry: &Marketplace, program: &Identity) -> (r: Result<
        (Identity, Warrant),
        Failure,
    >)
        ensures
            match r {
                Ok((credit, warrant)) => self.reward_of(*registry, *program) == Ok::<
                    (Identity, Claim),
                    Failure,
                >((credit, warrant@)),
                Err(e) => self.reward_of(*registry, *program) == Err::<(Identity, Claim), Failure>(
                    e,
                ),
            },
    {
        let mut seeds = build_rewards_seeds(&self.marketplace);
        push_bump(&mut seeds, registry.rewards_mint_bump);
        let credit = match derive_authority(&seeds, program) {
            Some(credit) => credit,
            None => {
                return Err(Failure::Underivable);
            },
        };
        let mut own = build_marketplace_seeds(registry.name.as_str());
        push_bump(&mut own, registry.bump);
        Ok((credit, Warrant::Seeds(own)))
    }

    /// Lists the calls that pay `due`.
    pub fn pay_calls(&self, due: &Payments) -> (calls: Vec<Call>)
        ensures
            requests(calls@) == self.pay_requests(*due),
    {
        let mut calls: Vec<Call> = Vec::new();
        calls.push(Call::Transfer { from: self.taker, to: self.maker, amount: due.share });
        calls.push(Call::Transfer { from: self.taker, to: due.treasury, amount: due.fee });
        assert(requests(calls@) =~= self.pay_requests(*due));
        calls
    }

    /// Lists the calls that hand the asset over to the taker.
    pub fn transfer_nft_calls(&self, bump: u8) -> (calls: Vec<Call>)
        ensures
            requests(calls@) == self.transfer_requests(bump),
    {
        let mut calls: Vec<Call> = Vec::new();
        calls.push(
            Call::EnsureOpen { account: Custody { asset: self.maker_mint, holder: self.taker } },
        );
        calls.push(
            Call::TransferAsset {
                asset: self.maker_mint,
                from: self.listing,
                to: self.taker,
                warrant: self.vault_warrant(bump),
            },
        );
        assert(requests(calls@) =~= self.transfer_requests(bump));
        calls
    }

    /// Lists the calls that close the vault.
    pub fn close_vault_calls(&self, bump: u8) -> (calls: Vec<Call>)
        ensures
            requests(calls@) == self.close_requests(bump),
    {
        let mut calls: Vec<Call> = Vec::new();
        calls.push(
            Call::CloseAccount {
                account: Custody { asset: self.maker_mint, holder: self.listing },
                reclaim_to: self.maker,
                warrant: self.vault_warrant(bump),
            },
        );
        assert(requests(calls@) =~= self.close_requests(bump));
        calls
    }

    /// Lists the calls that give the taker one reward credit.
    pub fn reward_calls(&self, credit: Identity, warrant: Warrant) -> (calls: Vec<Call>)
        ensures
            requests(calls@) == self.reward_requests(credit, warrant@),
    {
        let mut calls: Vec<Call> = Vec::new();
        calls.push(Call::EnsureOpen { account: Custody { asset: credit, holder: self.taker } });
        calls.push(Call::Mint { asset: credit, to: self.taker, amount: REWARD_UNITS, warrant });
        assert(requests(calls@) =~= self.reward_requests(credit, warrant@));
        calls
    }

    /// Pays the maker the price less the fee, then the treasury the fee, both
    /// from the taker's balance. Either both payments are made or none.
    pub fn pay(&self, market: &mut Market) -> (r: Result<(), Failure>)
        requires
            old(market).wf(),
        ensures
            final(market).wf(),
            settles(r, old(market)@, final(market)@, self.paid(old(market)@)),
    {
        let listing = match market.listing(&self.listing) {
            Some(listing) => listing,
            None => {
                return Err(Failure::UnknownListing);
            },
        };
        let program = market.ledger().program();
        let due = match market.marketplace(&self.marketplace) {
            Some(registry) => match self.payments(&listing, registry, &program) {
                Ok(due) => due,
                Err(e) => {
                    return Err(e);
                },
            },
            None => {
                return Err(Failure::UnknownMarketplace);
            },
        };
        market.ask(&self.pay_calls(&due))
    }

    /// Moves the escrowed asset from the vault to the taker, signing with the
    /// listing's derived authority.
    pub fn transfer_nft(&self, market: &mut Market) -> (r: Result<(), Failure>)
        requires
            old(market).wf(),
        ensures
            final(market).wf(),
            settles(r, old(market)@, final(market)@, self.transferred(old(market)@)),
    {
        let listing = match market.listing(&self.listing) {
            Some(listing) => listing,
            None => {
                return Err(Failure::UnknownListing);
            },
        };
        if !listing.mint.same(&self.maker_mint) {
            return Err(Failure::WrongAsset);
        }
        if market.is_listing(&self.taker) {
            return Err(Failure::EscrowParty);
        }
        market.ask(&self.transfer_nft_calls(listing.bump))
    }

    /// Closes the emptied vault, signing with the listing's derived
    /// authority.
    pub fn close_vault_account(&self, market: &mut Market) -> (r: Result<(), Failure>)
        requires
            old(market).wf(),
        ensures
            final(market).wf(),
            settles(r, old(market)@, final(market)@, self.vault_closed(old(market)@)),
    {
        let listing = match market.listing(&self.listing) {
            Some(listing) => listing,
            None => {
                return Err(Failure::UnknownListing);
            },
        };
        market.ask(&self.close_vault_calls(listing.bump))
    }

    /// Takes the listing out of the store.
    pub fn close_listing(&self, market: &mut Market) -> (r: Result<(), Failure>)
        requires
            old(market).wf(),
        ensures
            final(market).wf(),
            settles(r, old(market)@, final(market)@, self.listing_closed(old(market)@)),
    {
        if !market.is_listing(&self.listing) {
            return Err(Failure::UnknownListing);
        }
        market.remove_listing(&self.listing);
        Ok(())
    }

    /// Issues one reward credit to the taker, signing with the marketplace's
    /// derived authority.
    pub fn reward_buyer(&self, market: &mut Market) -> (r: Result<(), Failure>)
        requires
            old(market).wf(),
        ensures
            final(market).wf(),
            settles(r, old(market)@, final(market)@, self.rewarded(old(market)@)),
    {
        let program = market.ledger().program();
        let (credit, warrant) = match market.marketplace(&self.marketplace) {
            Some(registry) => match self.reward(registry, &program) {
                Ok(reward) => reward,
                Err(e) => {
                    return Err(e);
                },
            },
            None => {
                return Err(Failure::UnknownMarketplace);
            },
        };
        market.ask(&self.reward_calls(credit, warrant))
    }
}

} // verus!
