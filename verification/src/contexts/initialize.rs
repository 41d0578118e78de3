use vstd::prelude::*;
use vstd::utf8::encode_utf8;
use crate::authority::{
    authority_found, authority_of, find_marketplace, find_rewards_mint, find_treasury,
    marketplace_seeds, owned_seeds, rewards_tag, treasury_tag, with_bump,
};
use crate::calls::{lemma_run_one, requests, Call, Request};
use crate::identity::Identity;
use crate::ledger::{settles, LedgerState};
use crate::market::{Failure, Market, MarketState};
use crate::state::marketplace::{check_name, name_fits};
use crate::state::{Marketplace, MarketplaceError};

verus! {

/// The party of one request to create a marketplace: its admin.
#[derive(Clone, Copy, Debug, PartialEq, Eq)]
pub struct Initialize {
    pub admin: Identity,
}

impl Initialize {
    /// What the creation of the marketplace `id` asks of the ledger: to make
    /// it the issuer of its reward credit.
    pub open spec fn issuer_requests(credit: Identity, id: Identity) -> Seq<Request> {
        seq![Request::CreateIssuer { asset: credit, authority: id }]
    }

    /// The state after the marketplace called `name` has been created with
    /// the fee `fee`: its record is filed under the identity that its name
    /// derives, with the bump seeds of itself, its treasury and its reward
    /// credit, and the marketplace is made the issuer of that credit.
    pub open spec fn initialized(self, s: MarketState, name: String, fee: u16) -> Result<
        MarketState,
        Failure,
    > {
        let program = s.ledger.program;
        if !name_fits(name@) {
            Err(Failure::Marketplace(MarketplaceError::NameTooLong))
        } else {
            match authority_found(marketplace_seeds(encode_utf8(name@)), program) {
                None => Err(Failure::Underivable),
                Some((id, bump)) => if s.registries.contains_key(id) {
                    Err(Failure::DuplicateMarketplace)
                } else {
                    match authority_found(owned_seeds(treasury_tag(), id), program) {
                        None => Err(Failure::Underivable),
                        Some((treasury, treasury_bump)) => match authority_found(
                            owned_seeds(rewards_tag(), id),
                            program,
                        ) {
                            None => Err(Failure::Underivable),
                            Some((credit, rewards_mint_bump)) => match s.ledger.run(
                                Self::issuer_requests(credit, id),
                            ) {
                                Err(e) => Err(Failure::Ledger(e)),
                                Ok(ledger) => Ok(
                                    MarketState {
                                        ledger,
                                        registries: s.registries.insert(
                                            id,
                                            Marketplace {
                                                admin: self.admin,
                                                fee,
                                                bump,
                                                treasury_bump,
                                                rewards_mint_bump,
                                                name,
                                            },
                                        ),
                                        ..s
                                    },
                                ),
                            },
                        },
                    }
                },
            }
        }
    }

    /// Whether the bump seeds stored in `m` re-derive the marketplace `id`
    /// itself, a treasury and a reward credit.
    pub open spec fn rederivable(program: Identity, id: Identity, m: Marketplace) -> bool {
        &&& authority_of(with_bump(marketplace_seeds(m.name_bytes()), m.bump), program) == Some(id)
        &&& authority_of(with_bump(owned_seeds(treasury_tag(), id), m.treasury_bump), program)
            is Some
        &&& authority_of(with_bump(owned_seeds(rewards_tag(), id), m.rewards_mint_bump), program)
            is Some
    }

    /// What the list of requests of a creation comes to on any ledger: the
    /// marketplace is made the issuer of its reward credit.
    pub proof fn lemma_requests()
        ensures
            forall|ledger: LedgerState, credit: Identity, id: Identity| #[trigger]
                ledger.run(Self::issuer_requests(credit, id)) == ledger.create_issuer(credit, id),
    {
        assert forall|ledger: LedgerState, credit: Identity, id: Identity| #[trigger]
            ledger.run(Self::issuer_requests(credit, id)) == ledger.create_issuer(
                credit,
                id,
            ) by {
            lemma_run_one(ledger, Self::issuer_requests(credit, id)[0]);
        }
    }

    /// Lists the calls that go with the creation of the marketplace `id`.
    pub fn issuer_calls(credit: Identity, id: Identity) -> (calls: Vec<Call>)
        ensures
            requests(calls@) == Self::issuer_requests(credit, id),
    {
        let mut calls: Vec<Call> = Vec::new();
        calls.push(Call::CreateIssuer { asset: credit, authority: id });
        assert(requests(calls@) =~= Self::issuer_requests(credit, id));
        calls
    }

    /// Creates the marketplace called `name` with the fee `fee`, once: a name
    /// of more than 32 bytes is refused, and so is a second marketplace of
    /// the same name. The bump seeds that it stores re-derive the marketplace
    /// itself, its treasury and its reward credit.
    pub fn init(&self, market: &mut Market, name: String, fee: u16) -> (r: Result<(), Failure>)
        requires
            old(market).wf(),
        ensures
            final(market).wf(),
            settles(r, old(market)@, final(market)@, self.initialized(old(market)@, name, fee)),
            r is Ok ==> forall|id: Identity|
                final(market)@.registries.contains_key(id) && !old(market)@.registries.contains_key(
                    id,
                ) ==> Self::rederivable(
                    old(market)@.ledger.program,
                    id,
                    #[trigger] final(market)@.registries[id],
                ),
    {
        match check_name(name.as_str()) {
            Ok(()) => {},
            Err(e) => {
                return Err(Failure::Marketplace(e));
            },
        }
        let program = market.ledger().program();
        let (id, bump) = match find_marketplace(&program, name.as_str()) {
            Some(found) => found,
            None => {
                return Err(Failure::Underivable);
            },
        };
        if market.marketplace(&id).is_some() {
            return Err(Failure::DuplicateMarketplace);
        }
        let treasury_bump = match find_treasury(&program, &id) {
            Some((_, treasury_bump)) => treasury_bump,
            None => {
                return Err(Failure::Underivable);
            },
        };
        let (credit, rewards_mint_bump) = match find_rewards_mint(&program, &id) {
            Some(found) => found,
            None => {
                return Err(Failure::Underivable);
            },
        };
        match market.ask(&Self::issuer_calls(credit, id)) {
            Ok(()) => {},
            Err(e) => {
                return Err(e);
            },
        }
        market.put_marketplace(
            id,
            Marketplace { admin: self.admin, fee, bump, treasury_bump, rewards_mint_bump, name },
        );
        Ok(())
    }
}

} // verus!
