use vstd::prelude::*;
use crate::calls::{requests, Call};
use crate::identity::Identity;
use crate::ledger::{settles, Custody, Ledger, LedgerError, LedgerState};
use crate::state::{Listing, Marketplace, MarketplaceError};
use crate::table::Table;

verus! {

/// Why a request to the marketplace did not go through.
#[derive(Clone, Copy, Debug, PartialEq, Eq)]
pub enum Failure {
    /// One of the marketplace's own rules refused the request.
    Marketplace(MarketplaceError),
    /// The ledger refused one of the steps.
    Ledger(LedgerError),
    /// The seeds derive no authority.
    Underivable,
    /// The record is not where its seeds put it.
    SeedsMismatch,
    /// A marketplace of that name exists already.
    DuplicateMarketplace,
    /// No marketplace has that identity.
    UnknownMarketplace,
    /// The asset is listed already.
    DuplicateListing,
    /// No listing has that identity.
    UnknownListing,
    /// The maker named is not the one who listed the asset.
    WrongMaker,
    /// The asset named is not the one that was listed.
    WrongAsset,
    /// A party to the request is itself the authority of a listing.
    EscrowParty,
    /// The asset has no metadata.
    MissingMetadata,
    /// The marketplace's fee is larger than the price.
    FeeExceedsPrice,
}

/// The ledger together with the marketplaces and the listings that stand on
/// it.
pub struct MarketState {
    pub ledger: LedgerState,
    /// Each marketplace, under its identity.
    pub registries: Map<Identity, Marketplace>,
    /// Each listing, under its identity, which is also the holder of its vault.
    pub listings: Map<Identity, Listing>,
}

impl MarketState {
    /// The vault of the listing at `address`, which holds `asset`.
    pub open spec fn vault(asset: Identity, address: Identity) -> Custody {
        Custody { asset, holder: address }
    }

    /// Every listing's vault is open and holds exactly one unit of the listed
    /// asset.
    pub open spec fn escrowed(self) -> bool {
        forall|address: Identity| #[trigger]
            self.listings.contains_key(address) ==> {
                let vault = Self::vault(self.listings[address].mint, address);
                self.ledger.accounts.contains_key(vault) && self.ledger.accounts[vault] == 1
            }
    }

    /// The same marketplaces and listings on another state of the ledger.
    pub open spec fn on(self, ledger: LedgerState) -> MarketState {
        MarketState { ledger, ..self }
    }

    /// What a step comes to that asks one thing of the ledger.
    pub open spec fn after(self, asked: Result<LedgerState, LedgerError>) -> Result<
        MarketState,
        Failure,
    > {
        match asked {
            Ok(ledger) => Ok(self.on(ledger)),
            Err(e) => Err(Failure::Ledger(e)),
        }
    }
}

/// The marketplaces and listings of one program, with the ledger under them.
pub struct Market {
    ledger: Ledger,
    registries: Table<Identity, Marketplace>,
    listings: Table<Identity, Listing>,
}

impl Market {
    /// The tables are in order.
    pub closed spec fn wf(&self) -> bool {
        &&& self.ledger.wf()
        &&& self.registries.wf()
        &&& self.listings.wf()
    }

    /// The state that the market is in.
    pub closed spec fn view(&self) -> MarketState {
        MarketState {
            ledger: self.ledger@,
            registries: self.registries@,
            listings: self.listings@,
        }
    }

    /// A market without marketplaces or listings on a ledger as it stands.
    pub fn new(ledger: Ledger) -> (market: Market)
        requires
            ledger.wf(),
        ensures
            market.wf(),
            market@ == (MarketState {
                ledger: ledger@,
                registries: Map::empty(),
                listings: Map::empty(),
            }),
            market@.escrowed(),
    {
        Market { ledger, registries: Table::new(), listings: Table::new() }
    }

    /// The ledger under the market.
    pub fn ledger(&self) -> (ledger: &Ledger)
        requires
            self.wf(),
        ensures
            ledger.wf(),
            ledger@ == self@.ledger,
    {
        &self.ledger
    }

    /// The marketplace with the identity `id`, if there is one.
    pub fn marketplace(&self, id: &Identity) -> (found: Option<&Marketplace>)
        requires
            self.wf(),
        ensures
            match found {
                Some(m) => self@.registries.contains_key(*id) && self@.registries[*id] == *m,
                None => !self@.registries.contains_key(*id),
            },
    {
        self.registries.get(id)
    }

    /// The listing with the identity `address`, if there is one.
    pub fn listing(&self, address: &Identity) -> (found: Option<Listing>)
        requires
            self.wf(),
        ensures
            match found {
                Some(l) => self@.listings.contains_key(*address) && self@.listings[*address] == l,
                None => !self@.listings.contains_key(*address),
            },
    {
        match self.listings.get(address) {
            Some(l) => Some(*l),
            None => None,
        }
    }

    /// Whether `address` is the identity of a listing.
    pub fn is_listing(&self, address: &Identity) -> (found: bool)
        requires
            self.wf(),
        ensures
            found == self@.listings.contains_key(*address),
    {
        self.listings.contains(address)
    }

    /// Asks the ledger to perform a list of calls, all of them or none.
    pub(crate) fn ask(&mut self, calls: &Vec<Call>) -> (r: Result<(), Failure>)
        requires
            old(self).wf(),
        ensures
            final(self).wf(),
            settles(
                r,
                old(self)@,
                final(self)@,
                old(self)@.after(old(self)@.ledger.run(requests(calls@))),
            ),
    {
        match self.ledger.run(calls) {
            Ok(()) => Ok(()),
            Err(e) => Err(Failure::Ledger(e)),
        }
    }

    /// A copy of the listings as they stand.
    pub(crate) fn saved_listings(&self) -> (saved: Table<Identity, Listing>)
        requires
            self.wf(),
        ensures
            saved.wf(),
            saved@ == self@.listings,
    {
        self.listings.snapshot()
    }

    /// Puts ledger and listings back as they were saved.
    pub(crate) fn restore(&mut self, ledger: Ledger, listings: Table<Identity, Listing>)
        requires
            old(self).wf(),
            ledger.wf(),
            listings.wf(),
        ensures
            final(self).wf(),
            final(self)@ == (MarketState { ledger: ledger@, listings: listings@, ..old(self)@ }),
    {
        self.ledger = ledger;
        self.listings = listings;
    }

    /// Files a listing under `address`.
    pub(crate) fn put_listing(&mut self, address: Identity, listing: Listing)
        requires
            old(self).wf(),
        ensures
            final(self).wf(),
            final(self)@ == (MarketState {
                listings: old(self)@.listings.insert(address, listing),
                ..old(self)@
            }),
    {
        self.listings.put(address, listing);
    }

    /// Takes out the listing filed under `address`.
    pub(crate) fn remove_listing(&mut self, address: &Identity)
        requires
            old(self).wf(),
        ensures
            final(self).wf(),
            final(self)@ == (MarketState {
                listings: old(self)@.listings.remove(*address),
                ..old(self)@
            }),
    {
        self.listings.remove(address);
    }

    /// Files a marketplace under `id`.
    pub(crate) fn put_marketplace(&mut self, id: Identity, marketplace: Marketplace)
        requires
            old(self).wf(),
        ensures
            final(self).wf(),
            final(self)@ == (MarketState {
                registries: old(self)@.registries.insert(id, marketplace),
                ..old(self)@
            }),
    {
        self.registries.put(id, marketplace);
    }
}

} // verus!
