use vstd::prelude::*;
use crate::authority::{authority_of, derive_authority, seed_bytes};
use crate::identity::{Identity, Key};
use crate::table::Table;

verus! {

/// A custody account: the units of one asset that one holder has.
#[derive(Clone, Copy, Debug, PartialEq, Eq)]
pub struct Custody {
    pub asset: Identity,
    pub holder: Identity,
}

impl Key for Custody {
    fn same(&self, other: &Custody) -> (r: bool) {
        self.asset.same(&other.asset) && self.holder.same(&other.holder)
    }
}

/// What an asset's metadata says of the collection it belongs to.
#[derive(Clone, Copy, Debug, PartialEq, Eq)]
pub struct Collection {
    pub key: Identity,
    pub verified: bool,
}

/// How a caller shows that it may act for an authority: as the party that
/// signed the request, or by the seeds that derive the authority.
#[derive(Debug, PartialEq, Eq)]
pub enum Warrant {
    Signer(Identity),
    Seeds(Vec<Vec<u8>>),
}

/// What a [`Warrant`] claims: a signature, or seeds as lists of bytes.
pub enum Claim {
    Signer(Identity),
    Seeds(Seq<Seq<u8>>),
}

impl View for Warrant {
    type V = Claim;

    open spec fn view(&self) -> Claim {
        match *self {
            Warrant::Signer(id) => Claim::Signer(id),
            Warrant::Seeds(seeds) => Claim::Seeds(seed_bytes(seeds@)),
        }
    }
}

/// Whether `claim` shows the authority of `who` to a ledger that derives
/// authorities for `program`.
pub open spec fn proves(program: Identity, claim: Claim, who: Identity) -> bool {
    match claim {
        Claim::Signer(id) => id == who,
        Claim::Seeds(seeds) => authority_of(seeds, program) == Some(who),
    }
}

/// The units of a unique asset: there is one.
pub const UNIQUE_UNITS: u64 = 1;

/// The decimals of a unique asset: it cannot be divided.
pub const UNIQUE_DECIMALS: u8 = 0;

/// Why the ledger refused a request.
#[derive(Clone, Copy, Debug, PartialEq, Eq)]
pub enum LedgerError {
    /// The payer's balance is smaller than the amount.
    InsufficientFunds,
    /// The receiver would hold more than the ledger can count.
    Overflow,
    /// A custody account that the request names is not open.
    NoAccount,
    /// The account to open is open already.
    AccountExists,
    /// The account to close still holds units.
    NotEmpty,
    /// The account to move a unique asset from does not hold exactly one unit.
    NotOneUnit,
    /// The warrant does not show the authority that the request needs.
    Unauthorized,
    /// The asset has no issuer.
    NoIssuer,
}

/// Whether a request ended as `expected` says: with the state that it names, or
/// with its error and the state as it was.
pub open spec fn settles<S, E>(r: Result<(), E>, before: S, after: S, expected: Result<S, E>)
    -> bool {
    match r {
        Ok(()) => expected == Ok::<S, E>(after),
        Err(e) => expected == Err::<S, E>(e) && after == before,
    }
}

/// The ledger service as the marketplace sees it.
pub struct LedgerState {
    /// The program for which the ledger derives authorities.
    pub program: Identity,
    /// The fungible balance of each party that has one; no entry means zero.
    pub balances: Map<Identity, u64>,
    /// The units in each open custody account.
    pub accounts: Map<Custody, u64>,
    /// The authority that may issue units of each issued asset.
    pub issuers: Map<Identity, Identity>,
    /// The collection reference in the metadata of each asset that has one.
    pub metadata: Map<Identity, Collection>,
}

impl LedgerState {
    /// The fungible balance of `who`.
    pub open spec fn balance(self, who: Identity) -> u64 {
        if self.balances.contains_key(who) {
            self.balances[who]
        } else {
            0
        }
    }

    /// The units of `asset` that `holder` has in custody.
    pub open spec fn holding(self, asset: Identity, holder: Identity) -> u64 {
        let account = Custody { asset, holder };
        if self.accounts.contains_key(account) {
            self.accounts[account]
        } else {
            0
        }
    }

    /// Whether `holder` has an open custody account for `asset`.
    pub open spec fn is_open(self, asset: Identity, holder: Identity) -> bool {
        self.accounts.contains_key(Custody { asset, holder })
    }

    /// Funds enter the ledger from outside.
    pub open spec fn deposit(self, who: Identity, amount: u64) -> Result<LedgerState, LedgerError> {
        if self.balance(who) + amount > u64::MAX {
            Err(LedgerError::Overflow)
        } else {
            Ok(
                LedgerState {
                    balances: self.balances.insert(who, (self.balance(who) + amount) as u64),
                    ..self
                },
            )
        }
    }

    /// Moves `amount` from the balance of `from` to that of `to`.
    pub open spec fn transfer(self, from: Identity, to: Identity, amount: u64) -> Result<
        LedgerState,
        LedgerError,
    > {
        if self.balance(from) < amount {
            Err(LedgerError::InsufficientFunds)
        } else if from == to {
            Ok(self)
        } else if self.balance(to) + amount > u64::MAX {
            Err(LedgerError::Overflow)
        } else {
            Ok(
                LedgerState {
                    balances: self.balances.insert(from, (self.balance(from) - amount) as u64).insert(
                        to,
                        (self.balance(to) + amount) as u64,
                    ),
                    ..self
                },
            )
        }
    }

    /// Opens an empty custody account.
    pub open spec fn open_account(self, account: Custody) -> Result<LedgerState, LedgerError> {
        if self.accounts.contains_key(account) {
            Err(LedgerError::AccountExists)
        } else {
            Ok(LedgerState { accounts: self.accounts.insert(account, 0), ..self })
        }
    }

    /// The state in which `account` is open: as it is where it is open
    /// already, and with the account opened empty where it is not.
    pub open spec fn opened(self, account: Custody) -> LedgerState {
        if self.accounts.contains_key(account) {
            self
        } else {
            LedgerState { accounts: self.accounts.insert(account, 0), ..self }
        }
    }

    /// Closes an empty custody account on its holder's authority.
    pub open spec fn close_account(self, account: Custody, claim: Claim) -> Result<
        LedgerState,
        LedgerError,
    > {
        if !self.accounts.contains_key(account) {
            Err(LedgerError::NoAccount)
        } else if !proves(self.program, claim, account.holder) {
            Err(LedgerError::Unauthorized)
        } else if self.accounts[account] != 0 {
            Err(LedgerError::NotEmpty)
        } else {
            Ok(LedgerState { accounts: self.accounts.remove(account), ..self })
        }
    }

    /// Moves the one unit of a unique asset from the account of `from` to that
    /// of `to`, on the authority of `from`.
    pub open spec fn transfer_asset(
        self,
        asset: Identity,
        from: Identity,
        to: Identity,
        claim: Claim,
    ) -> Result<LedgerState, LedgerError> {
        let source = Custody { asset, holder: from };
        let target = Custody { asset, holder: to };
        if !self.accounts.contains_key(source) || !self.accounts.contains_key(target) {
            Err(LedgerError::NoAccount)
        } else if !proves(self.program, claim, from) {
            Err(LedgerError::Unauthorized)
        } else if self.accounts[source] != UNIQUE_UNITS {
            Err(LedgerError::NotOneUnit)
        } else if from == to {
            Ok(self)
        } else if self.accounts[target] == u64::MAX {
            Err(LedgerError::Overflow)
        } else {
            Ok(
                LedgerState {
                    accounts: self.accounts.insert(source, 0).insert(
                        target,
                        (self.accounts[target] + UNIQUE_UNITS) as u64,
                    ),
                    ..self
                },
            )
        }
    }

    /// Makes `authority` the issuer of an asset that has none.
    pub open spec fn create_issuer(self, asset: Identity, authority: Identity) -> Result<
        LedgerState,
        LedgerError,
    > {
        if self.issuers.contains_key(asset) {
            Err(LedgerError::AccountExists)
        } else {
            Ok(LedgerState { issuers: self.issuers.insert(asset, authority), ..self })
        }
    }

    /// Issues `amount` units of `asset` to the account of `to`, on the
    /// authority of the asset's issuer.
    pub open spec fn mint(self, asset: Identity, to: Identity, amount: u64, claim: Claim) -> Result<
        LedgerState,
        LedgerError,
    > {
        let target = Custody { asset, holder: to };
        if !self.issuers.contains_key(asset) {
            Err(LedgerError::NoIssuer)
        } else if !proves(self.program, claim, self.issuers[asset]) {
            Err(LedgerError::Unauthorized)
        } else if !self.accounts.contains_key(target) {
            Err(LedgerError::NoAccount)
        } else if self.accounts[target] + amount > u64::MAX {
            Err(LedgerError::Overflow)
        } else {
            Ok(
                LedgerState {
                    accounts: self.accounts.insert(target, (self.accounts[target] + amount) as u64),
                    ..self
                },
            )
        }
    }

    /// Records what the metadata of `asset` says of its collection.
    pub open spec fn record_metadata(self, asset: Identity, collection: Collection) -> LedgerState {
        LedgerState { metadata: self.metadata.insert(asset, collection), ..self }
    }

    /// What the metadata of `asset` says of its collection, if it has any.
    pub open spec fn collection_of(self, asset: Identity) -> Option<Collection> {
        if self.metadata.contains_key(asset) {
            Some(self.metadata[asset])
        } else {
            None
        }
    }
}

/// An in-memory ledger that keeps balances, custody accounts, issuers and
/// metadata as [`LedgerState`] describes them.
pub struct Ledger {
    program: Identity,
    balances: Table<Identity, u64>,
    accounts: Table<Custody, u64>,
    issuers: Table<Identity, Identity>,
    metadata: Table<Identity, Collection>,
}

impl View for Ledger {
    type V = LedgerState;

    closed spec fn view(&self) -> LedgerState {
        LedgerState {
            program: self.program,
            balances: self.balances@,
            accounts: self.accounts@,
            issuers: self.issuers@,
            metadata: self.metadata@,
        }
    }
}

impl Ledger {
    /// The ledger's tables are in order.
    pub closed spec fn wf(&self) -> bool {
        &&& self.balances.wf()
        &&& self.accounts.wf()
        &&& self.issuers.wf()
        &&& self.metadata.wf()
    }

    /// A ledger that derives authorities for `program` and holds nothing.
    pub fn new(program: Identity) -> (ledger: Ledger)
        ensures
            ledger.wf(),
            ledger@ == (LedgerState {
                program,
                balances: Map::empty(),
                accounts: Map::empty(),
                issuers: Map::empty(),
                metadata: Map::empty(),
            }),
    {
        Ledger {
            program,
            balances: Table::new(),
            accounts: Table::new(),
            issuers: Table::new(),
            metadata: Table::new(),
        }
    }

    /// A second ledger in the same state.
    pub fn snapshot(&self) -> (copy: Ledger)
        requires
            self.wf(),
        ensures
            copy.wf(),
            copy@ == self@,
    {
        Ledger {
            program: self.program,
            balances: self.balances.snapshot(),
            accounts: self.accounts.snapshot(),
            issuers: self.issuers.snapshot(),
            metadata: self.metadata.snapshot(),
        }
    }

    /// The program for which the ledger derives authorities.
    pub fn program(&self) -> (program: Identity)
        ensures
            program == self@.program,
    {
        self.program
    }

    /// The fungible balance of `who`.
    pub fn balance(&self, who: &Identity) -> (amount: u64)
        requires
            self.wf(),
        ensures
            amount == self@.balance(*who),
    {
        match self.balances.get(who) {
            Some(amount) => *amount,
            None => 0,
        }
    }

    /// The units in the custody account that `holder` has for `asset`, or
    /// `None` where no such account is open.
    pub fn account(&self, asset: &Identity, holder: &Identity) -> (units: Option<u64>)
        requires
            self.wf(),
        ensures
            units is Some == self@.is_open(*asset, *holder),
            units matches Some(n) ==> n == self@.holding(*asset, *holder),
    {
        match self.accounts.get(&Custody { asset: *asset, holder: *holder }) {
            Some(units) => Some(*units),
            None => None,
        }
    }

    /// The issuer of `asset`, if it has one.
    pub fn issuer(&self, asset: &Identity) -> (authority: Option<Identity>)
        requires
            self.wf(),
        ensures
            authority is Some == self@.issuers.contains_key(*asset),
            authority matches Some(a) ==> a == self@.issuers[*asset],
    {
        match self.issuers.get(asset) {
            Some(authority) => Some(*authority),
            None => None,
        }
    }

    /// What the metadata of `asset` says of its collection, if it has any.
    pub fn collection_of(&self, asset: &Identity) -> (collection: Option<Collection>)
        requires
            self.wf(),
        ensures
            collection == self@.collection_of(*asset),
    {
        match self.metadata.get(asset) {
            Some(collection) => Some(*collection),
            None => None,
        }
    }

    /// Decides whether `warrant` shows the authority of `who`.
    pub fn authorized(&self, warrant: &Warrant, who: &Identity) -> (ok: bool)
        ensures
            ok == proves(self@.program, warrant@, *who),
    {
        match warrant {
            Warrant::Signer(id) => id.same(who),
            Warrant::Seeds(seeds) => {
                match derive_authority(seeds, &self.program) {
                    Some(derived) => derived.same(who),
                    None => false,
                }
            },
        }
    }

    /// Funds enter the ledger from outside.
    pub fn deposit(&mut self, who: &Identity, amount: u64) -> (r: Result<(), LedgerError>)
        requires
            old(self).wf(),
        ensures
            final(self).wf(),
            settles(r, old(self)@, final(self)@, old(self)@.deposit(*who, amount)),
    {
        let had = self.balance(who);
        if had > u64::MAX - amount {
            return Err(LedgerError::Overflow);
        }
        self.balances.put(*who, had + amount);
        Ok(())
    }

    /// Moves `amount` from the balance of `from`, who asked for it, to that
    /// of `to`.
    pub fn transfer(&mut self, from: &Identity, to: &Identity, amount: u64) -> (r: Result<
        (),
        LedgerError,
    >)
        requires
            old(self).wf(),
        ensures
            final(self).wf(),
            settles(r, old(self)@, final(self)@, old(self)@.transfer(*from, *to, amount)),
    {
        let had = self.balance(from);
        if had < amount {
            return Err(LedgerError::InsufficientFunds);
        }
        if from.same(to) {
            return Ok(());
        }
        let there = self.balance(to);
        if there > u64::MAX - amount {
            return Err(LedgerError::Overflow);
        }
        self.balances.put(*from, had - amount);
        self.balances.put(*to, there + amount);
        Ok(())
    }

    /// Opens an empty custody account.
    pub fn open_account(&mut self, account: Custody) -> (r: Result<(), LedgerError>)
        requires
            old(self).wf(),
        ensures
            final(self).wf(),
            settles(r, old(self)@, final(self)@, old(self)@.open_account(account)),
    {
        if self.accounts.contains(&account) {
            return Err(LedgerError::AccountExists);
        }
        self.accounts.put(account, 0);
        Ok(())
    }

    /// Opens an empty custody account unless it is open already.
    pub fn ensure_open(&mut self, account: Custody)
        requires
            old(self).wf(),
        ensures
            final(self).wf(),
            final(self)@ == old(self)@.opened(account),
    {
        if !self.accounts.contains(&account) {
            self.accounts.put(account, 0);
        }
    }

    /// Closes an empty custody account on its holder's authority.
    pub fn close_account(&mut self, account: &Custody, warrant: &Warrant) -> (r: Result<
        (),
        LedgerError,
    >)
        requires
            old(self).wf(),
        ensures
            final(self).wf(),
            settles(r, old(self)@, final(self)@, old(self)@.close_account(*account, warrant@)),
    {
        let units = match self.accounts.get(account) {
            Some(units) => *units,
            None => {
                return Err(LedgerError::NoAccount);
            },
        };
        if !self.authorized(warrant, &account.holder) {
            return Err(LedgerError::Unauthorized);
        }
        if units != 0 {
            return Err(LedgerError::NotEmpty);
        }
        self.accounts.remove(account);
        Ok(())
    }

    /// Moves the one unit of a unique asset from the account of `from` to that
    /// of `to`, on the authority of `from`.
    pub fn transfer_asset(
        &mut self,
        asset: &Identity,
        from: &Identity,
        to: &Identity,
        warrant: &Warrant,
    ) -> (r: Result<(), LedgerError>)
        requires
            old(self).wf(),
        ensures
            final(self).wf(),
            settles(
                r,
                old(self)@,
                final(self)@,
                old(self)@.transfer_asset(*asset, *from, *to, warrant@),
            ),
    {
        let source = Custody { asset: *asset, holder: *from };
        let target = Custody { asset: *asset, holder: *to };
        let units = match self.accounts.get(&source) {
            Some(units) => *units,
            None => {
                return Err(LedgerError::NoAccount);
            },
        };
        let there = match self.accounts.get(&target) {
            Some(there) => *there,
            None => {
                return Err(LedgerError::NoAccount);
            },
        };
        if !self.authorized(warrant, from) {
            return Err(LedgerError::Unauthorized);
        }
        if units != UNIQUE_UNITS {
            return Err(LedgerError::NotOneUnit);
        }
        if from.same(to) {
            return Ok(());
        }
        if there == u64::MAX {
            return Err(LedgerError::Overflow);
        }
        self.accounts.put(source, 0);
        self.accounts.put(target, there + UNIQUE_UNITS);
        Ok(())
    }

    /// Makes `authority` the issuer of an asset that has none.
    pub fn create_issuer(&mut self, asset: &Identity, authority: &Identity) -> (r: Result<
        (),
        LedgerError,
    >)
        requires
            old(self).wf(),
        ensures
            final(self).wf(),
            settles(r, old(self)@, final(self)@, old(self)@.create_issuer(*asset, *authority)),
    {
        if self.issuers.contains(asset) {
            return Err(LedgerError::AccountExists);
        }
        self.issuers.put(*asset, *authority);
        Ok(())
    }

    /// Issues `amount` units of `asset` to the account of `to`, on the
    /// authority of the asset's issuer.
    pub fn mint(&mut self, asset: &Identity, to: &Identity, amount: u64, warrant: &Warrant) -> (r:
        Result<(), LedgerError>)
        requires
            old(self).wf(),
        ensures
            final(self).wf(),
            settles(r, old(self)@, final(self)@, old(self)@.mint(*asset, *to, amount, warrant@)),
    {
        let target = Custody { asset: *asset, holder: *to };
        let authority = match self.issuers.get(asset) {
            Some(authority) => *authority,
            None => {
                return Err(LedgerError::NoIssuer);
            },
        };
        if !self.authorized(warrant, &authority) {
            return Err(LedgerError::Unauthorized);
        }
        let there = match self.accounts.get(&target) {
            Some(there) => *there,
            None => {
                return Err(LedgerError::NoAccount);
            },
        };
        if there > u64::MAX - amount {
            return Err(LedgerError::Overflow);
        }
        self.accounts.put(target, there + amount);
        Ok(())
    }

    /// Records what the metadata of `asset` says of its collection.
    pub fn record_metadata(&mut self, asset: &Identity, collection: Collection)
        requires
            old(self).wf(),
        ensures
            final(self).wf(),
            final(self)@ == old(self)@.record_metadata(*asset, collection),
    {
        self.metadata.put(*asset, collection);
    }
}

} // verus!
