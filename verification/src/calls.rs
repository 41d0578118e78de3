use vstd::prelude::*;
use crate::identity::Identity;
use crate::ledger::{settles, Claim, Custody, Ledger, LedgerError, LedgerState, Warrant};

verus! {

/// One thing asked of the ledger service.
#[derive(Debug, PartialEq, Eq)]
pub enum Call {
    /// Move `amount` from the balance of `from`, who signed, to that of `to`.
    Transfer { from: Identity, to: Identity, amount: u64 },
    /// Open an empty custody account.
    OpenAccount { account: Custody },
    /// Open an empty custody account unless it is open already.
    EnsureOpen { account: Custody },
    /// Move the one unit of a unique asset between the accounts of two
    /// holders.
    TransferAsset { asset: Identity, from: Identity, to: Identity, warrant: Warrant },
    /// Close an empty custody account; what its storage cost is, is the
    /// ledger's affair, and it goes to `reclaim_to`.
    CloseAccount { account: Custody, reclaim_to: Identity, warrant: Warrant },
    /// Issue `amount` units of `asset` to the account of `to`.
    Mint { asset: Identity, to: Identity, amount: u64, warrant: Warrant },
    /// Make `authority` the issuer of `asset`.
    CreateIssuer { asset: Identity, authority: Identity },
}

/// What a [`Call`] asks: the call, with the claim of its warrant.
pub enum Request {
    Transfer { from: Identity, to: Identity, amount: u64 },
    OpenAccount { account: Custody },
    EnsureOpen { account: Custody },
    TransferAsset { asset: Identity, from: Identity, to: Identity, claim: Claim },
    CloseAccount { account: Custody, reclaim_to: Identity, claim: Claim },
    Mint { asset: Identity, to: Identity, amount: u64, claim: Claim },
    CreateIssuer { asset: Identity, authority: Identity },
}

impl View for Call {
    type V = Request;

    open spec fn view(&self) -> Request {
        match *self {
            Call::Transfer { from, to, amount } => Request::Transfer { from, to, amount },
            Call::OpenAccount { account } => Request::OpenAccount { account },
            Call::EnsureOpen { account } => Request::EnsureOpen { account },
            Call::TransferAsset { asset, from, to, warrant } => Request::TransferAsset {
                asset,
                from,
                to,
                claim: warrant@,
            },
            Call::CloseAccount { account, reclaim_to, warrant } => Request::CloseAccount {
                account,
                reclaim_to,
                claim: warrant@,
            },
            Call::Mint { asset, to, amount, warrant } => Request::Mint {
                asset,
                to,
                amount,
                claim: warrant@,
            },
            Call::CreateIssuer { asset, authority } => Request::CreateIssuer { asset, authority },
        }
    }
}

/// What a list of calls asks, call by call.
pub open spec fn requests(calls: Seq<Call>) -> Seq<Request> {
    Seq::new(calls.len(), |i: int| calls[i]@)
}

impl LedgerState {
    /// The state after one request, or why the ledger refuses it.
    pub open spec fn perform(self, request: Request) -> Result<LedgerState, LedgerError> {
        match request {
            Request::Transfer { from, to, amount } => self.transfer(from, to, amount),
            Request::OpenAccount { account } => self.open_account(account),
            Request::EnsureOpen { account } => Ok(self.opened(account)),
            Request::TransferAsset { asset, from, to, claim } => self.transfer_asset(
                asset,
                from,
                to,
                claim,
            ),
            Request::CloseAccount { account, reclaim_to, claim } => self.close_account(
                account,
                claim,
            ),
            Request::Mint { asset, to, amount, claim } => self.mint(asset, to, amount, claim),
            Request::CreateIssuer { asset, authority } => self.create_issuer(asset, authority),
        }
    }

    /// The state after a list of requests, each performed on the state that
    /// the one before it left, or the first refusal among them.
    pub open spec fn run(self, requests: Seq<Request>) -> Result<LedgerState, LedgerError>
        decreases requests.len(),
    {
        if requests.len() == 0 {
            Ok(self)
        } else {
            match self.perform(requests[0]) {
                Err(e) => Err(e),
                Ok(next) => next.run(requests.drop_first()),
            }
        }
    }
}

/// A single request runs as it is performed.
pub proof fn lemma_run_one(ledger: LedgerState, a: Request)
    ensures
        ledger.run(seq![a]) == ledger.perform(a),
{
    reveal_with_fuel(LedgerState::run, 2);
    assert(seq![a].drop_first() =~= Seq::<Request>::empty());
}

/// Two requests run one after the other, the second on what the first left.
pub proof fn lemma_run_two(ledger: LedgerState, a: Request, b: Request)
    ensures
        ledger.run(seq![a, b]) == match ledger.perform(a) {
            Err(e) => Err(e),
            Ok(next) => next.perform(b),
        },
{
    assert(seq![a, b].drop_first() =~= seq![b]);
    if let Ok(next) = ledger.perform(a) {
        lemma_run_one(next, b);
    }
}

/// Three requests run one after the other, each on what the one before left.
pub proof fn lemma_run_three(ledger: LedgerState, a: Request, b: Request, c: Request)
    ensures
        ledger.run(seq![a, b, c]) == match ledger.perform(a) {
            Err(e) => Err(e),
            Ok(next) => match next.perform(b) {
                Err(e) => Err(e),
                Ok(last) => last.perform(c),
            },
        },
{
    assert(seq![a, b, c].drop_first() =~= seq![b, c]);
    if let Ok(next) = ledger.perform(a) {
        lemma_run_two(next, b, c);
    }
}

impl Ledger {
    /// Performs one call.
    pub fn perform(&mut self, call: &Call) -> (r: Result<(), LedgerError>)
        requires
            old(self).wf(),
        ensures
            final(self).wf(),
            settles(r, old(self)@, final(self)@, old(self)@.perform(call@)),
    {
        match call {
            Call::Transfer { from, to, amount } => self.transfer(from, to, *amount),
            Call::OpenAccount { account } => self.open_account(*account),
            Call::EnsureOpen { account } => {
                self.ensure_open(*account);
                Ok(())
            },
            Call::TransferAsset { asset, from, to, warrant } => self.transfer_asset(
                asset,
                from,
                to,
                warrant,
            ),
            Call::CloseAccount { account, reclaim_to, warrant } => self.close_account(
                account,
                warrant,
            ),
            Call::Mint { asset, to, amount, warrant } => self.mint(asset, to, *amount, warrant),
            Call::CreateIssuer { asset, authority } => self.create_issuer(asset, authority),
        }
    }

    /// Performs a list of calls in their order, all of them or none: at the
    /// first refusal the ledger is put back as it was.
    pub fn run(&mut self, calls: &Vec<Call>) -> (r: Result<(), LedgerError>)
        requires
            old(self).wf(),
        ensures
            final(self).wf(),
            settles(r, old(self)@, final(self)@, old(self)@.run(requests(calls@))),
    {
        let saved = self.snapshot();
        let ghost all = requests(calls@);
        let mut i: usize = 0;
        assert(all.skip(0) =~= all);
        while i < calls.len()
            invariant
                i <= calls@.len(),
                self.wf(),
                saved.wf(),
                saved@ == old(self)@,
                all == requests(calls@),
                old(self)@.run(all) == self@.run(all.skip(i as int)),
            decreases calls@.len() - i,
        {
            proof {
                assert(all.skip(i as int)[0] == calls@[i as int]@);
                assert(all.skip(i as int).drop_first() =~= all.skip(i as int + 1));
            }
            match self.perform(&calls[i]) {
                Ok(()) => {},
                Err(e) => {
                    *self = saved;
                    return Err(e);
                },
            }
            i += 1;
        }
        proof {
            assert(all.skip(i as int).len() == 0);
        }
        Ok(())
    }
}

} // verus!
