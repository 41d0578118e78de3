use marketplace::calls::Call;
use marketplace::contexts::Payments;
use marketplace::{
    Custody, Delist, Identity, Initialize, Ledger, LedgerError, List, Purchase, Warrant,
};

fn who(tag: u8) -> Identity {
    Identity::new([tag; 32])
}

fn sale() -> Purchase {
    Purchase {
        taker: who(2),
        maker: who(1),
        maker_mint: who(10),
        marketplace: who(20),
        listing: who(30),
    }
}

fn vault_seeds(bump: u8) -> Warrant {
    Warrant::Seeds(vec![vec![20u8; 32], vec![10u8; 32], vec![bump]])
}

#[test]
fn pay_asks_for_the_share_then_the_fee() {
    let due = Payments { share: 900, fee: 100, treasury: who(40) };
    assert_eq!(
        sale().pay_calls(&due),
        vec![
            Call::Transfer { from: who(2), to: who(1), amount: 900 },
            Call::Transfer { from: who(2), to: who(40), amount: 100 },
        ]
    );
}

#[test]
fn transfer_nft_asks_for_the_takers_account_then_the_asset() {
    assert_eq!(
        sale().transfer_nft_calls(5),
        vec![
            Call::EnsureOpen { account: Custody { asset: who(10), holder: who(2) } },
            Call::TransferAsset {
                asset: who(10),
                from: who(30),
                to: who(2),
                warrant: vault_seeds(5)
            },
        ]
    );
}

#[test]
fn close_vault_reclaims_to_the_maker() {
    assert_eq!(
        sale().close_vault_calls(5),
        vec![Call::CloseAccount {
            account: Custody { asset: who(10), holder: who(30) },
            reclaim_to: who(1),
            warrant: vault_seeds(5)
        }]
    );
}

#[test]
fn reward_asks_for_the_credit_account_then_one_credit() {
    let warrant = || Warrant::Seeds(vec![b"marketplace".to_vec(), b"toys".to_vec(), vec![9u8]]);
    assert_eq!(
        sale().reward_calls(who(50), warrant()),
        vec![
            Call::EnsureOpen { account: Custody { asset: who(50), holder: who(2) } },
            Call::Mint { asset: who(50), to: who(2), amount: 1, warrant: warrant() },
        ]
    );
}

#[test]
fn list_asks_for_the_vault_then_the_deposit() {
    let request = List {
        maker: who(1),
        maker_mint: who(10),
        marketplace: who(20),
        listing: who(30),
        collection_mint: who(11),
    };
    assert_eq!(
        request.create_calls(),
        vec![Call::OpenAccount { account: Custody { asset: who(10), holder: who(30) } }]
    );
    assert_eq!(
        request.deposit_calls(),
        vec![Call::TransferAsset {
            asset: who(10),
            from: who(1),
            to: who(30),
            warrant: Warrant::Signer(who(1))
        }]
    );
}

#[test]
fn withdraw_returns_the_asset_then_closes_the_vault_for_the_maker() {
    let request =
        Delist { maker: who(1), maker_mint: who(10), marketplace: who(20), listing: who(30) };
    assert_eq!(
        request.withdraw_calls(5),
        vec![
            Call::EnsureOpen { account: Custody { asset: who(10), holder: who(1) } },
            Call::TransferAsset {
                asset: who(10),
                from: who(30),
                to: who(1),
                warrant: vault_seeds(5)
            },
            Call::CloseAccount {
                account: Custody { asset: who(10), holder: who(30) },
                reclaim_to: who(1),
                warrant: vault_seeds(5)
            },
        ]
    );
}

#[test]
fn initialize_asks_for_the_credits_issuer() {
    assert_eq!(
        Initialize::issuer_calls(who(50), who(20)),
        vec![Call::CreateIssuer { asset: who(50), authority: who(20) }]
    );
}

#[test]
fn run_performs_every_call_in_order() {
    let mut ledger = Ledger::new(who(7));
    let calls = vec![
        Call::CreateIssuer { asset: who(10), authority: who(3) },
        Call::OpenAccount { account: Custody { asset: who(10), holder: who(1) } },
        Call::Mint { asset: who(10), to: who(1), amount: 1, warrant: Warrant::Signer(who(3)) },
        Call::EnsureOpen { account: Custody { asset: who(10), holder: who(2) } },
        Call::EnsureOpen { account: Custody { asset: who(10), holder: who(2) } },
        Call::TransferAsset {
            asset: who(10),
            from: who(1),
            to: who(2),
            warrant: Warrant::Signer(who(1)),
        },
        Call::CloseAccount {
            account: Custody { asset: who(10), holder: who(1) },
            reclaim_to: who(1),
            warrant: Warrant::Signer(who(1)),
        },
    ];
    assert_eq!(ledger.run(&calls), Ok(()));
    assert_eq!(ledger.issuer(&who(10)), Some(who(3)));
    assert_eq!(ledger.account(&who(10), &who(1)), None);
    assert_eq!(ledger.account(&who(10), &who(2)), Some(1));
    assert_eq!(ledger.run(&Vec::new()), Ok(()));
}

#[test]
fn run_undoes_what_it_did_when_a_call_is_refused() {
    let mut ledger = Ledger::new(who(7));
    ledger.deposit(&who(2), 950).unwrap();
    let calls = vec![
        Call::Transfer { from: who(2), to: who(1), amount: 900 },
        Call::Transfer { from: who(2), to: who(40), amount: 100 },
    ];
    assert_eq!(ledger.run(&calls), Err(LedgerError::InsufficientFunds));
    assert_eq!(ledger.balance(&who(2)), 950);
    assert_eq!(ledger.balance(&who(1)), 0);
    assert_eq!(ledger.balance(&who(40)), 0);
    assert_eq!(ledger.perform(&calls[0]), Ok(()));
    assert_eq!(ledger.perform(&calls[1]), Err(LedgerError::InsufficientFunds));
    assert_eq!(ledger.balance(&who(2)), 50);
    assert_eq!(ledger.balance(&who(1)), 900);
}
