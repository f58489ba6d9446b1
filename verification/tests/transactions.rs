use ledger_core::errors::Error;
use ledger_core::execute::{execute, process};
use ledger_core::state::LedgerState;
use ledger_core::types::{
    CreatePortfolio, CurrencyIssue, PublicKey, SignedTransaction, Transfer, TransactionPayload,
    TxHash,
};

fn key(b: u8) -> PublicKey {
    PublicKey::new([b; 32])
}

fn hash(b: u8) -> TxHash {
    TxHash::new([b; 32])
}

fn create_tx(id: u64, owner: PublicKey, pairs: Vec<(u64, u64)>, signer: PublicKey, h: u8) -> SignedTransaction {
    SignedTransaction {
        payload: TransactionPayload::CreatePortfolio(CreatePortfolio {
            portfolio_id: id,
            pub_key: owner,
            currencies: pairs,
        }),
        signer,
        hash: hash(h),
    }
}

fn transfer_tx(from: PublicKey, to: PublicKey, portfolio_id: u64, seed: u64, signer: PublicKey, h: u8) -> SignedTransaction {
    SignedTransaction {
        payload: TransactionPayload::Transfer(Transfer { from, to, portfolio_id, seed }),
        signer,
        hash: hash(h),
    }
}

fn issue_tx(target: PublicKey, currency_id: u64, amount: u64, seed: u64, signer: PublicKey, h: u8) -> SignedTransaction {
    SignedTransaction {
        payload: TransactionPayload::CurrencyIssue(CurrencyIssue {
            pub_key: target,
            currency_id,
            amount,
            seed,
        }),
        signer,
        hash: hash(h),
    }
}

#[test]
fn scenario_create_portfolio_commits() {
    let mut s = LedgerState::new();
    let k1 = key(1);
    let tx = create_tx(1, k1, vec![(10, 100)], k1, 40);
    let r = process(tx, &mut s, Some(1000));
    assert_eq!(r, Some(Ok(())));
    let p = s.portfolio(&key(1)).expect("portfolio must exist");
    assert_eq!(p.portfolio_id, 1);
    assert_eq!(p.owner.bytes, [1; 32]);
    assert_eq!(p.holdings, vec![(10, 100)]);
    assert_eq!(s.timestamps.len(), 1);
    assert_eq!(s.timestamps[0].tx_hash.bytes, [40; 32]);
    assert_eq!(s.timestamps[0].time, 1000);
}

#[test]
fn scenario_second_create_rejected() {
    let mut s = LedgerState::new();
    let k1 = key(1);
    let r1 = process(create_tx(1, k1, vec![(10, 100)], k1, 40), &mut s, Some(1000));
    assert_eq!(r1, Some(Ok(())));
    let r2 = process(create_tx(2, k1, vec![], k1, 41), &mut s, Some(1001));
    assert_eq!(r2, Some(Err(Error::WalletAlreadyExists)));
    // The existing portfolio is unchanged and no new timestamp was recorded.
    assert_eq!(s.portfolios.len(), 1);
    let p = s.portfolio(&k1).expect("portfolio must still exist");
    assert_eq!(p.portfolio_id, 1);
    assert_eq!(p.holdings, vec![(10, 100)]);
    assert_eq!(s.timestamps.len(), 1);
}

#[test]
fn scenario_transfer_without_portfolio_rejected() {
    let mut s = LedgerState::new();
    let k2 = key(2);
    let k3 = key(3);
    let r = process(transfer_tx(k2, k3, 1, 7, k2, 42), &mut s, Some(1000));
    assert_eq!(r, Some(Err(Error::ReceiverNotFound)));
    assert_eq!(s.portfolios.len(), 0);
    assert_eq!(s.currencies.len(), 0);
    assert_eq!(s.timestamps.len(), 0);
}

#[test]
fn scenario_issue_commits_unconditionally() {
    let mut s = LedgerState::new();
    let k4 = key(4);
    let r = process(issue_tx(k4, 10, 500, 1, k4, 43), &mut s, Some(1000));
    assert_eq!(r, Some(Ok(())));
    assert_eq!(s.currencies.len(), 1);
    assert_eq!(s.currencies[0].currency_id, 10);
    assert_eq!(s.currencies[0].issued, 500);
    assert_eq!(s.timestamps.len(), 1);
    assert_eq!(s.timestamps[0].tx_hash.bytes, [43; 32]);
}

#[test]
fn scenario_bad_signature_discarded() {
    let mut s = LedgerState::new();
    let k1 = key(1);
    let wrong = key(9);
    // One transaction of each kind, each signed by the wrong identity.
    let txs = vec![
        create_tx(1, k1, vec![(10, 100)], wrong, 44),
        transfer_tx(k1, key(2), 1, 7, wrong, 45),
        issue_tx(k1, 10, 500, 1, wrong, 46),
    ];
    for tx in txs {
        assert!(!tx.verify());
        let r = process(tx, &mut s, Some(1000));
        assert_eq!(r, None);
    }
    // Zero state change, zero timestamp entries.
    assert_eq!(s.portfolios.len(), 0);
    assert_eq!(s.currencies.len(), 0);
    assert_eq!(s.timestamps.len(), 0);
}

#[test]
fn issuance_is_additive() {
    let mut s = LedgerState::new();
    let k4 = key(4);
    process(issue_tx(k4, 10, 500, 1, k4, 47), &mut s, Some(1000));
    process(issue_tx(k4, 10, 500, 2, k4, 48), &mut s, Some(1001));
    process(issue_tx(k4, 11, 30, 3, k4, 49), &mut s, Some(1002));
    assert_eq!(s.currencies.len(), 2);
    assert_eq!(s.currencies[0].currency_id, 10);
    assert_eq!(s.currencies[0].issued, 1000);
    assert_eq!(s.currencies[1].currency_id, 11);
    assert_eq!(s.currencies[1].issued, 30);
    assert_eq!(s.timestamps.len(), 3);
}

#[test]
fn issue_of_largest_amount_commits() {
    let mut s = LedgerState::new();
    let k5 = key(5);
    let r = process(issue_tx(k5, 1, u64::MAX, 1, k5, 55), &mut s, Some(1000));
    assert_eq!(r, Some(Ok(())));
    assert_eq!(s.currencies[0].issued, u64::MAX);
    assert_eq!(s.timestamps.len(), 1);
}

#[test]
fn transfer_commits_once_sender_has_portfolio() {
    let mut s = LedgerState::new();
    let k1 = key(1);
    process(create_tx(1, k1, vec![(10, 100)], k1, 50), &mut s, Some(1000));
    let r = process(transfer_tx(k1, key(2), 1, 8, k1, 51), &mut s, Some(1001));
    assert_eq!(r, Some(Ok(())));
    // The commit records a timestamp; holdings are not moved.
    assert_eq!(s.timestamps.len(), 2);
    assert_eq!(s.timestamps[1].tx_hash.bytes, [51; 32]);
    assert_eq!(s.timestamps[1].time, 1001);
    assert_eq!(s.portfolio(&k1).unwrap().holdings, vec![(10, 100)]);
}

#[test]
fn execution_is_deterministic() {
    let run = || {
        let mut s = LedgerState::new();
        let k1 = key(1);
        let r1 = process(create_tx(1, k1, vec![(10, 100)], k1, 52), &mut s, Some(1000));
        let r2 = process(issue_tx(k1, 10, 77, 1, k1, 53), &mut s, Some(1001));
        let r3 = process(transfer_tx(k1, key(2), 1, 9, k1, 54), &mut s, Some(1002));
        (r1, r2, r3, s)
    };
    let (a1, a2, a3, sa) = run();
    let (b1, b2, b3, sb) = run();
    assert_eq!(a1, b1);
    assert_eq!(a2, b2);
    assert_eq!(a3, b3);
    assert_eq!(sa.portfolios.len(), sb.portfolios.len());
    assert_eq!(sa.portfolios[0].portfolio_id, sb.portfolios[0].portfolio_id);
    assert_eq!(sa.portfolios[0].holdings, sb.portfolios[0].holdings);
    assert_eq!(sa.currencies.len(), sb.currencies.len());
    assert_eq!(sa.currencies[0].issued, sb.currencies[0].issued);
    assert_eq!(sa.timestamps.len(), sb.timestamps.len());
    for i in 0..sa.timestamps.len() {
        assert_eq!(sa.timestamps[i].tx_hash.bytes, sb.timestamps[i].tx_hash.bytes);
        assert_eq!(sa.timestamps[i].time, sb.timestamps[i].time);
    }
}

#[test]
fn one_timestamp_per_committed_transaction() {
    let mut s = LedgerState::new();
    let k1 = key(1);
    // Committed: one entry under the transaction's hash.
    process(create_tx(1, k1, vec![], k1, 60), &mut s, Some(1000));
    // Rejected: no entry under the transaction's hash.
    process(create_tx(2, k1, vec![], k1, 61), &mut s, Some(1001));
    let count = |h: u8| s.timestamps.iter().filter(|e| e.tx_hash.bytes == [h; 32]).count();
    assert_eq!(count(60), 1);
    assert_eq!(count(61), 0);
}

#[test]
fn execute_directly_applies_verified_transaction() {
    let mut s = LedgerState::new();
    let k4 = key(4);
    let tx = issue_tx(k4, 10, 500, 1, k4, 62);
    assert!(tx.verify());
    let r = execute(tx, &mut s, Some(2000));
    assert_eq!(r, Ok(()));
    assert_eq!(s.currencies[0].issued, 500);
}

#[test]
fn error_codes_are_stable() {
    assert_eq!(Error::WalletAlreadyExists.code(), 0);
    assert_eq!(Error::SenderNotFound.code(), 1);
    assert_eq!(Error::ReceiverNotFound.code(), 2);
    assert_eq!(Error::InsufficientCurrencyAmount.code(), 3);
    assert_eq!(Error::Timeisup.code(), 4);
    assert_eq!(Error::NotInspector.code(), 5);
    assert_eq!(Error::NotIssuer.code(), 6);
}

#[test]
fn error_descriptions() {
    assert_eq!(Error::WalletAlreadyExists.description(), "Wallet already exists");
    assert_eq!(Error::SenderNotFound.description(), "Sender doesn't exist");
    assert_eq!(Error::ReceiverNotFound.description(), "Receiver doesn't exist");
    assert_eq!(Error::InsufficientCurrencyAmount.description(), "Insufficient currency amount");
    assert_eq!(Error::Timeisup.description(), "Time is up");
    assert_eq!(Error::NotInspector.description(), "Pubkey doesn't belong to inspector");
    assert_eq!(Error::NotIssuer.description(), "Pubkey doesn't belong to issuer");
}

#[test]
fn public_key_equality() {
    assert!(key(1).equals(&key(1)));
    assert!(!key(1).equals(&key(2)));
    let mut almost = [7u8; 32];
    almost[31] = 8;
    assert!(!PublicKey::new([7; 32]).equals(&PublicKey::new(almost)));
}

#[test]
fn empty_ledger_has_nothing() {
    let s = LedgerState::new();
    assert_eq!(s.portfolios.len(), 0);
    assert_eq!(s.currencies.len(), 0);
    assert_eq!(s.timestamps.len(), 0);
    assert!(s.portfolio(&key(1)).is_none());
}
