//! Properties of the transaction processor, stated and proved once and for
//! all inputs: determinism of execution, the single-portfolio-per-owner
//! invariant, timestamp accounting, and the per-kind rejection rules.

use vstd::prelude::*;

use crate::errors::Error;
use crate::execute::{issue_within_bounds, spec_execute};
use crate::state::{
    has_portfolio, issued_amount, lemma_add_currency_properties,
    lemma_push_portfolio_preserves_unique, lemma_timestamp_count_push, timestamp_count, LedgerView,
    Portfolio, TimestampEntry,
};
use crate::types::{SignedTransaction, TransactionPayload};

verus! {

/// Determinism: the outcome and the post-state of executing a transaction are
/// a function of the transaction, the pre-state and the ledger-agreed time
/// alone. Two runs of the same transaction from equal pre-states at the same
/// time give an identical outcome and an identical post-state, on every
/// replica.
pub proof fn lemma_execute_deterministic(
    tx1: SignedTransaction,
    tx2: SignedTransaction,
    s1: LedgerView,
    s2: LedgerView,
    time1: u64,
    time2: u64,
)
    requires
        tx1 == tx2,
        s1 == s2,
        time1 == time2,
    ensures
        spec_execute(tx1, s1, time1) == spec_execute(tx2, s2, time2),
{
}

/// Single portfolio per owner: in a well-formed ledger, any two portfolio
/// positions with the same owner are the same position, so an identity owns
/// at most one portfolio.
pub proof fn lemma_single_portfolio_per_owner(s: LedgerView, i: int, j: int)
    requires
        s.wf(),
        0 <= i < s.portfolios.len(),
        0 <= j < s.portfolios.len(),
        s.portfolios[i].owner@ == s.portfolios[j].owner@,
    ensures
        i == j,
{
    if i < j {
        assert(s.portfolios[i].owner@ != s.portfolios[j].owner@);
    } else if j < i {
        assert(s.portfolios[j].owner@ != s.portfolios[i].owner@);
    }
}

/// Execution preserves well-formedness: owners stay unique and currency ids
/// stay unique across every transaction, so the single-portfolio-per-owner
/// invariant holds after any sequence of executed transactions.
pub proof fn lemma_execute_preserves_wf(tx: SignedTransaction, s: LedgerView, time: u64)
    requires
        s.wf(),
        issue_within_bounds(tx, s),
    ensures
        spec_execute(tx, s, time).0.wf(),
{
    match tx.payload {
        TransactionPayload::Transfer(_) => {
        },
        TransactionPayload::CurrencyIssue(c) => {
            lemma_add_currency_properties(s.currencies, c.currency_id, c.amount);
        },
        TransactionPayload::CreatePortfolio(p) => {
            if !has_portfolio(s.portfolios, p.pub_key@) {
                lemma_push_portfolio_preserves_unique(
                    s.portfolios,
                    Portfolio {
                        portfolio_id: p.portfolio_id,
                        owner: p.pub_key,
                        holdings: p.currencies,
                    },
                );
            }
        },
    }
}

/// All-or-nothing execution: rejection is decided before any mutating write,
/// so a rejected transaction leaves the ledger exactly as it was.
pub proof fn lemma_rejection_mutates_nothing(tx: SignedTransaction, s: LedgerView, time: u64)
    ensures
        spec_execute(tx, s, time).1 is Err ==> spec_execute(tx, s, time).0 == s,
{
}

/// A second `CreatePortfolio` for an identity that already owns a portfolio
/// always yields `WalletAlreadyExists` and leaves the ledger — the existing
/// portfolio included — unchanged.
pub proof fn lemma_second_create_rejected(tx: SignedTransaction, s: LedgerView, time: u64)
    requires
        tx.payload is CreatePortfolio,
        has_portfolio(s.portfolios, tx.payload->CreatePortfolio_0.pub_key@),
    ensures
        spec_execute(tx, s, time).0 == s,
        spec_execute(tx, s, time).1 == Err::<(), Error>(Error::WalletAlreadyExists),
{
}

/// A `Transfer` whose sender owns no portfolio always yields
/// `ReceiverNotFound` and produces no state mutation.
pub proof fn lemma_transfer_without_portfolio_rejected(
    tx: SignedTransaction,
    s: LedgerView,
    time: u64,
)
    requires
        tx.payload is Transfer,
        !has_portfolio(s.portfolios, tx.payload->Transfer_0.from@),
    ensures
        spec_execute(tx, s, time).0 == s,
        spec_execute(tx, s, time).1 == Err::<(), Error>(Error::ReceiverNotFound),
{
}

/// A `CurrencyIssue` always commits: the cumulative total of the issued
/// currency grows by exactly the issued amount and every other currency's
/// total is unchanged.
pub proof fn lemma_issue_always_commits(tx: SignedTransaction, s: LedgerView, time: u64)
    requires
        tx.payload is CurrencyIssue,
        s.wf(),
        issue_within_bounds(tx, s),
    ensures
        spec_execute(tx, s, time).1 == Ok::<(), Error>(()),
        issued_amount(
            spec_execute(tx, s, time).0.currencies,
            tx.payload->CurrencyIssue_0.currency_id,
        ) == issued_amount(s.currencies, tx.payload->CurrencyIssue_0.currency_id)
            + tx.payload->CurrencyIssue_0.amount,
        forall|c: u64|
            c != tx.payload->CurrencyIssue_0.currency_id ==> issued_amount(
                spec_execute(tx, s, time).0.currencies,
                c,
            ) == issued_amount(s.currencies, c),
{
    let c = tx.payload->CurrencyIssue_0;
    lemma_add_currency_properties(s.currencies, c.currency_id, c.amount);
}

/// Timestamp accounting: a committed transaction appends exactly one
/// timestamp entry, keyed by its own content hash; a rejected transaction
/// appends none; and no execution ever touches the count of any other hash.
pub proof fn lemma_timestamp_accounting(tx: SignedTransaction, s: LedgerView, time: u64)
    ensures
        spec_execute(tx, s, time).1 is Ok ==> timestamp_count(
            spec_execute(tx, s, time).0.timestamps,
            tx.hash@,
        ) == timestamp_count(s.timestamps, tx.hash@) + 1,
        spec_execute(tx, s, time).1 is Err ==> spec_execute(tx, s, time).0.timestamps
            == s.timestamps,
        forall|h: Seq<u8>|
            h != tx.hash@ ==> timestamp_count(spec_execute(tx, s, time).0.timestamps, h)
                == timestamp_count(s.timestamps, h),
{
    let entry = TimestampEntry { tx_hash: tx.hash, time };
    if spec_execute(tx, s, time).1 is Ok {
        assert(spec_execute(tx, s, time).0.timestamps == s.timestamps.push(entry));
        lemma_timestamp_count_push(s.timestamps, entry, tx.hash@);
        assert forall|h: Seq<u8>| h != tx.hash@ implies timestamp_count(
            spec_execute(tx, s, time).0.timestamps,
            h,
        ) == timestamp_count(s.timestamps, h) by {
            lemma_timestamp_count_push(s.timestamps, entry, h);
        }
    }
}

} // verus!
