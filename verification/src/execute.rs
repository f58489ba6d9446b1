//! The execution engine: deterministic per-kind state transitions.
//!
//! [`spec_execute`] is the mathematical transition relation — a function of
//! the transaction, the pre-state and the ledger-agreed time alone, which is
//! what replicated consensus requires. [`execute`] applies it to a mutable
//! ledger fork; [`process`] is the whole pipeline for one inbound record:
//! pre-admission signature filter, then execution.
//!
//! Rejection is decided before any mutating write is issued, so a rejected
//! transaction leaves the fork exactly as it was: all-or-nothing per
//! transaction.

use vstd::prelude::*;

use crate::errors::Error;
use crate::state::{
    has_portfolio, issue_fits, spec_add_currency, LedgerState, LedgerView, Portfolio,
    TimestampEntry,
};
use crate::types::{SignedTransaction, TransactionPayload};

verus! {

/// Whether issuing under this transaction keeps the targeted cumulative total
/// within its machine bound; vacuous for the other transaction kinds.
pub open spec fn issue_within_bounds(tx: SignedTransaction, s: LedgerView) -> bool {
    match tx.payload {
        TransactionPayload::CurrencyIssue(c) => issue_fits(s.currencies, c.currency_id, c.amount),
        _ => true,
    }
}

/// The state transition of one already-verified transaction: the post-state
/// and the outcome, as a function of the transaction, the pre-state and the
/// ledger-agreed time.
///
/// - `Transfer` commits as soon as the sender owns a portfolio (balances are
///   not moved); a sender without a portfolio is rejected with
///   `ReceiverNotFound` and nothing changes.
/// - `CurrencyIssue` always commits: the amount is added to the cumulative
///   total of the currency, creating the ledger entry when absent.
/// - `CreatePortfolio` registers the portfolio unless the owner already has
///   one, in which case it is rejected with `WalletAlreadyExists` and nothing
///   changes.
///
/// Every committed transaction appends exactly one timestamp entry binding
/// its content hash to `time`; a rejected one appends none.
pub open spec fn spec_execute(tx: SignedTransaction, s: LedgerView, time: u64) -> (LedgerView,
    Result<(), Error>) {
    match tx.payload {
        TransactionPayload::Transfer(t) => {
            if has_portfolio(s.portfolios, t.from@) {
                (
                    LedgerView {
                        portfolios: s.portfolios,
                        currencies: s.currencies,
                        timestamps: s.timestamps.push(
                            (TimestampEntry { tx_hash: tx.hash, time }),
                        ),
                    },
                    Ok(()),
                )
            } else {
                (s, Err(Error::ReceiverNotFound))
            }
        },
        TransactionPayload::CurrencyIssue(c) => {
            (
                LedgerView {
                    portfolios: s.portfolios,
                    currencies: spec_add_currency(s.currencies, c.currency_id, c.amount),
                    timestamps: s.timestamps.push((TimestampEntry { tx_hash: tx.hash, time })),
                },
                Ok(()),
            )
        },
        TransactionPayload::CreatePortfolio(p) => {
            if has_portfolio(s.portfolios, p.pub_key@) {
                (s, Err(Error::WalletAlreadyExists))
            } else {
                (
                    LedgerView {
                        portfolios: s.portfolios.push(
                            (Portfolio {
                                portfolio_id: p.portfolio_id,
                                owner: p.pub_key,
                                holdings: p.currencies,
                            }),
                        ),
                        currencies: s.currencies,
                        timestamps: s.timestamps.push((TimestampEntry { tx_hash: tx.hash, time })),
                    },
                    Ok(()),
                )
            }
        },
    }
}

/// Execute an already-verified transaction against the ledger fork.
///
/// The ledger-agreed time must be available before any transaction executes;
/// its absence is a precondition violation of the surrounding system, never
/// silently defaulted. The outcome and the post-state are exactly
/// [`spec_execute`] of the pre-state: deterministic, and all-or-nothing (a
/// rejection leaves the fork untouched).
pub fn execute(tx: SignedTransaction, state: &mut LedgerState, time: Option<u64>) -> (r: Result<
    (),
    Error,
>)
    requires
        old(state).wf(),
        time is Some,
        issue_within_bounds(tx, old(state)@),
    ensures
        final(state)@ == spec_execute(tx, old(state)@, time->0).0,
        r == spec_execute(tx, old(state)@, time->0).1,
        final(state).wf(),
        r is Err ==> final(state)@ == old(state)@,
{
    let t = time.unwrap();
    let SignedTransaction { payload, hash, .. } = tx;
    match payload {
        TransactionPayload::Transfer(tr) => {
            if state.portfolio(&tr.from).is_some() {
                let entry = TimestampEntry::new(&hash, t);
                state.add_timestamp(entry);
                proof {
                    assert(state@ =~= spec_execute(tx, old(state)@, t).0);
                }
                Ok(())
            } else {
                Err(Error::ReceiverNotFound)
            }
        },
        TransactionPayload::CurrencyIssue(c) => {
            state.add_currency(c.currency_id, c.amount);
            let entry = TimestampEntry::new(&hash, t);
            state.add_timestamp(entry);
            proof {
                assert(state@ =~= spec_execute(tx, old(state)@, t).0);
            }
            Ok(())
        },
        TransactionPayload::CreatePortfolio(p) => {
            if state.portfolio(&p.pub_key).is_none() {
                state.create_portfolio(p.portfolio_id, p.pub_key, p.currencies);
                let entry = TimestampEntry::new(&hash, t);
                state.add_timestamp(entry);
                proof {
                    assert(state@ =~= spec_execute(tx, old(state)@, t).0);
                }
                Ok(())
            } else {
                Err(Error::WalletAlreadyExists)
            }
        },
    }
}

/// Process one inbound signed transaction record: run the pre-admission
/// signature filter, and execute the transaction only if it passes.
///
/// A record whose signature is not attributable to the identity required by
/// its kind is discarded as if it never arrived — no outcome (`None`), no
/// state change, no timestamp. An admitted record yields `Some` of its
/// execution outcome.
pub fn process(tx: SignedTransaction, state: &mut LedgerState, time: Option<u64>) -> (r: Option<
    Result<(), Error>,
>)
    requires
        old(state).wf(),
        time is Some,
        issue_within_bounds(tx, old(state)@),
    ensures
        final(state).wf(),
        !tx.spec_verified() ==> r is None && final(state)@ == old(state)@,
        tx.spec_verified() ==> r == Some(spec_execute(tx, old(state)@, time->0).1)
            && final(state)@ == spec_execute(tx, old(state)@, time->0).0,
{
    if tx.verify() {
        Some(execute(tx, state, time))
    } else {
        None
    }
}

} // verus!
