//! The ledger state a transaction executes against.
//!
//! [`LedgerState`] models the mutable fork handed to the execution engine for
//! exactly one transaction: portfolios keyed by their owner's identity, the
//! global currency ledger keyed by currency id, and the append-only index of
//! audit timestamps. Well-formedness ([`LedgerView::wf`]) says that no
//! identity owns two portfolios and no currency id has two ledger entries.

use vstd::prelude::*;

use crate::types::{PublicKey, TxHash};

verus! {

/// A named collection of currency balances owned by exactly one identity.
#[derive(Clone, Debug)]
pub struct Portfolio {
    /// The caller-supplied identifier of the portfolio.
    pub portfolio_id: u64,
    /// The identity that owns the portfolio.
    pub owner: PublicKey,
    /// The (currency id, amount) pairs held by the portfolio.
    pub holdings: Vec<(u64, u64)>,
}

/// A currency ledger entry: the cumulative issued amount of one currency.
#[derive(Clone, Copy, Debug)]
pub struct CurrencyEntry {
    pub currency_id: u64,
    /// The cumulative amount issued so far; mutated only by additive issuance.
    pub issued: u64,
}

/// An immutable audit record binding a transaction's content hash to the
/// ledger-agreed time at which the transaction was accepted.
#[derive(Clone, Copy, Debug)]
pub struct TimestampEntry {
    pub tx_hash: TxHash,
    pub time: u64,
}

impl TimestampEntry {
    pub fn new(tx_hash: &TxHash, time: u64) -> (e: TimestampEntry)
        ensures
            e.tx_hash == *tx_hash,
            e.time == time,
    {
        TimestampEntry { tx_hash: *tx_hash, time }
    }
}

/// The mathematical value of a [`LedgerState`].
#[verifier::ext_equal]
pub struct LedgerView {
    pub portfolios: Seq<Portfolio>,
    pub currencies: Seq<CurrencyEntry>,
    pub timestamps: Seq<TimestampEntry>,
}

/// Whether some portfolio is owned by `owner`.
pub open spec fn has_portfolio(portfolios: Seq<Portfolio>, owner: Seq<u8>) -> bool {
    exists|i: int| 0 <= i < portfolios.len() && portfolios[i].owner@ == owner
}

/// Whether the currency ledger holds an entry for `currency_id`.
pub open spec fn has_currency(currencies: Seq<CurrencyEntry>, currency_id: u64) -> bool {
    exists|i: int| 0 <= i < currencies.len() && currencies[i].currency_id == currency_id
}

/// A position of the ledger entry for `currency_id` (the position, in a
/// well-formed ledger).
pub open spec fn currency_index(currencies: Seq<CurrencyEntry>, currency_id: u64) -> int {
    choose|i: int| 0 <= i < currencies.len() && currencies[i].currency_id == currency_id
}

/// The cumulative issued amount recorded for `currency_id`; zero when the
/// ledger holds no entry for it.
pub open spec fn issued_amount(currencies: Seq<CurrencyEntry>, currency_id: u64) -> int {
    if has_currency(currencies, currency_id) {
        currencies[currency_index(currencies, currency_id)].issued as int
    } else {
        0
    }
}

/// Whether issuing `amount` of `currency_id` keeps the cumulative total
/// within the machine bound of the ledger entry.
pub open spec fn issue_fits(currencies: Seq<CurrencyEntry>, currency_id: u64, amount: u64) -> bool {
    issued_amount(currencies, currency_id) + amount <= u64::MAX
}

/// The currency ledger after `amount` of `currency_id` is issued: the
/// existing entry is increased, or a new entry is appended when absent.
pub open spec fn spec_add_currency(
    currencies: Seq<CurrencyEntry>,
    currency_id: u64,
    amount: u64,
) -> Seq<CurrencyEntry> {
    if has_currency(currencies, currency_id) {
        let i = currency_index(currencies, currency_id);
        currencies.update(
            i,
            (CurrencyEntry { currency_id, issued: (currencies[i].issued + amount) as u64 }),
        )
    } else {
        currencies.push((CurrencyEntry { currency_id, issued: amount }))
    }
}

/// How many timestamp entries are keyed by `hash`.
pub open spec fn timestamp_count(timestamps: Seq<TimestampEntry>, hash: Seq<u8>) -> nat
    decreases timestamps.len(),
{
    if timestamps.len() == 0 {
        0
    } else {
        timestamp_count(timestamps.drop_last(), hash) + (if timestamps.last().tx_hash@ == hash {
            1nat
        } else {
            0nat
        })
    }
}

/// No identity owns two portfolios.
pub open spec fn owners_unique(portfolios: Seq<Portfolio>) -> bool {
    forall|i: int, j: int|
        0 <= i < j < portfolios.len() ==> portfolios[i].owner@ != portfolios[j].owner@
}

/// No currency id has two ledger entries.
pub open spec fn currency_ids_unique(currencies: Seq<CurrencyEntry>) -> bool {
    forall|i: int, j: int|
        0 <= i < j < currencies.len() ==> currencies[i].currency_id != currencies[j].currency_id
}

impl LedgerView {
    /// The structural invariant of the ledger.
    pub open spec fn wf(self) -> bool {
        owners_unique(self.portfolios) && currency_ids_unique(self.currencies)
    }
}

/// Appending a portfolio for an owner with no portfolio keeps owners unique.
pub proof fn lemma_push_portfolio_preserves_unique(portfolios: Seq<Portfolio>, p: Portfolio)
    requires
        owners_unique(portfolios),
        !has_portfolio(portfolios, p.owner@),
    ensures
        owners_unique(portfolios.push(p)),
{
    let post = portfolios.push(p);
    assert forall|i: int, j: int| 0 <= i < j < post.len() implies post[i].owner@ != post[j].owner@ by {
        if j == portfolios.len() {
            assert(post[i] == portfolios[i]);
            assert(portfolios[i].owner@ != p.owner@);
        } else {
            assert(post[i] == portfolios[i]);
            assert(post[j] == portfolios[j]);
        }
    }
}

/// What additive issuance does to the currency ledger: the targeted total
/// grows by `amount`, every other total is unchanged, and uniqueness of
/// currency ids is preserved.
pub proof fn lemma_add_currency_properties(
    currencies: Seq<CurrencyEntry>,
    currency_id: u64,
    amount: u64,
)
    requires
        currency_ids_unique(currencies),
        issue_fits(currencies, currency_id, amount),
    ensures
        currency_ids_unique(spec_add_currency(currencies, currency_id, amount)),
        issued_amount(spec_add_currency(currencies, currency_id, amount), currency_id)
            == issued_amount(currencies, currency_id) + amount,
        forall|c: u64|
            c != currency_id ==> issued_amount(spec_add_currency(currencies, currency_id, amount), c)
                == issued_amount(currencies, c),
        spec_add_currency(currencies, currency_id, amount).len() == currencies.len() + (
        if has_currency(currencies, currency_id) {
            0int
        } else {
            1int
        }),
{
    let post = spec_add_currency(currencies, currency_id, amount);
    if has_currency(currencies, currency_id) {
        let k = currency_index(currencies, currency_id);
        assert(0 <= k < currencies.len() && currencies[k].currency_id == currency_id);
        // The update leaves every currency id in place, so uniqueness carries over.
        assert forall|i: int, j: int| 0 <= i < j < post.len() implies post[i].currency_id
            != post[j].currency_id by {
            assert(post[i].currency_id == currencies[i].currency_id);
            assert(post[j].currency_id == currencies[j].currency_id);
        }
        lemma_unique_currency_index(post, currency_id, k);
        assert(issued_amount(post, currency_id) == post[k].issued as int);
        assert forall|c: u64| c != currency_id implies issued_amount(post, c) == issued_amount(
            currencies,
            c,
        ) by {
            if has_currency(currencies, c) {
                let j = currency_index(currencies, c);
                assert(0 <= j < currencies.len() && currencies[j].currency_id == c);
                assert(j != k);
                assert(post[j] == currencies[j]);
                lemma_unique_currency_index(post, c, j);
            } else if has_currency(post, c) {
                let j = currency_index(post, c);
                assert(0 <= j < post.len() && post[j].currency_id == c);
                assert(j != k);
                assert(currencies[j].currency_id == c);
                assert(false);
            }
        }
    } else {
        let k = currencies.len() as int;
        assert forall|i: int, j: int| 0 <= i < j < post.len() implies post[i].currency_id
            != post[j].currency_id by {
            if j == k {
                assert(post[i] == currencies[i]);
                assert(!(0 <= i < currencies.len() && currencies[i].currency_id == currency_id));
            } else {
                assert(post[i] == currencies[i]);
                assert(post[j] == currencies[j]);
            }
        }
        lemma_unique_currency_index(post, currency_id, k);
        assert(issued_amount(post, currency_id) == amount);
        assert forall|c: u64| c != currency_id implies issued_amount(post, c) == issued_amount(
            currencies,
            c,
        ) by {
            if has_currency(currencies, c) {
                let j = currency_index(currencies, c);
                assert(0 <= j < currencies.len() && currencies[j].currency_id == c);
                assert(post[j] == currencies[j]);
                lemma_unique_currency_index(post, c, j);
            } else if has_currency(post, c) {
                let j = currency_index(post, c);
                assert(0 <= j < post.len() && post[j].currency_id == c);
                assert(j != k);
                assert(currencies[j].currency_id == c);
                assert(false);
            }
        }
    }
}

/// In a ledger with unique currency ids, any position holding `currency_id`
/// is the one `currency_index` denotes.
pub proof fn lemma_unique_currency_index(currencies: Seq<CurrencyEntry>, currency_id: u64, k: int)
    requires
        currency_ids_unique(currencies),
        0 <= k < currencies.len(),
        currencies[k].currency_id == currency_id,
    ensures
        has_currency(currencies, currency_id),
        currency_index(currencies, currency_id) == k,
{
    assert(has_currency(currencies, currency_id));
    let i = currency_index(currencies, currency_id);
    assert(0 <= i < currencies.len() && currencies[i].currency_id == currency_id);
    if i < k {
        assert(currencies[i].currency_id != currencies[k].currency_id);
    } else if k < i {
        assert(currencies[k].currency_id != currencies[i].currency_id);
    }
}

/// Appending one timestamp entry raises the count for its own hash by one and
/// leaves every other count unchanged.
pub proof fn lemma_timestamp_count_push(
    timestamps: Seq<TimestampEntry>,
    entry: TimestampEntry,
    hash: Seq<u8>,
)
    ensures
        timestamp_count(timestamps.push(entry), hash) == timestamp_count(timestamps, hash) + (
        if entry.tx_hash@ == hash {
            1nat
        } else {
            0nat
        }),
{
    assert(timestamps.push(entry).drop_last() =~= timestamps);
    assert(timestamps.push(entry).last() == entry);
}

/// The ledger state a transaction executes against: a uniquely-owned mutable
/// fork of the latest committed state.
#[derive(Clone, Debug)]
pub struct LedgerState {
    pub portfolios: Vec<Portfolio>,
    pub currencies: Vec<CurrencyEntry>,
    pub timestamps: Vec<TimestampEntry>,
}

impl View for LedgerState {
    type V = LedgerView;

    open spec fn view(&self) -> LedgerView {
        LedgerView {
            portfolios: self.portfolios@,
            currencies: self.currencies@,
            timestamps: self.timestamps@,
        }
    }
}

impl LedgerState {
    pub open spec fn wf(self) -> bool {
        self@.wf()
    }

    /// An empty ledger: no portfolios, no currency entries, no timestamps.
    pub fn new() -> (s: LedgerState)
        ensures
            s@.portfolios.len() == 0,
            s@.currencies.len() == 0,
            s@.timestamps.len() == 0,
            s.wf(),
    {
        LedgerState { portfolios: Vec::new(), currencies: Vec::new(), timestamps: Vec::new() }
    }

    /// The portfolio owned by `pub_key`, if any.
    pub fn portfolio(&self, pub_key: &PublicKey) -> (r: Option<&Portfolio>)
        ensures
            match r {
                Some(p) => has_portfolio(self@.portfolios, pub_key@) && p.owner@ == pub_key@
                    && (exists|i: int|
                    0 <= i < self@.portfolios.len() && self@.portfolios[i] == *p),
                None => !has_portfolio(self@.portfolios, pub_key@),
            },
    {
        let n = self.portfolios.len();
        let mut i: usize = 0;
        while i < n
            invariant
                n == self.portfolios.len(),
                0 <= i <= n,
                forall|j: int| 0 <= j < i ==> self.portfolios@[j].owner@ != pub_key@,
            decreases n - i,
        {
            if self.portfolios[i].owner.equals(pub_key) {
                return Some(&self.portfolios[i]);
            }
            i += 1;
        }
        None
    }

    /// Register a new portfolio with the given id, owner and initial pairs.
    /// The caller must have checked that the owner has no portfolio yet.
    pub fn create_portfolio(
        &mut self,
        portfolio_id: u64,
        pub_key: PublicKey,
        currencies: Vec<(u64, u64)>,
    )
        requires
            old(self).wf(),
            !has_portfolio(old(self)@.portfolios, pub_key@),
        ensures
            final(self)@.portfolios == old(self)@.portfolios.push(
                (Portfolio { portfolio_id, owner: pub_key, holdings: currencies }),
            ),
            final(self)@.currencies == old(self)@.currencies,
            final(self)@.timestamps == old(self)@.timestamps,
            final(self).wf(),
    {
        proof {
            lemma_push_portfolio_preserves_unique(
                self@.portfolios,
                Portfolio { portfolio_id, owner: pub_key, holdings: currencies },
            );
        }
        self.portfolios.push(Portfolio { portfolio_id, owner: pub_key, holdings: currencies });
    }

    /// Add `amount` to the cumulative issued total of `currency_id`, creating
    /// the ledger entry when it is absent.
    pub fn add_currency(&mut self, currency_id: u64, amount: u64)
        requires
            old(self).wf(),
            issue_fits(old(self)@.currencies, currency_id, amount),
        ensures
            final(self)@.currencies == spec_add_currency(
                old(self)@.currencies,
                currency_id,
                amount,
            ),
            final(self)@.portfolios == old(self)@.portfolios,
            final(self)@.timestamps == old(self)@.timestamps,
            final(self).wf(),
            issued_amount(final(self)@.currencies, currency_id) == issued_amount(
                old(self)@.currencies,
                currency_id,
            ) + amount,
            forall|c: u64|
                c != currency_id ==> issued_amount(final(self)@.currencies, c) == issued_amount(
                    old(self)@.currencies,
                    c,
                ),
    {
        let n = self.currencies.len();
        let mut i: usize = 0;
        while i < n
            invariant
                n == self.currencies.len(),
                0 <= i <= n,
                self.currencies@ == old(self)@.currencies,
                self.portfolios@ == old(self)@.portfolios,
                self.timestamps@ == old(self)@.timestamps,
                forall|j: int| 0 <= j < i ==> self.currencies@[j].currency_id != currency_id,
                old(self).wf(),
                issue_fits(old(self)@.currencies, currency_id, amount),
            decreases n - i,
        {
            if self.currencies[i].currency_id == currency_id {
                proof {
                    lemma_unique_currency_index(self.currencies@, currency_id, i as int);
                    lemma_add_currency_properties(old(self)@.currencies, currency_id, amount);
                }
                let issued = self.currencies[i].issued;
                self.currencies.set(i, CurrencyEntry { currency_id, issued: issued + amount });
                proof {
                    assert(self.currencies@ == spec_add_currency(
                        old(self)@.currencies,
                        currency_id,
                        amount,
                    ));
                }
                return ;
            }
            i += 1;
        }
        proof {
            assert(!has_currency(self.currencies@, currency_id));
            lemma_add_currency_properties(old(self)@.currencies, currency_id, amount);
        }
        self.currencies.push(CurrencyEntry { currency_id, issued: amount });
    }

    /// Append an audit timestamp entry. The index is append-only: entries are
    /// never mutated or removed.
    pub fn add_timestamp(&mut self, entry: TimestampEntry)
        ensures
            final(self)@.timestamps == old(self)@.timestamps.push(entry),
            final(self)@.portfolios == old(self)@.portfolios,
            final(self)@.currencies == old(self)@.currencies,
    {
        self.timestamps.push(entry);
    }
}

} // verus!
