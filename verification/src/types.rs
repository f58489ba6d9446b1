//! Transaction records and the identities they act on.
//!
//! A transaction arrives from the transport layer as a structured record
//! together with its content hash and the identity to which its signature is
//! attributable. Signature checking itself (a property of the raw wire bytes)
//! is the transport layer's concern; this crate decides whether the attributed
//! signer is the identity the transaction claims to act on behalf of.

use vstd::prelude::*;

verus! {

/// A public cryptographic key identifying a wallet/account owner.
#[derive(Clone, Copy, Debug)]
pub struct PublicKey {
    pub bytes: [u8; 32],
}

impl View for PublicKey {
    type V = Seq<u8>;

    open spec fn view(&self) -> Seq<u8> {
        self.bytes@
    }
}

impl PublicKey {
    pub fn new(bytes: [u8; 32]) -> (k: PublicKey)
        ensures
            k@ == bytes@,
    {
        PublicKey { bytes }
    }

    /// Whether two keys identify the same identity.
    pub fn equals(&self, other: &PublicKey) -> (r: bool)
        ensures
            r == (self@ == other@),
    {
        let mut i: usize = 0;
        while i < 32
            invariant
                0 <= i <= 32,
                forall|j: int| 0 <= j < i ==> self.bytes@[j] == other.bytes@[j],
            decreases 32 - i,
        {
            if self.bytes[i] != other.bytes[i] {
                proof {
                    assert(self@[i as int] != other@[i as int]);
                }
                return false;
            }
            i += 1;
        }
        proof {
            assert(self@ =~= other@);
        }
        true
    }
}

/// The content hash of a transaction, used as its unique identifier.
#[derive(Clone, Copy, Debug)]
pub struct TxHash {
    pub bytes: [u8; 32],
}

impl View for TxHash {
    type V = Seq<u8>;

    open spec fn view(&self) -> Seq<u8> {
        self.bytes@
    }
}

impl TxHash {
    pub fn new(bytes: [u8; 32]) -> (h: TxHash)
        ensures
            h@ == bytes@,
    {
        TxHash { bytes }
    }
}

/// Transfer an amount of a currency from one wallet to another.
#[derive(Clone, Copy, Debug)]
pub struct Transfer {
    /// The sender: the identity the signature must be attributable to.
    pub from: PublicKey,
    /// The receiver.
    pub to: PublicKey,
    /// The portfolio the transfer operates inside.
    pub portfolio_id: u64,
    /// Anti-replay seed.
    pub seed: u64,
}

/// Issue an amount of a currency into the global currency ledger.
#[derive(Clone, Copy, Debug)]
pub struct CurrencyIssue {
    /// The issuing identity: the signature must be attributable to it.
    pub pub_key: PublicKey,
    /// The currency being issued.
    pub currency_id: u64,
    /// The amount added to the cumulative issued total.
    pub amount: u64,
    /// Anti-replay seed.
    pub seed: u64,
}

/// Register a new portfolio for an identity.
#[derive(Clone, Debug)]
pub struct CreatePortfolio {
    /// The caller-supplied identifier of the new portfolio.
    pub portfolio_id: u64,
    /// The prospective owner: the signature must be attributable to it.
    pub pub_key: PublicKey,
    /// The initial (currency id, amount) pairs of the portfolio.
    pub currencies: Vec<(u64, u64)>,
}

/// The closed set of transaction kinds.
#[derive(Clone, Debug)]
pub enum TransactionPayload {
    Transfer(Transfer),
    CurrencyIssue(CurrencyIssue),
    CreatePortfolio(CreatePortfolio),
}

/// A signed transaction record, as delivered by the transport layer.
#[derive(Clone, Debug)]
pub struct SignedTransaction {
    /// The operation requested.
    pub payload: TransactionPayload,
    /// The identity to which the record's signature is attributable, as
    /// established by the transport layer's signature check.
    pub signer: PublicKey,
    /// The content hash of the record: the transaction's unique identifier.
    pub hash: TxHash,
}

impl SignedTransaction {
    /// The identity the transaction claims to act on behalf of: the one its
    /// signature must be attributable to for the transaction to be admitted.
    pub open spec fn spec_required_signer(self) -> PublicKey {
        match self.payload {
            TransactionPayload::Transfer(t) => t.from,
            TransactionPayload::CurrencyIssue(c) => c.pub_key,
            TransactionPayload::CreatePortfolio(p) => p.pub_key,
        }
    }

    /// Whether the transaction passes the pre-admission filter: its signature
    /// is attributable to the identity required by its kind.
    pub open spec fn spec_verified(self) -> bool {
        self.signer@ == self.spec_required_signer()@
    }

    /// The pre-admission filter: a pure predicate of the transaction's own
    /// fields, evaluated before any state is touched. A transaction that
    /// fails it is discarded as if it never arrived.
    pub fn verify(&self) -> (r: bool)
        ensures
            r == self.spec_verified(),
    {
        match &self.payload {
            TransactionPayload::Transfer(t) => self.signer.equals(&t.from),
            TransactionPayload::CurrencyIssue(c) => self.signer.equals(&c.pub_key),
            TransactionPayload::CreatePortfolio(p) => self.signer.equals(&p.pub_key),
        }
    }
}

} // verus!
