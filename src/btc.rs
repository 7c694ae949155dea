//! Monetary units and on-chain outputs.

use vstd::prelude::*;

verus! {

/// Millisatoshis per satoshi.
pub const MSATS_PER_SAT: i64 = 1000;

/// An amount in millisatoshis.
#[derive(Debug, Clone, Copy, Default, PartialEq, Eq, Structural, PartialOrd, Ord)]
pub struct MilliSats(pub i64);

/// An amount in satoshis.
#[derive(Debug, Clone, Copy, Default, PartialEq, Eq, Structural, PartialOrd, Ord)]
pub struct Sats(pub i64);

/// Whether an integer fits in a signed 64-bit word.
pub open spec fn fits_i64(x: int) -> bool {
    i64::MIN <= x <= i64::MAX
}

impl MilliSats {
    /// Whole satoshis in this amount, rounded towards zero.
    pub fn sats_floor(&self) -> (r: Sats)
        ensures
            r.0 as int == (if self.0 >= 0 { self.0 as int / 1000 } else { -((-(self.0 as int)) / 1000) }),
    {
        Sats(self.0 / MSATS_PER_SAT)
    }

    /// The sum of two amounts.
    pub fn plus(self, rhs: MilliSats) -> (r: MilliSats)
        requires
            fits_i64(self.0 + rhs.0),
        ensures
            r.0 == self.0 + rhs.0,
    {
        MilliSats(self.0 + rhs.0)
    }

    /// The difference of two amounts.
    pub fn minus(self, rhs: MilliSats) -> (r: MilliSats)
        requires
            fits_i64(self.0 - rhs.0),
        ensures
            r.0 == self.0 - rhs.0,
    {
        MilliSats(self.0 - rhs.0)
    }
}

impl Sats {
    /// The same amount in millisatoshis.
    pub fn msats(self) -> (r: MilliSats)
        requires
            fits_i64(self.0 * 1000),
        ensures
            r.0 == self.0 * 1000,
    {
        MilliSats(self.0 * MSATS_PER_SAT)
    }
}

/// Whether the bitcoin library accepts the text as an address.
pub uninterp spec fn is_bitcoin_address(s: Seq<char>) -> bool;

/// Relies on `bitcoin::Address::from_str`: whether the text parses as an address.
#[verifier::external_body]
fn bitcoin_address_parses(s: &str) -> (r: bool)
    ensures
        r == is_bitcoin_address(s@),
{
    <bitcoin::Address as std::str::FromStr>::from_str(s).is_ok()
}

/// An on-chain address, held in its textual form.
#[derive(Debug, Clone)]
pub struct Address(pub String);

impl Address {
    /// Parses an on-chain address; `None` when the text is no address.
    pub fn parse(s: &str) -> (r: Option<Address>)
        ensures
            r.is_some() == is_bitcoin_address(s@),
            r matches Some(a) ==> a.0@ == s@,
    {
        if bitcoin_address_parses(s) {
            Some(Address(s.to_owned()))
        } else {
            None
        }
    }

    /// The address as text.
    pub fn as_str(&self) -> (r: &str)
        ensures
            r@ == self.0@,
    {
        self.0.as_str()
    }
}

/// A transaction id, held in its hex form.
#[derive(Debug, Clone)]
pub struct TxId(pub String);

/// A transaction as seen from the ledger: its id and, once mined, its block height.
#[derive(Debug, Clone)]
pub struct Tx {
    pub id: TxId,
    pub block_height: Option<u32>,
}

impl Tx {
    /// A transaction is confirmed once it is in a block.
    pub fn is_confirmed(&self) -> (r: bool)
        ensures
            r == self.block_height.is_some(),
    {
        self.block_height.is_some()
    }
}

/// One output of an on-chain transaction; `(tx.id, v_out)` identifies it.
#[derive(Debug, Clone)]
pub struct TxOut {
    pub tx: Tx,
    pub address: Address,
    pub v_out: i64,
    pub amount: Sats,
}

impl TxOut {
    /// A copy of the output.
    pub fn copy(&self) -> (r: TxOut)
        ensures
            r == *self,
    {
        TxOut {
            tx: Tx { id: TxId(self.tx.id.0.clone()), block_height: self.tx.block_height },
            address: Address(self.address.0.clone()),
            v_out: self.v_out,
            amount: self.amount,
        }
    }
}

impl TxId {
    /// Whether two transaction ids are equal.
    pub fn same(&self, other: &TxId) -> (r: bool)
        ensures
            r == (self.0@ == other.0@),
    {
        self.0 == other.0
    }
}

} // verus!
