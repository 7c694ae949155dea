//! Tokens and grants. Possession of a token authenticates a user; possession of a grant
//! authorizes one kind of operation, and each core operation demands the grant it needs.

use crate::hex::{hex_of, Hex};
use crate::sys::Timestamp;
use crate::user;
use sha2::Digest;
use vstd::prelude::*;

verus! {

/// The token does not exist, is disabled, or lacks the needed permission.
#[derive(Debug, Clone, Copy, PartialEq, Eq, Structural)]
pub struct AccessDenied;

/// Identifies a token.
#[derive(Debug, Default, Clone, Copy, PartialEq, Eq, Structural)]
pub struct TokenId(pub u128);

/// Proof that a token may spend the user's funds.
#[derive(Debug)]
pub struct SpendGrant {
    pub token_id: TokenId,
    pub user_id: user::Id,
}

/// Proof that a token may receive funds for the user.
#[derive(Debug)]
pub struct ReceiveGrant {
    pub token_id: TokenId,
    pub user_id: user::Id,
}

/// Proof that a token may read the user's data.
#[derive(Debug)]
pub struct ReadGrant {
    pub token_id: TokenId,
    pub user_id: user::Id,
}

/// What a token allows.
#[derive(Debug, Clone, Copy, PartialEq, Eq, Structural)]
pub struct Permissions {
    pub can_spend: bool,
    pub can_receive: bool,
    pub can_read: bool,
}

/// The SHA-256 digest of a text's UTF-8 bytes.
pub uninterp spec fn sha256_of(s: Seq<char>) -> Seq<u8>;

/// Relies on `sha2::Sha256`: the digest of the token's bytes, which is 32 bytes long.
#[verifier::external_body]
fn sha256(token: &str) -> (r: Vec<u8>)
    ensures
        r@ == sha256_of(token@),
        r@.len() == 32,
{
    let mut hasher = sha2::Sha256::new();
    hasher.update(token);
    hasher.finalize().to_vec()
}

/// The stored form of a token: the hex text of its SHA-256 digest. Tokens are random and long,
/// so a fast unsalted hash suffices.
pub struct TokenHash(Hex);

impl TokenHash {
    /// Hashes a token.
    pub fn generate(token: &str) -> (r: TokenHash)
        ensures
            r@ == hex_of(sha256_of(token@)),
    {
        let digest = sha256(token);
        TokenHash(Hex::encode(digest.as_slice()))
    }

    /// The hash as text.
    pub fn as_str(&self) -> (r: &str)
        ensures
            r@ == self@,
    {
        self.0.as_str()
    }
}

impl View for TokenHash {
    type V = Seq<char>;

    closed spec fn view(&self) -> Seq<char> {
        self.0@
    }
}

/// A token, as stored.
#[derive(Debug)]
pub struct Token {
    pub id: TokenId,
    pub user_id: user::Id,
    pub permissions: Permissions,
    pub disabled: Option<Timestamp>,
}

impl Token {
    /// A token is enabled until it is disabled.
    pub open spec fn enabled(&self) -> bool {
        self.disabled.is_none()
    }

    /// A spend grant, if the token is enabled and may spend.
    pub fn spend_grant(&self) -> (r: Result<SpendGrant, AccessDenied>)
        ensures
            r.is_ok() == (self.enabled() && self.permissions.can_spend),
            r matches Ok(g) ==> g.token_id == self.id && g.user_id == self.user_id,
    {
        if self.is_enabled() && self.permissions.can_spend {
            Ok(SpendGrant { token_id: self.id, user_id: self.user_id })
        } else {
            Err(AccessDenied)
        }
    }

    /// A receive grant, if the token is enabled and may receive.
    pub fn receive_grant(&self) -> (r: Result<ReceiveGrant, AccessDenied>)
        ensures
            r.is_ok() == (self.enabled() && self.permissions.can_receive),
            r matches Ok(g) ==> g.token_id == self.id && g.user_id == self.user_id,
    {
        if self.is_enabled() && self.permissions.can_receive {
            Ok(ReceiveGrant { token_id: self.id, user_id: self.user_id })
        } else {
            Err(AccessDenied)
        }
    }

    /// A read grant, if the token is enabled and may read.
    pub fn read_grant(&self) -> (r: Result<ReadGrant, AccessDenied>)
        ensures
            r.is_ok() == (self.enabled() && self.permissions.can_read),
            r matches Ok(g) ==> g.token_id == self.id && g.user_id == self.user_id,
    {
        if self.is_enabled() && self.permissions.can_read {
            Ok(ReadGrant { token_id: self.id, user_id: self.user_id })
        } else {
            Err(AccessDenied)
        }
    }

    fn is_enabled(&self) -> (r: bool)
        ensures
            r == self.enabled(),
    {
        self.disabled.is_none()
    }
}

} // verus!
