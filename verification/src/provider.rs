//! What the OpenID provider answers, as the plain values that the flows
//! decide on.

use vstd::prelude::*;
use crate::config_file::TokenView;

verus! {

/// The issuer whose discovery document names the endpoints.
pub const ISSUER_URL: &'static str = "https://accounts.google.com";

/// The provider's answer to a code exchange or to a refresh.
#[derive(Debug)]
pub struct TokenResponse {
    pub access_token: String,
    /// Lifetime of the access token in seconds, where the provider names one.
    pub expires_in: Option<u64>,
    pub refresh_token: Option<String>,
    /// The ID token as the provider sent it, not yet verified.
    pub id_token: Option<String>,
    /// The scopes that were granted, where the provider lists them.
    pub scopes: Option<Vec<String>>,
}

/// Mathematical model of a [`TokenResponse`].
pub struct TokenResponseView {
    pub access_token: Seq<char>,
    pub expires_in: Option<u64>,
    pub refresh_token: Option<Seq<char>>,
    pub id_token: Option<Seq<char>>,
    pub scopes: Option<Seq<Seq<char>>>,
}

impl View for TokenResponse {
    type V = TokenResponseView;

    open spec fn view(&self) -> TokenResponseView {
        TokenResponseView {
            access_token: self.access_token@,
            expires_in: self.expires_in,
            refresh_token: self.refresh_token.deep_view(),
            id_token: self.id_token.deep_view(),
            scopes: self.scopes.deep_view(),
        }
    }
}

impl DeepView for TokenResponse {
    type V = TokenResponseView;

    open spec fn deep_view(&self) -> TokenResponseView {
        self@
    }
}

/// The absolute expiry of an access token received at `now`: `now` plus
/// its lifetime, or `0` ("already expired") where the provider named none.
/// An expiry past the last second that 64 bits hold is held as that last
/// second: such a token is expired at no time that can be told.
pub open spec fn expiry_at(now: u64, expires_in: Option<u64>) -> u64 {
    match expires_in {
        Some(lifetime) => if now + lifetime <= u64::MAX {
            (now + lifetime) as u64
        } else {
            u64::MAX
        },
        None => 0,
    }
}

/// The expiry of a token with a lifetime is `now` plus the lifetime
/// wherever 64 bits hold that sum, and never lies before `now`. Whatever
/// the lifetime, the token is not expired at the moment it is received.
pub proof fn lemma_expiry_at(now: u64, lifetime: u64)
    ensures
        now + lifetime <= u64::MAX ==> expiry_at(now, Some(lifetime)) == now + lifetime,
        now + lifetime > u64::MAX ==> expiry_at(now, Some(lifetime)) == u64::MAX,
        expiry_at(now, Some(lifetime)) >= now,
        expiry_at(now, None) == 0,
{
}

/// The expiration claim of an ID token as an expiry: a timestamp before
/// the epoch is taken modulo 2^64.
pub open spec fn expiration_of_claim(timestamp: i64) -> int {
    if timestamp >= 0 {
        timestamp as int
    } else {
        timestamp + 0x1_0000_0000_0000_0000
    }
}

/// The access token of a response received at `now`.
pub open spec fn received_access_token(now: u64, response: TokenResponseView) -> TokenView {
    TokenView {
        secret: response.access_token,
        exp: expiry_at(now, response.expires_in),
    }
}

/// An ID token with the expiry that its verified claims give.
pub open spec fn verified_id_token(id_token: Seq<char>, expiration: i64) -> TokenView {
    TokenView { secret: id_token, exp: expiration_of_claim(expiration) as u64 }
}

/// Computes the absolute expiry of an access token received at `now`.
pub fn access_token_expiry(now: u64, expires_in: Option<u64>) -> (exp: u64)
    ensures
        exp == expiry_at(now, expires_in),
{
    match expires_in {
        Some(lifetime) => if lifetime <= u64::MAX - now {
            now + lifetime
        } else {
            u64::MAX
        },
        None => 0,
    }
}

/// Computes the expiry that an expiration claim gives.
pub fn claim_expiry(timestamp: i64) -> (exp: u64)
    ensures
        exp == expiration_of_claim(timestamp),
{
    if timestamp >= 0 {
        timestamp as u64
    } else {
        let below: i64 = -(timestamp + 1);
        u64::MAX - (below as u64)
    }
}

} // verus!
