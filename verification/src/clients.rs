//! The Tuya client: credentials, the access token and its expiry, and the
//! stages each bulb operation runs.

use vstd::prelude::*;
use crate::bulb::request::{token_request, token_request_spec, Credentials, TuyaRequest};

verus! {

/// Connection to the Tuya Cloud API. `token_expires_at` is an instant in
/// milliseconds on the caller's monotonic clock.
pub struct TuyaClient {
    pub client_id: String,
    pub secret: String,
    pub base_url: String,
    pub sign_method: String,
    pub access_token: Option<String>,
    pub token_expires_at: u64,
}

/// How the access token stands at a given instant.
#[derive(Clone, Copy, Debug, PartialEq, Eq, Structural)]
pub enum TokenStatus {
    /// At least a minute of validity left.
    Valid,
    /// Past its expiry.
    Expired,
    /// Less than a minute of validity left.
    ExpiringSoon,
}

/// Milliseconds of validity below which the token is renewed.
pub const REFRESH_MARGIN_MS: u64 = 60000;

/// The status of a token that expires at `expires_at` when the time is
/// `now`.
pub open spec fn token_status_at(expires_at: u64, now: u64) -> TokenStatus {
    if now >= expires_at {
        TokenStatus::Expired
    } else if expires_at - now < REFRESH_MARGIN_MS {
        TokenStatus::ExpiringSoon
    } else {
        TokenStatus::Valid
    }
}

/// A token renewed at `now` with a lifetime of at least a minute needs no
/// renewal at that moment.
pub proof fn lemma_fresh_token_valid(now: u64, lifetime_secs: u64)
    requires
        lifetime_secs >= 60,
        now + lifetime_secs * 1000 <= u64::MAX,
    ensures
        token_status_at((now + lifetime_secs * 1000) as u64, now) == TokenStatus::Valid,
{
}

/// Once a token has expired it stays expired as time goes on.
pub proof fn lemma_expired_stays_expired(expires_at: u64, now: u64, later: u64)
    requires
        token_status_at(expires_at, now) == TokenStatus::Expired,
        now <= later,
    ensures
        token_status_at(expires_at, later) == TokenStatus::Expired,
{
}

impl TuyaClient {
    pub fn new(
        client_id: String,
        secret: String,
        base_url: String,
        sign_method: String,
        access_token: Option<String>,
        token_expires_at: u64,
    ) -> (c: TuyaClient)
        ensures
            c == (TuyaClient { client_id, secret, base_url, sign_method, access_token, token_expires_at }),
    {
        TuyaClient { client_id, secret, base_url, sign_method, access_token, token_expires_at }
    }

    /// The status of the access token at `now`; a token that is not
    /// `Valid` is renewed before the next operation.
    pub fn token_status(&self, now: u64) -> (s: TokenStatus)
        ensures
            s == token_status_at(self.token_expires_at, now),
    {
        if now >= self.token_expires_at {
            TokenStatus::Expired
        } else if self.token_expires_at - now < REFRESH_MARGIN_MS {
            TokenStatus::ExpiringSoon
        } else {
            TokenStatus::Valid
        }
    }

    /// The signed request for a new access token at timestamp `t`.
    pub fn token_request(&self, t: &str) -> (r: TuyaRequest)
        ensures
            r@ == token_request_spec(self.client_id@, self.secret@, self.base_url@, t@),
    {
        token_request(self.client_id.as_str(), self.secret.as_str(), self.base_url.as_str(), t)
    }

    /// Takes the outcome of a renewal made at `now`: a new token valid for
    /// the given number of seconds replaces the old one; after a failed
    /// renewal the client is unchanged.
    pub fn apply_token(&mut self, now: u64, grant: Option<(String, u64)>)
        requires
            grant matches Some(g) ==> now + g.1 * 1000 <= u64::MAX,
        ensures
            match grant {
                Some(g) => *final(self) == (TuyaClient {
                    access_token: Some(g.0),
                    token_expires_at: (now + g.1 * 1000) as u64,
                    ..*old(self)
                }),
                None => *final(self) == *old(self),
            },
    {
        match grant {
            Some(g) => {
                self.access_token = Some(g.0);
                self.token_expires_at = now + g.1 * 1000;
            },
            None => {},
        }
    }

    /// What requests are signed with: the client's id, secret, base URL
    /// and sign method, and its access token, empty when there is none.
    pub fn credentials(&self) -> (c: Credentials)
        ensures
            c.client_id == self.client_id,
            c.secret == self.secret,
            c.base_url == self.base_url,
            c.sign_method == self.sign_method,
            c.access_token@ == match self.access_token {
                Some(t) => t@,
                None => Seq::empty(),
            },
    {
        let access_token = match &self.access_token {
            Some(t) => t.clone(),
            None => String::new(),
        };
        Credentials {
            client_id: self.client_id.clone(),
            secret: self.secret.clone(),
            access_token,
            base_url: self.base_url.clone(),
            sign_method: self.sign_method.clone(),
        }
    }
}

/// An operation on the bulbs.
pub enum TuyaOp {
    /// Paint the bulbs in the colour a chat message names.
    Color(String),
    /// Switch the bulbs on or off.
    State(bool),
    /// Return the bulbs to the default look.
    Default,
    /// Paint the bulbs alternately blue and yellow.
    Bosnia,
}

/// One device batch of an operation.
pub enum Stage {
    /// Switch every bulb on or off.
    Switch(bool),
    /// Look up the named colour; if it is known, paint every bulb in it.
    PaintNamed(String),
    /// Return every bulb to the default look.
    Restore,
    /// Paint the bulbs alternately blue and yellow.
    Alternate,
}

/// The stages an operation runs, in order: a colour or the blue and
/// yellow pattern is painted after switching the bulbs on; the default
/// look is restored before switching them on.
pub open spec fn op_stages(op: TuyaOp) -> Seq<Stage> {
    match op {
        TuyaOp::Color(name) => seq![Stage::Switch(true), Stage::PaintNamed(name)],
        TuyaOp::State(on) => seq![Stage::Switch(on)],
        TuyaOp::Default => seq![Stage::Restore, Stage::Switch(true)],
        TuyaOp::Bosnia => seq![Stage::Switch(true), Stage::Alternate],
    }
}

/// The stages of an operation.
pub fn stages(op: TuyaOp) -> (s: Vec<Stage>)
    ensures
        s@ == op_stages(op),
{
    let mut s: Vec<Stage> = Vec::new();
    match op {
        TuyaOp::Color(name) => {
            s.push(Stage::Switch(true));
            s.push(Stage::PaintNamed(name));
        },
        TuyaOp::State(on) => {
            s.push(Stage::Switch(on));
        },
        TuyaOp::Default => {
            s.push(Stage::Restore);
            s.push(Stage::Switch(true));
        },
        TuyaOp::Bosnia => {
            s.push(Stage::Switch(true));
            s.push(Stage::Alternate);
        },
    }
    assert(s@ =~= op_stages(op));
    s
}

} // verus!
