//! OneDrive authentication: the device code flow for the first sign-in,
//! and tokens refreshed before they expire.
//!
//! The HTTP requests and the token file are the caller's part; here stand
//! the requests' contents and what is made of each answer.

use vstd::prelude::*;

use crate::cleanup_bot::clock::{utc_now, UtcNow, MAX_UTC_SECONDS, MIN_UTC_SECONDS};
use crate::cleanup_bot::cloud_storage::CloudStorageError;

verus! {

/// The Microsoft identity platform's endpoint for personal accounts.
pub open spec fn auth_url() -> Seq<char> {
    "https://login.microsoftonline.com/consumers/oauth2/v2.0"@
}

/// Permissions asked for.
pub open spec fn scopes() -> Seq<char> {
    "Files.ReadWrite offline_access"@
}

/// Tokens kept between runs.
pub struct StoredTokens {
    pub access_token: String,
    pub refresh_token: String,
    /// When the access token expires: seconds and nanoseconds since the
    /// Unix epoch.
    pub expires_at_secs: i64,
    pub expires_at_nanos: u32,
}

/// Tokens granted by the token endpoint; `expires_in` is in seconds.
pub struct TokenGrant {
    pub access_token: String,
    pub refresh_token: String,
    pub expires_in: i64,
}

/// An answer of the token endpoint.
pub enum TokenReply {
    Granted(TokenGrant),
    Refused { error: String, error_description: Option<String> },
}

/// The token store of one Azure application.
pub struct TokenStore {
    pub client_id: String,
    pub tokens: Option<StoredTokens>,
}

/// Where the access token stands.
pub enum TokenCheck {
    /// There are no tokens: authentication is needed first.
    Missing,
    /// The access token expires within five minutes: refresh it first.
    Expired,
    /// The access token can be used.
    Valid { access_token: String },
}

/// What a poll of the device code flow leads to.
pub enum PollOutcome {
    /// Tokens were granted and stored; save them.
    Authenticated,
    /// The user has not signed in yet; poll again after the interval.
    KeepWaiting,
    /// Polling too fast; wait five more seconds, then poll again.
    SlowDown,
    /// The flow failed.
    Failed(CloudStorageError),
}

/// Whether `(a_secs, a_nanos)` is not after `(b_secs, b_nanos)`.
pub open spec fn not_after(a_secs: int, a_nanos: int, b_secs: int, b_nanos: int) -> bool {
    a_secs < b_secs || (a_secs == b_secs && a_nanos <= b_nanos)
}

/// Whether the tokens must be refreshed at `now`: they expire within five
/// minutes.
pub open spec fn needs_refresh(t: StoredTokens, now_secs: int, now_nanos: int) -> bool {
    not_after(t.expires_at_secs - 300, t.expires_at_nanos as int, now_secs, now_nanos)
}

/// Tokens just stored from a grant that lasts more than five minutes are
/// valid when they are received, and need a refresh once less than five
/// minutes of their lifetime are left.
pub proof fn lemma_granted_tokens_valid_until_margin(grant: TokenGrant, now: UtcNow, later: UtcNow)
    requires
        expiry_fits(now, grant.expires_in),
        grant.expires_in > 300,
    ensures
        !needs_refresh(stored_from(grant, now), now.unix_seconds as int, now.nanos as int),
        later.unix_seconds >= now.unix_seconds + grant.expires_in - 300 && later.nanos
            >= now.nanos ==> needs_refresh(
            stored_from(grant, now),
            later.unix_seconds as int,
            later.nanos as int,
        ),
{
}

/// Tokens are judged against the time given: tokens whose expiry is at most
/// five minutes after it (in particular tokens that expired earlier) need a
/// refresh, and tokens expiring later than that do not.
pub proof fn lemma_refresh_needed_within_five_minutes(t: StoredTokens, now_secs: int, now_nanos: int)
    requires
        0 <= now_nanos < 1_000_000_000,
        t.expires_at_nanos < 1_000_000_000,
    ensures
        t.expires_at_secs + 1 <= now_secs + 300 ==> needs_refresh(t, now_secs, now_nanos),
        t.expires_at_secs >= now_secs + 301 ==> !needs_refresh(t, now_secs, now_nanos),
{
}

/// Whether adding `expires_in` seconds to `now` stays in the range of
/// `chrono`'s `DateTime<Utc>`, out of which the addition panics.
pub open spec fn expiry_fits(now: UtcNow, expires_in: i64) -> bool {
    MIN_UTC_SECONDS <= now.unix_seconds + expires_in <= MAX_UTC_SECONDS
}

/// The tokens stored from `grant` received at `now`.
pub open spec fn stored_from(grant: TokenGrant, now: UtcNow) -> StoredTokens {
    StoredTokens {
        access_token: grant.access_token,
        refresh_token: grant.refresh_token,
        expires_at_secs: (now.unix_seconds + grant.expires_in) as i64,
        expires_at_nanos: now.nanos,
    }
}

/// The message of a refusal: its description, else its error code.
pub open spec fn refusal_message(error: Seq<char>, error_description: Option<Seq<char>>) -> Seq<
    char,
> {
    match error_description {
        Some(d) => d,
        None => error,
    }
}

/// Whether `t` holds a description whose text is `d`.
pub open spec fn description_view(t: Option<String>) -> Option<Seq<char>> {
    match t {
        Some(d) => Some(d@),
        None => None,
    }
}

/// Whether `tokens` are those of `grant`, received at some time not
/// before the Unix epoch.
pub open spec fn holds_grant(tokens: Option<StoredTokens>, grant: TokenGrant) -> bool {
    exists|now: UtcNow| 0 <= now.unix_seconds && tokens == Some(stored_from(grant, now))
}

/// Tells whether [`TokenStore::store_grant`] may be called with `expires_in`
/// at `now`.
pub fn expiry_in_range(now: &UtcNow, expires_in: i64) -> (b: bool)
    ensures
        b == expiry_fits(*now, expires_in),
{
    let sum: i128 = now.unix_seconds as i128 + expires_in as i128;
    MIN_UTC_SECONDS as i128 <= sum && sum <= MAX_UTC_SECONDS as i128
}

/// The authentication error of a refusal of the token endpoint.
pub fn refusal_error(error: String, error_description: Option<String>) -> (e: CloudStorageError)
    ensures
        e matches CloudStorageError::Auth(m) && m@ == refusal_message(
            error@,
            description_view(error_description),
        ),
{
    match error_description {
        Some(d) => CloudStorageError::Auth(d),
        None => CloudStorageError::Auth(error),
    }
}

fn form_pair(key: &str, value: &str) -> (r: (String, String))
    ensures
        r.0@ == key@,
        r.1@ == value@,
{
    (String::from_str(key), String::from_str(value))
}

impl TokenStore {
    /// A store for `client_id` holding the tokens read from the token file,
    /// if they could be read.
    pub fn new(client_id: String, tokens: Option<StoredTokens>) -> (r: Self)
        ensures
            r.client_id == client_id,
            r.tokens == tokens,
    {
        TokenStore { client_id, tokens }
    }

    /// Whether there are tokens.
    pub fn has_tokens(&self) -> (b: bool)
        ensures
            b == self.tokens is Some,
    {
        self.tokens.is_some()
    }

    /// Where the access token stands at `now`, with a five-minute margin.
    pub fn check_token_at(&self, now: &UtcNow) -> (r: TokenCheck)
        ensures
            match self.tokens {
                None => r is Missing,
                Some(t) => if needs_refresh(t, now.unix_seconds as int, now.nanos as int) {
                    r is Expired
                } else {
                    r matches TokenCheck::Valid { access_token } && access_token == t.access_token
                },
            },
    {
        match &self.tokens {
            None => TokenCheck::Missing,
            Some(t) => {
                let limit: i128 = t.expires_at_secs as i128 - 300;
                let expired = limit < now.unix_seconds as i128 || (limit == now.unix_seconds as i128
                    && t.expires_at_nanos <= now.nanos);
                if expired {
                    TokenCheck::Expired
                } else {
                    TokenCheck::Valid { access_token: t.access_token.clone() }
                }
            },
        }
    }

    /// The refresh token to send, or the error when there are no tokens.
    pub fn refresh_token_to_send(&self) -> (r: Result<String, CloudStorageError>)
        ensures
            match self.tokens {
                Some(t) => r == Ok::<String, CloudStorageError>(t.refresh_token),
                None => r matches Err(CloudStorageError::Auth(m))
                    && m@ == "No refresh token available"@,
            },
    {
        match &self.tokens {
            Some(t) => Ok(t.refresh_token.clone()),
            None => Err(CloudStorageError::Auth(String::from_str("No refresh token available"))),
        }
    }

    /// Stores the tokens of `grant`, received at `now`: the access token
    /// expires `expires_in` seconds later.
    pub fn store_grant(&mut self, grant: TokenGrant, now: &UtcNow)
        requires
            expiry_fits(*now, grant.expires_in),
        ensures
            final(self).client_id == old(self).client_id,
            final(self).tokens == Some(stored_from(grant, *now)),
    {
        let expires_at_secs = now.unix_seconds + grant.expires_in;
        self.tokens = Some(
            StoredTokens {
                access_token: grant.access_token,
                refresh_token: grant.refresh_token,
                expires_at_secs,
                expires_at_nanos: now.nanos,
            },
        );
    }

    /// Handles the answer to a refresh request received at `now`: tokens are
    /// stored, a refusal becomes an authentication error.
    pub fn on_refresh_reply_at(&mut self, reply: TokenReply, now: &UtcNow) -> (r: Result<
        (),
        CloudStorageError,
    >)
        requires
            reply matches TokenReply::Granted(g) ==> expiry_fits(*now, g.expires_in),
        ensures
            final(self).client_id == old(self).client_id,
            match reply {
                TokenReply::Granted(g) => r is Ok && final(self).tokens == Some(
                    stored_from(g, *now),
                ),
                TokenReply::Refused { error, error_description } => {
                    &&& final(self).tokens == old(self).tokens
                    &&& r matches Err(CloudStorageError::Auth(m))
                    &&& m@ == refusal_message(error@, description_view(error_description))
                },
            },
    {
        match reply {
            TokenReply::Granted(g) => {
                self.store_grant(g, now);
                Ok(())
            },
            TokenReply::Refused { error, error_description } => Err(
                refusal_error(error, error_description),
            ),
        }
    }

    /// Handles an answer to a poll of the device code flow received at
    /// `now`: tokens end the flow; `authorization_pending` and `slow_down`
    /// keep it going; any other refusal fails it.
    pub fn on_device_poll_at(&mut self, reply: TokenReply, now: &UtcNow) -> (r: PollOutcome)
        requires
            reply matches TokenReply::Granted(g) ==> expiry_fits(*now, g.expires_in),
        ensures
            final(self).client_id == old(self).client_id,
            match reply {
                TokenReply::Granted(g) => r is Authenticated && final(self).tokens == Some(
                    stored_from(g, *now),
                ),
                TokenReply::Refused { error, error_description } => {
                    &&& final(self).tokens == old(self).tokens
                    &&& if error@ == "authorization_pending"@ {
                        r is KeepWaiting
                    } else if error@ == "slow_down"@ {
                        r is SlowDown
                    } else {
                        r matches PollOutcome::Failed(CloudStorageError::Auth(m)) && m@
                            == refusal_message(error@, description_view(error_description))
                    }
                },
            },
    {
        match reply {
            TokenReply::Granted(g) => {
                self.store_grant(g, now);
                PollOutcome::Authenticated
            },
            TokenReply::Refused { error, error_description } => {
                if crate::text::str_eq(error.as_str(), "authorization_pending") {
                    PollOutcome::KeepWaiting
                } else if crate::text::str_eq(error.as_str(), "slow_down") {
                    PollOutcome::SlowDown
                } else {
                    PollOutcome::Failed(refusal_error(error, error_description))
                }
            },
        }
    }

    /// Where the access token stands now, with a five-minute margin. Which
    /// of `Expired` and `Valid` comes depends on the clock.
    pub fn check_token(&self) -> (r: TokenCheck)
        ensures
            match self.tokens {
                None => r is Missing,
                Some(t) => r is Expired || (r matches TokenCheck::Valid { access_token }
                    && access_token == t.access_token),
            },
    {
        let now = utc_now();
        self.check_token_at(&now)
    }

    /// Handles the answer to a refresh request received now. `None` means
    /// that the granted lifetime would carry the expiry out of the range of
    /// `chrono`'s dates (where the addition panics); nothing is stored then.
    /// Otherwise as [`TokenStore::on_refresh_reply_at`] with the current time.
    pub fn on_refresh_reply(&mut self, reply: TokenReply) -> (r: Option<
        Result<(), CloudStorageError>,
    >)
        ensures
            final(self).client_id == old(self).client_id,
            r is None ==> reply is Granted && final(self).tokens == old(self).tokens,
            r is None ==> (reply matches TokenReply::Granted(g) && (g.expires_in > 0
                || g.expires_in < MIN_UTC_SECONDS)),
            match reply {
                TokenReply::Granted(g) => r is Some ==> r->0 is Ok
                    && holds_grant(final(self).tokens, g),
                TokenReply::Refused { error, error_description } => {
                    &&& final(self).tokens == old(self).tokens
                    &&& r matches Some(Err(CloudStorageError::Auth(m)))
                    &&& m@ == refusal_message(error@, description_view(error_description))
                },
            },
    {
        let now = utc_now();
        if let TokenReply::Granted(g) = &reply {
            if !expiry_in_range(&now, g.expires_in) {
                return None;
            }
        }
        let ghost given = reply;
        let r = self.on_refresh_reply_at(reply, &now);
        proof {
            if let TokenReply::Granted(g) = given {
                assert(self.tokens == Some(stored_from(g, now)));
            }
        }
        Some(r)
    }

    /// Handles an answer to a poll of the device code flow received now.
    /// `None` means that the granted lifetime would carry the expiry out of
    /// the range of `chrono`'s dates; nothing is stored then. Otherwise as
    /// [`TokenStore::on_device_poll_at`] with the current time.
    pub fn on_device_poll(&mut self, reply: TokenReply) -> (r: Option<PollOutcome>)
        ensures
            final(self).client_id == old(self).client_id,
            r is None ==> reply is Granted && final(self).tokens == old(self).tokens,
            r is None ==> (reply matches TokenReply::Granted(g) && (g.expires_in > 0
                || g.expires_in < MIN_UTC_SECONDS)),
            match reply {
                TokenReply::Granted(g) => r is Some ==> r->0 is Authenticated
                    && holds_grant(final(self).tokens, g),
                TokenReply::Refused { error, error_description } => {
                    &&& final(self).tokens == old(self).tokens
                    &&& r matches Some(o)
                    &&& if error@ == "authorization_pending"@ {
                        o is KeepWaiting
                    } else if error@ == "slow_down"@ {
                        o is SlowDown
                    } else {
                        o matches PollOutcome::Failed(CloudStorageError::Auth(m)) && m@
                            == refusal_message(error@, description_view(error_description))
                    }
                },
            },
    {
        let now = utc_now();
        if let TokenReply::Granted(g) = &reply {
            if !expiry_in_range(&now, g.expires_in) {
                return None;
            }
        }
        let ghost given = reply;
        let r = self.on_device_poll_at(reply, &now);
        proof {
            if let TokenReply::Granted(g) = given {
                assert(self.tokens == Some(stored_from(g, now)));
            }
        }
        Some(r)
    }

    /// The form of the request for a device code.
    pub fn device_code_form(&self) -> (r: Vec<(String, String)>)
        ensures
            r@.len() == 2,
            r@[0].0@ == "client_id"@ && r@[0].1@ == self.client_id@,
            r@[1].0@ == "scope"@ && r@[1].1@ == scopes(),
    {
        let mut r = Vec::new();
        r.push(form_pair("client_id", self.client_id.as_str()));
        r.push(form_pair("scope", "Files.ReadWrite offline_access"));
        r
    }

    /// The form of a poll for the tokens of `device_code`.
    pub fn device_token_form(&self, device_code: &str) -> (r: Vec<(String, String)>)
        ensures
            r@.len() == 3,
            r@[0].0@ == "client_id"@ && r@[0].1@ == self.client_id@,
            r@[1].0@ == "grant_type"@ && r@[1].1@
                == "urn:ietf:params:oauth:grant-type:device_code"@,
            r@[2].0@ == "device_code"@ && r@[2].1@ == device_code@,
    {
        let mut r = Vec::new();
        r.push(form_pair("client_id", self.client_id.as_str()));
        r.push(form_pair("grant_type", "urn:ietf:params:oauth:grant-type:device_code"));
        r.push(form_pair("device_code", device_code));
        r
    }

    /// The form of a refresh with `refresh_token`.
    pub fn refresh_form(&self, refresh_token: &str) -> (r: Vec<(String, String)>)
        ensures
            r@.len() == 3,
            r@[0].0@ == "client_id"@ && r@[0].1@ == self.client_id@,
            r@[1].0@ == "grant_type"@ && r@[1].1@ == "refresh_token"@,
            r@[2].0@ == "refresh_token"@ && r@[2].1@ == refresh_token@,
    {
        let mut r = Vec::new();
        r.push(form_pair("client_id", self.client_id.as_str()));
        r.push(form_pair("grant_type", "refresh_token"));
        r.push(form_pair("refresh_token", refresh_token));
        r
    }
}

/// The error when a token is needed and none was ever obtained.
pub fn no_tokens_error() -> (e: CloudStorageError)
    ensures
        e matches CloudStorageError::Auth(m) && m@ == "No tokens available"@,
{
    CloudStorageError::Auth(String::from_str("No tokens available"))
}

/// The error when the user did not sign in before the device code expired.
pub fn device_code_expired_error() -> (e: CloudStorageError)
    ensures
        e matches CloudStorageError::Auth(m) && m@ == "Device code expired"@,
{
    CloudStorageError::Auth(String::from_str("Device code expired"))
}

/// The address of the device code endpoint.
pub fn device_code_url() -> (s: String)
    ensures
        s@ == auth_url() + "/devicecode"@,
{
    let mut s = String::from_str("https://login.microsoftonline.com/consumers/oauth2/v2.0");
    s.append("/devicecode");
    s
}

/// The address of the token endpoint.
pub fn token_url() -> (s: String)
    ensures
        s@ == auth_url() + "/token"@,
{
    let mut s = String::from_str("https://login.microsoftonline.com/consumers/oauth2/v2.0");
    s.append("/token");
    s
}

/// Whether the device code has expired: more than `expires_in` seconds have
/// passed (`elapsed_secs` seconds and `elapsed_nanos` nanoseconds) since it
/// was issued.
pub fn device_code_expired(elapsed_secs: u64, elapsed_nanos: u32, expires_in: u64) -> (b: bool)
    ensures
        b == (elapsed_secs > expires_in || (elapsed_secs == expires_in && elapsed_nanos > 0)),
{
    elapsed_secs > expires_in || (elapsed_secs == expires_in && elapsed_nanos > 0)
}

} // verus!
