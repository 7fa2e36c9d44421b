use vstd::prelude::*;

verus! {

/// A token is only served while it stays valid for at least this many more seconds.
pub const TOKEN_REFRESH_SKEW_SECONDS: u64 = 60;

/// An access token and the Unix time (in seconds) at which it expires.
#[derive(Debug, Clone)]
pub struct CachedToken {
    pub value: String,
    pub expires_at: u64,
}

/// The last access token obtained, if any.
#[derive(Debug)]
pub struct TokenCache {
    pub entry: Option<CachedToken>,
}

/// The token the cache serves at time `now`: the stored one, while it expires
/// more than `TOKEN_REFRESH_SKEW_SECONDS` after `now`.
pub open spec fn served_token(entry: Option<CachedToken>, now: nat) -> Option<String> {
    match entry {
        Some(t) => if t.expires_at > now + TOKEN_REFRESH_SKEW_SECONDS {
            Some(t.value)
        } else {
            None
        },
        None => None,
    }
}

impl TokenCache {
    pub fn new() -> (c: TokenCache)
        ensures
            c.entry is None,
    {
        TokenCache { entry: None }
    }

    /// The cached token, if it is still good at time `now`.
    pub fn cached_token(&self, now: u64) -> (r: Option<String>)
        requires
            now + TOKEN_REFRESH_SKEW_SECONDS <= u64::MAX,
        ensures
            r == served_token(self.entry, now as nat),
    {
        match &self.entry {
            Some(token) => {
                let valid_until = now + TOKEN_REFRESH_SKEW_SECONDS;
                if token.expires_at > valid_until {
                    Some(token.value.clone())
                } else {
                    None
                }
            },
            None => None,
        }
    }

    /// Stores a token fetched at time `now` that lives for `expires_in` seconds.
    pub fn store(&mut self, value: String, now: u64, expires_in: u64)
        requires
            now + expires_in <= u64::MAX,
        ensures
            final(self).entry == Some(CachedToken { value, expires_at: (now + expires_in) as u64 }),
    {
        self.entry = Some(CachedToken { value, expires_at: now + expires_in });
    }
}

/// A token stored at time `now` with a lifetime of `expires_in` seconds is served
/// at every time `t` from `now` until `TOKEN_REFRESH_SKEW_SECONDS` before it
/// expires, and never after that.
pub proof fn lemma_stored_token_is_served_until_refresh(
    value: String,
    now: nat,
    expires_in: nat,
    t: nat,
)
    requires
        now + expires_in <= u64::MAX,
    ensures
        served_token(Some(CachedToken { value, expires_at: (now + expires_in) as u64 }), t) == if t
            + TOKEN_REFRESH_SKEW_SECONDS < now + expires_in {
            Some(value)
        } else {
            None::<String>
        },
{
}

} // verus!
