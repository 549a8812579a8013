//! Caching of the bearer tokens the info-fetcher backends authenticate with.
use crate::duration::Duration;
use crate::info_fetcher::secret::Secret;
use vstd::prelude::*;

verus! {

/// How long before its stated expiry a token stops being handed out, in seconds.
///
/// A token is minted, then travels to the backend and is validated there, so handing out one that is
/// about to expire risks it being rejected mid-request. Refreshing slightly early avoids that without
/// needing to know anything about the backend's clock.
pub const EXPIRY_MARGIN: u64 = 30;

/// A freshly minted bearer token.
#[derive(Clone, Debug, PartialEq, Eq)]
pub struct MintedToken {
    pub token: Secret,
    /// How long the token remains valid, as reported by whoever issued it (for OAuth: `expires_in`).
    ///
    /// `None` when the issuer does not say. The token is then used but not cached, because we have
    /// no basis for deciding when it goes stale.
    pub lifetime: Option<Duration>,
}

/// The parts of an OAuth2 token endpoint's answer to a `client_credentials` grant that we use.
///
/// Both the Keycloak and the Entra backend authenticate this way, so they read the same response.
#[derive(Debug)]
pub struct OAuthResponse {
    pub access_token: Secret,
    /// How many seconds the token stays valid, which lets us cache it rather than mint one per
    /// lookup. Treated as optional so a response without it degrades to minting per lookup.
    pub expires_in: Option<u64>,
}

impl From<OAuthResponse> for MintedToken {
    fn from(response: OAuthResponse) -> (minted: Self) {
        let lifetime = match response.expires_in {
            Some(seconds) => Some(Duration::from_secs(seconds)),
            None => None,
        };
        MintedToken { token: response.access_token, lifetime }
    }
}

impl vstd::std_specs::convert::FromSpecImpl<OAuthResponse> for MintedToken {
    open spec fn obeys_from_spec() -> bool {
        true
    }

    open spec fn from_spec(response: OAuthResponse) -> Self {
        MintedToken {
            token: response.access_token,
            lifetime: match response.expires_in {
                Some(seconds) => Some(Duration::spec_from_secs(seconds)),
                None => None,
            },
        }
    }
}

#[derive(Debug)]
struct Entry {
    token: Secret,
    /// The stated expiry, already brought forward by [`EXPIRY_MARGIN`], in nanoseconds.
    usable_until: u128,
}

/// A bearer token that is minted on demand and kept until shortly before it expires.
///
/// Minting a token for every single request would double the round trips per lookup and throw the
/// issuer's `expires_in` away. This caches the token for the lifetime the issuer reported, and lets
/// the caller drop it early via [`CachedToken::invalidate`] when the backend rejects it. A token can
/// stop working before its stated expiry, for example by being revoked.
///
/// Points in time are given by what has passed since some fixed one, on a clock that never runs
/// backwards.
#[derive(Debug)]
pub struct CachedToken {
    cached: Option<Entry>,
}

/// A cached token and the point in time up to which it is handed out, in nanoseconds.
#[verifier::ext_equal]
pub struct EntryView {
    pub token: Seq<char>,
    pub usable_until: int,
}

impl View for CachedToken {
    type V = Option<EntryView>;

    closed spec fn view(&self) -> Option<EntryView> {
        match self.cached {
            Some(entry) => Some(
                EntryView { token: entry.token@, usable_until: entry.usable_until as int },
            ),
            None => None,
        }
    }
}

/// The token that is handed out at a point in time, if there is one and it is not about to expire.
pub open spec fn usable(cached: Option<EntryView>, now: Duration) -> Option<Seq<char>> {
    match cached {
        Some(entry) => if entry.usable_until > now.spec_as_nanos() {
            Some(entry.token)
        } else {
            None
        },
        None => None,
    }
}

/// The length of the [`EXPIRY_MARGIN`] in nanoseconds.
pub open spec fn margin_nanos() -> nat {
    Duration::spec_from_secs(EXPIRY_MARGIN).spec_as_nanos()
}

/// What is cached of a token that was minted at a point in time.
pub open spec fn entry_for(minted: MintedToken, now: Duration) -> Option<EntryView> {
    match minted.lifetime {
        Some(lifetime) => if lifetime.spec_as_nanos() >= margin_nanos() {
            Some(
                EntryView {
                    token: minted.token@,
                    usable_until: now.spec_as_nanos() + (lifetime.spec_as_nanos()
                        - margin_nanos()),
                },
            )
        } else {
            None
        },
        None => None,
    }
}

impl CachedToken {
    /// A cache without a token.
    pub fn new() -> (cached: Self)
        ensures
            cached@ is None,
    {
        CachedToken { cached: None }
    }

    /// The cached token, if there is one and it is not within [`EXPIRY_MARGIN`] of expiring.
    pub fn usable_token(&self, now: Duration) -> (token: Option<Secret>)
        ensures
            match usable(self@, now) {
                Some(expected) => token matches Some(secret) && secret@ == expected,
                None => token is None,
            },
    {
        match &self.cached {
            Some(entry) => {
                if entry.usable_until > now.as_nanos() {
                    Some(entry.token.clone())
                } else {
                    None
                }
            },
            None => None,
        }
    }

    /// Returns a usable token, given what came of minting one at this point in time. A token has to be
    /// minted only where [`CachedToken::usable_token`] has none.
    ///
    /// Only a token that is known to be usable for a worthwhile amount of time is cached. A failed
    /// mint is not.
    pub fn get<E>(&mut self, minted: Result<MintedToken, E>, now: Duration) -> (result: Result<Secret, E>)
        ensures
            match (usable(old(self)@, now), minted) {
                (Some(expected), _) => result matches Ok(token) && token@ == expected
                    && final(self)@ == old(self)@,
                (None, Ok(minted)) => result matches Ok(token) && token@ == minted.token@
                    && final(self)@ == entry_for(minted, now),
                (None, Err(error)) => result == Err::<Secret, _>(error) && final(self)@
                    == old(self)@,
            },
    {
        if let Some(token) = self.usable_token(now) {
            return Ok(token);
        }
        let minted = match minted {
            Ok(minted) => minted,
            Err(error) => return Err(error),
        };
        self.cached = match minted.lifetime {
            Some(lifetime) => {
                let margin: u128 = Duration::from_secs(EXPIRY_MARGIN).as_nanos();
                if lifetime.as_nanos() >= margin {
                    let usable_for: u128 = lifetime.as_nanos() - margin;
                    Some(
                        Entry {
                            token: minted.token.clone(),
                            usable_until: now.as_nanos() + usable_for,
                        },
                    )
                } else {
                    None
                }
            },
            None => None,
        };
        Ok(minted.token)
    }

    /// Decides how to go on after a token was used. `unauthorized` says whether the backend rejected
    /// it with `401 Unauthorized`, and `retried` whether this was already the second attempt.
    ///
    /// A token that was accepted when it was minted can stop being valid ahead of its stated expiry:
    /// it was revoked, or the issuer's and our clock disagree. Being rejected is the only way we find
    /// that out, so the rejection is what drives the re-mint. The rejected token is dropped then.
    pub fn get_with_retry<T, E>(
        &mut self,
        outcome: Result<T, E>,
        unauthorized: bool,
        retried: bool,
    ) -> (next: AfterUse<T, E>)
        ensures
            if outcome is Err && unauthorized && !retried {
                next is Retry && final(self)@ is None
            } else {
                next == AfterUse::Finished(outcome) && final(self)@ == old(self)@
            },
    {
        match outcome {
            Ok(value) => AfterUse::Finished(Ok(value)),
            Err(error) => {
                if unauthorized && !retried {
                    self.invalidate();
                    AfterUse::Retry
                } else {
                    AfterUse::Finished(Err(error))
                }
            },
        }
    }

    /// Drops the cached token, so the next [`CachedToken::get`] mints a fresh one.
    ///
    /// Call this when the backend rejects the token, which is the only way to find out that it
    /// stopped being valid ahead of its stated expiry.
    pub fn invalidate(&mut self)
        ensures
            final(self)@ is None,
    {
        self.cached = None;
    }
}

impl Default for CachedToken {
    fn default() -> (cached: Self)
        ensures
            cached@ is None,
    {
        CachedToken::new()
    }
}

/// How to go on after a token was used.
pub enum AfterUse<T, E> {
    /// The outcome stands.
    Finished(Result<T, E>),
    /// Get a token anew and try once more.
    Retry,
}

/// A token is handed out from the cache until [`EXPIRY_MARGIN`] before its stated expiry, and
/// not any longer.
pub proof fn lemma_token_is_kept_until_margin(minted: MintedToken, minted_at: Duration, now: Duration)
    requires
        minted_at.spec_as_nanos() <= now.spec_as_nanos(),
    ensures
        usable(entry_for(minted, minted_at), now) matches Some(token) ==> token == minted.token@,
        usable(entry_for(minted, minted_at), now) is Some <==> (
        minted.lifetime matches Some(lifetime) && now.spec_as_nanos()
            + margin_nanos() < minted_at.spec_as_nanos()
            + lifetime.spec_as_nanos()),
{
}

/// A token without a stated lifetime, or with one that lies within the margin, is never handed out
/// from the cache, whatever the clock says from then on.
pub proof fn lemma_short_lived_token_is_not_kept(minted: MintedToken, minted_at: Duration, now: Duration)
    requires
        minted_at.spec_as_nanos() <= now.spec_as_nanos(),
        minted.lifetime matches Some(lifetime) ==> lifetime.spec_as_nanos()
            <= margin_nanos(),
    ensures
        usable(entry_for(minted, minted_at), now) is None,
{
}

/// A cached token is handed out until half a minute before it expires, and not from then on. A token of
/// unknown lifetime is not cached.
pub proof fn lemma_token_is_usable_until_shortly_before_expiry(
    minted: MintedToken,
    minted_at: Duration,
    now: Duration,
)
    requires
        minted_at.spec_as_nanos() <= now.spec_as_nanos(),
    ensures
        ({
            let found = usable(entry_for(minted, minted_at), now);
            let margin: int = 30_000_000_000;
            let elapsed = (now.secs * 1_000_000_000 + now.nanos) - (minted_at.secs * 1_000_000_000
                + minted_at.nanos);
            &&& minted.lifetime is None ==> found is None
            &&& minted.lifetime is Some ==> (found is Some <==> elapsed + margin
                < minted.lifetime->0.secs * 1_000_000_000 + minted.lifetime->0.nanos)
            &&& found is Some ==> found->0 == minted.token@
        }),
{
}

} // verus!
