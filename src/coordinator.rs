//! The single-flight refresh protocol of the token cache.
//!
//! A caller that needs a token first asks [`RefreshCoordinator::cached`]
//! under a shared lock. When that gives nothing, it asks
//! [`RefreshCoordinator::arbitrate`] under the exclusive lock: the first such
//! caller becomes the refresher and is told to fetch, every later one is told
//! to wait until the refresher calls [`RefreshCoordinator::complete`], and
//! then reads [`RefreshCoordinator::current`]. The locks, the wake-up signal
//! and the fetch itself belong to the caller; every decision is made here.
use vstd::prelude::*;
use crate::error::Error;
use crate::token::{expiry_of, stale, AccessToken, FetchedToken};

verus! {

/// Whether a caller asked to bypass the cached token.
pub open spec fn forced(force_refresh: Option<bool>) -> bool {
    force_refresh == Some(true)
}

/// What the coordinator holds, as mathematical values.
pub struct CoordinatorView {
    pub value: Seq<char>,
    pub expired_at: int,
    pub refreshing: bool,
    pub margin: int,
}

/// The answer to a caller that found no usable cached token.
pub enum Admission {
    /// The token became fresh meanwhile: use it, nothing is fetched.
    Serve(String),
    /// The caller is now the only refresher: it must fetch, then report the
    /// outcome to `complete`.
    Fetch,
    /// Another caller is refreshing: wait for it to complete, then read
    /// `current`.
    Wait,
}

pub enum AdmissionView {
    Serve(Seq<char>),
    Fetch,
    Wait,
}

impl View for Admission {
    type V = AdmissionView;

    open spec fn view(&self) -> AdmissionView {
        match self {
            Admission::Serve(s) => AdmissionView::Serve(s@),
            Admission::Fetch => AdmissionView::Fetch,
            Admission::Wait => AdmissionView::Wait,
        }
    }
}

impl CoordinatorView {
    /// Whether a caller at `now` is answered from the cache without any
    /// arbitration.
    pub open spec fn serves(self, now: int, force_refresh: Option<bool>) -> bool {
        !forced(force_refresh) && !stale(self.expired_at, now, self.margin)
    }

    /// The cached token, where the fast path may hand it out.
    pub open spec fn cached(self, now: int, force_refresh: Option<bool>) -> Option<Seq<char>> {
        if self.serves(now, force_refresh) {
            Some(self.value)
        } else {
            None
        }
    }

    /// Arbitration followed by the refresher's double-check: the state after
    /// it and the answer given.
    pub open spec fn arbitrate(self, now: int, force_refresh: Option<bool>) -> (
        CoordinatorView,
        AdmissionView,
    ) {
        if self.refreshing {
            (self, AdmissionView::Wait)
        } else if self.serves(now, force_refresh) {
            (self, AdmissionView::Serve(self.value))
        } else {
            (CoordinatorView { refreshing: true, ..self }, AdmissionView::Fetch)
        }
    }

    /// The state once the refresher reports at `now` what the fetch gave:
    /// the new token and its lifetime in seconds, or nothing on failure.
    pub open spec fn completed(self, now: int, fetched: Option<(Seq<char>, int)>) -> CoordinatorView {
        match fetched {
            Some(f) => CoordinatorView {
                value: f.0,
                expired_at: expiry_of(now, f.1),
                refreshing: false,
                ..self
            },
            None => CoordinatorView { refreshing: false, ..self },
        }
    }
}

/// The outcome of a fetch, as the coordinator records it.
pub open spec fn fetched_view(outcome: &Result<FetchedToken, Error>) -> Option<(Seq<char>, int)> {
    match outcome {
        Ok(f) => Some((f.access_token@, f.expires_in as int)),
        Err(_) => None,
    }
}

/// The shared state of one token cache: the token with its expiry, whether a
/// refresh is in flight, and the safety margin.
pub struct RefreshCoordinator {
    token: AccessToken,
    refreshing: bool,
    margin: i64,
}

impl View for RefreshCoordinator {
    type V = CoordinatorView;

    closed spec fn view(&self) -> CoordinatorView {
        CoordinatorView {
            value: self.token.access_token@,
            expired_at: self.token.expired_at as int,
            refreshing: self.refreshing,
            margin: self.margin as int,
        }
    }
}

impl RefreshCoordinator {
    /// A cache created at `now` with the given safety margin (milliseconds).
    /// It holds an empty token that expires at `now`, so the first call
    /// refreshes.
    pub fn new(now: i64, margin: i64) -> (c: Self)
        requires
            margin >= 0,
        ensures
            c@ == (CoordinatorView {
                value: Seq::empty(),
                expired_at: now as int,
                refreshing: false,
                margin: margin as int,
            }),
    {
        RefreshCoordinator {
            token: AccessToken { access_token: String::new(), expired_at: now, force_refresh: None },
            refreshing: false,
            margin,
        }
    }

    /// The safety margin, in milliseconds.
    pub fn margin(&self) -> (r: i64)
        ensures
            r == self@.margin,
    {
        self.margin
    }

    /// Whether a refresh is in flight.
    pub fn is_refreshing(&self) -> (r: bool)
        ensures
            r == self@.refreshing,
    {
        self.refreshing
    }

    /// The cached token and its expiry.
    pub fn token(&self) -> (r: &AccessToken)
        ensures
            r.access_token@ == self@.value,
            r.expired_at == self@.expired_at,
    {
        &self.token
    }

    /// The fast path: the cached token, unless it is stale at `now` or the
    /// caller forces a refresh.
    pub fn cached(&self, now: i64, force_refresh: Option<bool>) -> (r: Option<String>)
        ensures
            r is Some <==> self@.serves(now as int, force_refresh),
            r matches Some(s) ==> s@ == self@.value,
    {
        let forced = match force_refresh {
            Some(f) => f,
            None => false,
        };
        if !forced && !crate::token::is_stale(&self.token, now, self.margin) {
            Some(self.token.access_token.clone())
        } else {
            None
        }
    }

    /// Arbitration for a caller at `now` that found no usable cached token:
    /// it takes refresh ownership if nobody holds it, and then checks again
    /// whether a fetch is needed.
    pub fn arbitrate(&mut self, now: i64, force_refresh: Option<bool>) -> (r: Admission)
        ensures
            (final(self)@, r@) == old(self)@.arbitrate(now as int, force_refresh),
    {
        if self.refreshing {
            return Admission::Wait;
        }
        match self.cached(now, force_refresh) {
            Some(s) => Admission::Serve(s),
            None => {
                self.refreshing = true;
                Admission::Fetch
            },
        }
    }

    /// The refresher reports what the fetch started at admission gave, at
    /// `now`: on success the token and its expiry are replaced together, on
    /// failure they are kept. Either way refresh ownership is released. The
    /// refresher's own result is the new token, or the fetch's error.
    pub fn complete(&mut self, now: i64, outcome: Result<FetchedToken, Error>) -> (r: Result<
        String,
        Error,
    >)
        requires
            outcome matches Ok(f) ==> i64::MIN <= expiry_of(now as int, f.expires_in as int)
                <= i64::MAX,
        ensures
            final(self)@ == old(self)@.completed(now as int, fetched_view(&outcome)),
            r is Ok <==> outcome is Ok,
            r matches Ok(s) ==> (outcome matches Ok(f) && s@ == f.access_token@),
            r matches Err(e) ==> outcome == Err::<FetchedToken, Error>(e),
    {
        self.refreshing = false;
        match outcome {
            Ok(fetched) => {
                let expired_at = ((now as i128) + 1000 * (fetched.expires_in as i128)) as i64;
                let value = fetched.access_token.clone();
                self.token = AccessToken {
                    access_token: fetched.access_token,
                    expired_at,
                    force_refresh: self.token.force_refresh,
                };
                Ok(value)
            },
            Err(e) => Err(e),
        }
    }

    /// What a caller that waited for a refresh reads once woken: the token
    /// now cached, whether or not the refresh succeeded.
    pub fn current(&self) -> (r: String)
        ensures
            r@ == self@.value,
    {
        self.token.access_token.clone()
    }
}

/// Arbitration for callers that arrive one after another, each given by its
/// time of arrival and its force flag: the state after all of them and the
/// answer that each one got.
pub open spec fn arbitrate_all(v: CoordinatorView, arrivals: Seq<(int, Option<bool>)>) -> (
    CoordinatorView,
    Seq<AdmissionView>,
)
    decreases arrivals.len(),
{
    if arrivals.len() == 0 {
        (v, Seq::empty())
    } else {
        let (next, answer) = v.arbitrate(arrivals[0].0, arrivals[0].1);
        let (last, answers) = arbitrate_all(next, arrivals.drop_first());
        (last, seq![answer] + answers)
    }
}

/// While a refresh is in flight, every arriving caller is told to wait and
/// the state does not change.
pub proof fn lemma_all_wait_during_refresh(v: CoordinatorView, arrivals: Seq<(int, Option<bool>)>)
    requires
        v.refreshing,
    ensures
        arbitrate_all(v, arrivals).0 == v,
        arbitrate_all(v, arrivals).1.len() == arrivals.len(),
        forall|i: int|
            0 <= i < arrivals.len() ==> #[trigger] arbitrate_all(v, arrivals).1[i]
                == AdmissionView::Wait,
    decreases arrivals.len(),
{
    if arrivals.len() > 0 {
        lemma_all_wait_during_refresh(v, arrivals.drop_first());
        let rest = arbitrate_all(v, arrivals.drop_first()).1;
        assert forall|i: int| 0 <= i < arrivals.len() implies #[trigger] arbitrate_all(
            v,
            arrivals,
        ).1[i] == AdmissionView::Wait by {
            if i > 0 {
                assert(arbitrate_all(v, arrivals).1[i] == rest[i - 1]);
            }
        }
    }
}

/// Single flight: when several callers that all miss the cached token arrive
/// while no refresh is in flight, the first is told to fetch and every other
/// one to wait. Once the fetch is reported, refresh ownership is free again
/// and all of them read one and the same token: the fetched one, or on
/// failure the one cached before.
pub proof fn lemma_single_flight(
    v: CoordinatorView,
    arrivals: Seq<(int, Option<bool>)>,
    now: int,
    fetched: Option<(Seq<char>, int)>,
)
    requires
        !v.refreshing,
        arrivals.len() > 1,
        forall|i: int| 0 <= i < arrivals.len() ==> !v.serves(#[trigger] arrivals[i].0, arrivals[i].1),
    ensures
        ({
            let (w, answers) = arbitrate_all(v, arrivals);
            &&& answers.len() == arrivals.len()
            &&& answers[0] == AdmissionView::Fetch
            &&& forall|i: int| 1 <= i < answers.len() ==> #[trigger] answers[i] == AdmissionView::Wait
            &&& w.refreshing
            &&& !w.completed(now, fetched).refreshing
            &&& w.completed(now, fetched).value == match fetched {
                Some(f) => f.0,
                None => v.value,
            }
        }),
{
    assert(!v.serves(arrivals[0].0, arrivals[0].1));
    let next = v.arbitrate(arrivals[0].0, arrivals[0].1).0;
    lemma_all_wait_during_refresh(next, arrivals.drop_first());
    let answers = arbitrate_all(v, arrivals).1;
    let rest = arbitrate_all(next, arrivals.drop_first()).1;
    assert forall|i: int| 1 <= i < answers.len() implies #[trigger] answers[i]
        == AdmissionView::Wait by {
        assert(answers[i] == rest[i - 1]);
    }
}

/// Fast path: a caller that does not force a refresh while the cached token
/// is fresh gets that token and causes no fetch, neither from the cache nor
/// from arbitration.
pub proof fn lemma_fresh_token_never_fetches(v: CoordinatorView, now: int, force_refresh: Option<bool>)
    requires
        !forced(force_refresh),
        !stale(v.expired_at, now, v.margin),
    ensures
        v.cached(now, force_refresh) == Some(v.value),
        v.arbitrate(now, force_refresh).1 != AdmissionView::Fetch,
        v.arbitrate(now, force_refresh).0 == v,
{
}

/// Freshness: after a refresh that succeeds at `t` with a lifetime of
/// `expires_in` seconds, every caller that does not force a refresh and comes
/// before the lifetime less the margin has run out gets the new token
/// without a fetch.
pub proof fn lemma_fresh_after_refresh(
    v: CoordinatorView,
    t: int,
    token: Seq<char>,
    expires_in: int,
    now: int,
    force_refresh: Option<bool>,
)
    requires
        t <= now < expiry_of(t, expires_in) - v.margin,
        !forced(force_refresh),
    ensures
        v.completed(t, Some((token, expires_in))).cached(now, force_refresh) == Some(token),
        v.completed(t, Some((token, expires_in))).arbitrate(now, force_refresh).1
            != AdmissionView::Fetch,
{
}

/// Atomic pairing: no step pairs a token with an expiry other than its own.
/// Arbitration keeps both; reporting a fetch either keeps both or sets both
/// from the fetched token.
pub proof fn lemma_atomic_pairing(
    v: CoordinatorView,
    now: int,
    force_refresh: Option<bool>,
    t: int,
    fetched: Option<(Seq<char>, int)>,
)
    ensures
        v.arbitrate(now, force_refresh).0.value == v.value,
        v.arbitrate(now, force_refresh).0.expired_at == v.expired_at,
        ({
            let w = v.completed(t, fetched);
            ||| (w.value == v.value && w.expired_at == v.expired_at)
            ||| (fetched matches Some(f) && w.value == f.0 && w.expired_at == expiry_of(t, f.1))
        }),
{
}

/// No poisoning: a failed refresh leaves the token as it was and frees
/// refresh ownership, so the next caller that misses the cached token is told
/// to fetch again.
pub proof fn lemma_failure_does_not_poison(
    v: CoordinatorView,
    t: int,
    later: int,
    force_refresh: Option<bool>,
)
    requires
        v.refreshing,
        !v.completed(t, None).serves(later, force_refresh),
    ensures
        !v.completed(t, None).refreshing,
        v.completed(t, None).value == v.value,
        v.completed(t, None).expired_at == v.expired_at,
        v.completed(t, None).arbitrate(later, force_refresh).1 == AdmissionView::Fetch,
{
}

/// A new cache refreshes on its first call: its placeholder token is stale
/// from the moment it is created.
pub proof fn lemma_new_cache_is_stale(created: int, margin: int, now: int)
    requires
        margin >= 0,
        created <= now,
    ensures
        stale(created, now, margin),
{
}

} // verus!
