//! Points in time (UTC), as seconds and nanoseconds since the Unix epoch.
use vstd::prelude::*;

verus! {

/// The number of nanoseconds in a second.
pub const NANOS_PER_SECOND: u32 = 1_000_000_000;

/// A point in time: whole seconds since the Unix epoch and the nanoseconds
/// past that second.
#[derive(Clone, Copy, PartialEq, Eq, Structural, Debug)]
pub struct Timestamp {
    pub secs: i64,
    pub nanos: u32,
}

impl Timestamp {
    /// The nanoseconds lie within the second.
    pub open spec fn wf(&self) -> bool {
        self.nanos < NANOS_PER_SECOND
    }

    /// The time in nanoseconds since the epoch.
    pub open spec fn total_nanos(&self) -> int {
        self.secs * 1_000_000_000 + self.nanos
    }

    /// The point `secs` seconds and `nanos` nanoseconds after the epoch; a
    /// nanosecond count of a second or more (a leap second) carries into the
    /// seconds.
    pub fn new(secs: i64, nanos: u32) -> (t: Timestamp)
        requires
            nanos >= NANOS_PER_SECOND ==> secs < i64::MAX,
        ensures
            t.wf(),
            nanos < NANOS_PER_SECOND ==> t.secs == secs && t.nanos == nanos,
            nanos >= NANOS_PER_SECOND ==> t.secs == secs + 1 && t.nanos == nanos % NANOS_PER_SECOND,
    {
        if nanos < NANOS_PER_SECOND {
            Timestamp { secs, nanos }
        } else {
            Timestamp { secs: secs + 1, nanos: nanos % NANOS_PER_SECOND }
        }
    }

    /// The current time.
    pub fn now() -> (t: Timestamp)
        ensures
            t.wf(),
    {
        let (secs, nanos) = utc_now();
        Timestamp { secs, nanos }
    }
}

/// Calls `chrono::Utc::now` and converts the result to seconds
/// (`timestamp`) and nanoseconds (`timestamp_subsec_nanos`) since the epoch.
/// Claimed: the nanoseconds are below one second (`Utc::now` builds the time
/// from the system clock's `Duration`, whose sub-second part is below one
/// second). Nothing else is said: the value is the clock's. The call panics
/// if the system clock is set before 1970.
#[verifier::external_body]
fn utc_now() -> (t: (i64, u32))
    ensures
        t.1 < NANOS_PER_SECOND,
{
    let now = chrono::Utc::now();
    (now.timestamp(), now.timestamp_subsec_nanos())
}

/// The whole seconds from `earlier` to `later`, rounded toward zero (what
/// `signed_duration_since(..).num_seconds()` gives for two UTC times).
pub open spec fn whole_seconds_between(later: Timestamp, earlier: Timestamp) -> int {
    let t = later.total_nanos() - earlier.total_nanos();
    if t >= 0 {
        t / 1_000_000_000
    } else {
        -((-t) / 1_000_000_000)
    }
}

/// The whole seconds from `earlier` to `later`, rounded toward zero.
pub fn seconds_between(later: Timestamp, earlier: Timestamp) -> (s: i128)
    ensures
        s == whole_seconds_between(later, earlier),
{
    let t: i128 = (later.secs as i128 - earlier.secs as i128) * 1_000_000_000 + (later.nanos as i128
        - earlier.nanos as i128);
    if t >= 0 {
        let q: u128 = (t as u128) / 1_000_000_000;
        q as i128
    } else {
        let q: u128 = ((-t) as u128) / 1_000_000_000;
        -(q as i128)
    }
}

/// Whether a login token created at `created` has expired at `now`, for
/// tokens that live `lifespan_minutes` minutes: it has when more whole
/// seconds than the lifespan have passed.
pub open spec fn spec_token_expired(created: Timestamp, now: Timestamp, lifespan_minutes: u64) -> bool {
    whole_seconds_between(now, created) > ((lifespan_minutes * 60) as i64)
}

/// Whether a login token created at `created` has expired at `now`.
pub fn token_expired(created: Timestamp, now: Timestamp, lifespan_minutes: u64) -> (r: bool)
    requires
        lifespan_minutes * 60 <= u64::MAX,
    ensures
        r == spec_token_expired(created, now, lifespan_minutes),
{
    let lifespan = (lifespan_minutes * 60) as i64;
    seconds_between(now, created) > lifespan as i128
}

/// A token is accepted for its whole lifespan: checked at any time from its
/// creation up to `lifespan_minutes` minutes later, it has not expired.
pub proof fn lemma_fresh_token_accepted(created: Timestamp, now: Timestamp, lifespan_minutes: u64)
    requires
        lifespan_minutes * 60 <= i64::MAX,
        created.total_nanos() <= now.total_nanos() <= created.total_nanos() + lifespan_minutes * 60
            * 1_000_000_000,
    ensures
        !spec_token_expired(created, now, lifespan_minutes),
{
    let t = now.total_nanos() - created.total_nanos();
    let l: int = lifespan_minutes * 60;
    assert(((lifespan_minutes * 60) as i64) as int == l);
    assert(t / 1_000_000_000 <= l) by (nonlinear_arith)
        requires
            0 <= t <= l * 1_000_000_000,
    ;
}

/// A token that has expired stays expired: later checks against the same
/// creation time and lifespan also find it expired.
pub proof fn lemma_expiry_is_permanent(created: Timestamp, now: Timestamp, later: Timestamp, lifespan_minutes: u64)
    requires
        spec_token_expired(created, now, lifespan_minutes),
        now.total_nanos() <= later.total_nanos(),
    ensures
        spec_token_expired(created, later, lifespan_minutes),
{
    let a = now.total_nanos() - created.total_nanos();
    let b = later.total_nanos() - created.total_nanos();
    assert(a <= b);
    if a >= 0 {
        assert(a / 1_000_000_000 <= b / 1_000_000_000) by (nonlinear_arith)
            requires
                0 <= a <= b,
        ;
    } else if b >= 0 {
        assert(-((-a) / 1_000_000_000) <= 0) by (nonlinear_arith)
            requires
                a < 0,
        ;
        assert(0 <= b / 1_000_000_000) by (nonlinear_arith)
            requires
                0 <= b,
        ;
    } else {
        assert((-b) / 1_000_000_000 <= (-a) / 1_000_000_000) by (nonlinear_arith)
            requires
                0 < -b <= -a,
        ;
    }
}

} // verus!
