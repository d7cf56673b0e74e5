//! SSO session health: instants in UTC (read and compared through `chrono`),
//! the cached SSO token, the health it shows, and the status line Kee prints.

use vstd::prelude::*;

use crate::config::opt_view;
use crate::sha1::{sha1_hex, sha1_hex_spec};
use vstd::utf8::encode_utf8;
use crate::text::{chars_of, push_str, string_from_chars};

verus! {

// ---------------------------------------------------------------------------
// Instants
// ---------------------------------------------------------------------------

/// What `chrono::DateTime::<Utc>::from_timestamp(secs, nanos)` gives, taken back
/// apart into its whole seconds since the Unix epoch and its nanoseconds.
pub uninterp spec fn utc_from_timestamp(secs: i64, nanos: u32) -> Option<(i64, u32)>;

/// What parsing a text as a `chrono::DateTime<Utc>` gives (RFC 3339, any
/// offset, converted to UTC), taken apart as by `utc_from_timestamp`.
pub uninterp spec fn utc_parse(text: Seq<char>) -> Option<(i64, u32)>;

/// The whole seconds (`TimeDelta::num_seconds`) of `later - earlier` for two
/// `chrono::DateTime<Utc>` given as (seconds, nanoseconds).
pub uninterp spec fn utc_seconds_between(later: (i64, u32), earlier: (i64, u32)) -> i64;

/// Seconds and nanoseconds that name a `chrono::DateTime<Utc>`.
pub open spec fn representable(p: (i64, u32)) -> bool {
    utc_from_timestamp(p.0, p.1) == Some(p)
}

/// Nanoseconds since the Unix epoch, for an instant outside a leap second.
pub open spec fn epoch_nanos(p: (i64, u32)) -> int {
    p.0 * 1_000_000_000 + p.1
}

/// Integer division rounding toward zero.
pub open spec fn div_toward_zero(x: int, d: int) -> int {
    if x >= 0 {
        x / d
    } else {
        -((-x) / d)
    }
}

/// Outside leap seconds, an instant that is not later than another has no
/// more nanoseconds since the epoch.
pub proof fn lemma_not_later_nanos(a: (i64, u32), b: (i64, u32))
    requires
        a.1 < 1_000_000_000,
        b.1 < 1_000_000_000,
        !later_than(a, b),
    ensures
        epoch_nanos(a) <= epoch_nanos(b),
        div_toward_zero(epoch_nanos(a) - epoch_nanos(b), 1_000_000_000) <= 0,
{
    let (s1, n1) = (a.0 as int, a.1 as int);
    let (s2, n2) = (b.0 as int, b.1 as int);
    assert(s1 * 1_000_000_000 + n1 <= s2 * 1_000_000_000 + n2) by (nonlinear_arith)
        requires
            0 <= n1 < 1_000_000_000,
            0 <= n2 < 1_000_000_000,
            s1 < s2 || (s1 == s2 && n1 <= n2),
    ;
}

/// Calls `chrono::DateTime::from_timestamp`.
///
/// Claims: the result is the one `utc_from_timestamp` names; an instant it
/// makes gives back the same seconds and nanoseconds (chrono documents this
/// round trip); and it makes none for nanoseconds of two billion or more, nor
/// for a leap-second nanosecond count (one billion or more) outside the last
/// second of a minute (chrono's `NaiveTime::from_num_seconds_from_midnight_opt`).
/// Which whole-second counts lie in chrono's date range is left unsaid.
#[verifier::external_body]
fn from_timestamp_parts(secs: i64, nanos: u32) -> (r: Option<(i64, u32)>)
    ensures
        r == utc_from_timestamp(secs, nanos),
        r matches Some(p) ==> p == (secs, nanos),
        nanos >= 2_000_000_000 || (nanos >= 1_000_000_000 && (secs % 86_400) % 60 != 59) ==> r is None,
{
    chrono::DateTime::from_timestamp(secs, nanos).map(|d| (d.timestamp(), d.timestamp_subsec_nanos()))
}

/// Parses `text` with `str::parse::<chrono::DateTime<chrono::Utc>>`.
///
/// Claims: the result is the one `utc_parse` names, and it is an instant that
/// `from_timestamp` makes again from its parts.
#[verifier::external_body]
fn parse_utc_parts(text: &str) -> (r: Option<(i64, u32)>)
    ensures
        r == utc_parse(text@),
        r matches Some(p) ==> representable(p),
{
    text.parse::<chrono::DateTime<chrono::Utc>>().ok().map(
        |d| (d.timestamp(), d.timestamp_subsec_nanos()),
    )
}

/// Reads the clock with `chrono::Utc::now`.
///
/// Claims only that the reading is a valid instant; its value is the time.
#[verifier::external_body]
fn now_parts() -> (r: (i64, u32))
    ensures
        representable(r),
{
    let d = chrono::Utc::now();
    (d.timestamp(), d.timestamp_subsec_nanos())
}

/// The second chrono's `NaiveTime::signed_duration_since` adds (or takes
/// away) for a leap second yet to be counted: one when `later`'s time of day
/// is after `earlier`'s and `earlier` lies in a leap second, minus one when
/// it is before and `later` lies in one.
pub open spec fn leap_adjust(later: (i64, u32), earlier: (i64, u32)) -> int {
    let ts = later.0 % 86_400;
    let te = earlier.0 % 86_400;
    if ts > te && earlier.1 >= 1_000_000_000 {
        1
    } else if ts < te && later.1 >= 1_000_000_000 {
        -1
    } else {
        0
    }
}

/// Computes `(later - earlier).num_seconds()` on the two `chrono::DateTime<Utc>`.
///
/// Claims: the result is the one `utc_seconds_between` names; it is the
/// difference in nanoseconds, with the leap second of `leap_adjust` counted,
/// divided by 10^9 and rounded toward zero, as chrono's
/// `signed_duration_since` (whole days between the dates, plus the time of
/// day difference) and `num_seconds` compute it; outside leap seconds
/// (nanoseconds under one second) no leap second is counted.
#[verifier::external_body]
fn seconds_between_parts(later: (i64, u32), earlier: (i64, u32)) -> (r: i64)
    requires
        representable(later),
        representable(earlier),
    ensures
        r == utc_seconds_between(later, earlier),
        r == div_toward_zero(
            epoch_nanos(later) - epoch_nanos(earlier) + leap_adjust(later, earlier) * 1_000_000_000,
            1_000_000_000,
        ),
        later.1 < 1_000_000_000 && earlier.1 < 1_000_000_000 ==> r == div_toward_zero(
            epoch_nanos(later) - epoch_nanos(earlier),
            1_000_000_000,
        ),
{
    let a = chrono::DateTime::from_timestamp(later.0, later.1).unwrap();
    let b = chrono::DateTime::from_timestamp(earlier.0, earlier.1).unwrap();
    (a - b).num_seconds()
}

/// An instant in UTC: whole seconds since the Unix epoch and nanoseconds,
/// which reach past one second only inside a leap second.
#[derive(Clone, Copy, Debug, PartialEq, Eq, Structural)]
pub struct Instant {
    secs: i64,
    nanos: u32,
}

impl View for Instant {
    type V = (i64, u32);

    closed spec fn view(&self) -> (i64, u32) {
        (self.secs, self.nanos)
    }
}

/// `a` comes after `b`, as `chrono` orders its `DateTime`s: by seconds, then
/// by nanoseconds.
pub open spec fn later_than(a: (i64, u32), b: (i64, u32)) -> bool {
    a.0 > b.0 || (a.0 == b.0 && a.1 > b.1)
}

impl Instant {
    #[verifier::type_invariant]
    spec fn valid(self) -> bool {
        representable((self.secs, self.nanos))
    }

    /// The instant `secs` seconds and `nanos` nanoseconds after the Unix epoch,
    /// when `chrono` can represent it.
    pub fn from_timestamp(secs: i64, nanos: u32) -> (r: Option<Instant>)
        ensures
            match r {
                Some(t) => t@ == (secs, nanos) && representable(t@),
                None => utc_from_timestamp(secs, nanos) is None,
            },
    {
        match from_timestamp_parts(secs, nanos) {
            Some(p) => Some(Instant { secs: p.0, nanos: p.1 }),
            None => None,
        }
    }

    /// The instant a text names, read as a `chrono::DateTime<Utc>`.
    pub fn parse(text: &str) -> (r: Option<Instant>)
        ensures
            match r {
                Some(t) => utc_parse(text@) == Some(t@),
                None => utc_parse(text@) is None,
            },
    {
        match parse_utc_parts(text) {
            Some(p) => Some(Instant { secs: p.0, nanos: p.1 }),
            None => None,
        }
    }

    /// The current time.
    pub fn now() -> (r: Instant)
        ensures
            representable(r@),
    {
        let p = now_parts();
        Instant { secs: p.0, nanos: p.1 }
    }

    /// Whole seconds since the Unix epoch.
    pub fn timestamp(&self) -> (r: i64)
        ensures
            r == self@.0,
    {
        self.secs
    }

    /// Nanoseconds past the whole second.
    pub fn subsec_nanos(&self) -> (r: u32)
        ensures
            r == self@.1,
    {
        self.nanos
    }

    /// Whether this instant comes after `other`.
    pub fn is_after(&self, other: &Instant) -> (r: bool)
        ensures
            r == later_than(self@, other@),
    {
        self.secs > other.secs || (self.secs == other.secs && self.nanos > other.nanos)
    }

    /// Whole seconds from `earlier` to this instant, negative when `earlier`
    /// comes later.
    pub fn seconds_since(&self, earlier: &Instant) -> (r: i64)
        ensures
            r == utc_seconds_between(self@, earlier@),
            r == div_toward_zero(
                epoch_nanos(self@) - epoch_nanos(earlier@) + leap_adjust(self@, earlier@) * 1_000_000_000,
                1_000_000_000,
            ),
            self@.1 < 1_000_000_000 && earlier@.1 < 1_000_000_000 ==> r == div_toward_zero(
                epoch_nanos(self@) - epoch_nanos(earlier@),
                1_000_000_000,
            ),
            self@.1 < 1_000_000_000 && earlier@.1 < 1_000_000_000 && !later_than(self@, earlier@)
                ==> r <= 0,
    {
        proof {
            use_type_invariant(self);
            use_type_invariant(earlier);
        }
        let r = seconds_between_parts((self.secs, self.nanos), (earlier.secs, earlier.nanos));
        proof {
            if self@.1 < 1_000_000_000 && earlier@.1 < 1_000_000_000 && !later_than(self@, earlier@) {
                lemma_not_later_nanos(self@, earlier@);
            }
        }
        r
    }
}

// ---------------------------------------------------------------------------
// The cached SSO token and the health of the session
// ---------------------------------------------------------------------------

/// One cached SSO token, as the AWS CLI writes it under `~/.aws/sso/cache/`.
#[derive(Clone, Debug)]
pub struct SsoTokenCache {
    pub start_url: Option<String>,
    pub region: Option<String>,
    pub access_token: Option<String>,
    pub expires_at: Option<String>,
    pub client_id: Option<String>,
    pub client_secret: Option<String>,
    pub registration_expires_at: Option<String>,
    pub refresh_token: Option<String>,
}

/// Health of a profile's SSO session, derived from its cached token. A lapsed
/// access token with a valid refresh token is still a working session.
#[derive(Clone, Copy, Debug, PartialEq, Eq, Structural)]
pub enum SessionHealth {
    /// Access token is valid until the given instant.
    Active(Instant),
    /// Access token has lapsed, but a refresh token and a live client
    /// registration remain, so the CLI/SDK will refresh on demand.
    Refreshable,
    /// Nothing usable is cached; a full `aws sso login` is required.
    Expired,
}

/// The instant a text field names, if it is there and parses.
pub open spec fn parsed_field(field: Option<Seq<char>>) -> Option<(i64, u32)> {
    match field {
        Some(t) => utc_parse(t),
        None => None,
    }
}

/// The access token's expiry, when it is given and still ahead of `now`.
pub open spec fn live_expiry(cache: SsoTokenCache, now: (i64, u32)) -> Option<(i64, u32)> {
    match parsed_field(opt_view(cache.expires_at)) {
        Some(e) => if later_than(e, now) {
            Some(e)
        } else {
            None
        },
        None => None,
    }
}

/// A non-empty refresh token is cached and the client registration's expiry
/// is given and still ahead of `now`.
pub open spec fn refresh_possible(cache: SsoTokenCache, now: (i64, u32)) -> bool {
    &&& cache.refresh_token matches Some(t) && t@.len() > 0
    &&& parsed_field(opt_view(cache.registration_expires_at)) matches Some(r) && later_than(r, now)
}

/// The expiry the cached token records, when it parses.
pub fn token_expiry(cache: Option<&SsoTokenCache>) -> (r: Option<Instant>)
    ensures
        match cache {
            Some(c) => match r {
                Some(t) => parsed_field(opt_view(c.expires_at)) == Some(t@),
                None => parsed_field(opt_view(c.expires_at)) is None,
            },
            None => r is None,
        },
{
    match cache {
        Some(c) => match &c.expires_at {
            Some(text) => Instant::parse(text.as_str()),
            None => None,
        },
        None => None,
    }
}

/// The health a cached token shows at `now`: `Active` until its access token
/// expires; after that `Refreshable` while a refresh token and a live client
/// registration remain; `Expired` otherwise, and when nothing is cached.
pub fn session_health(cache: Option<&SsoTokenCache>, now: &Instant) -> (r: SessionHealth)
    ensures
        match cache {
            None => r == SessionHealth::Expired,
            Some(c) => match live_expiry(*c, now@) {
                Some(e) => r matches SessionHealth::Active(t) && t@ == e,
                None => if refresh_possible(*c, now@) {
                    r == SessionHealth::Refreshable
                } else {
                    r == SessionHealth::Expired
                },
            },
        },
{
    let c = match cache {
        Some(c) => c,
        None => return SessionHealth::Expired,
    };
    if let Some(exp) = token_expiry(Some(c)) {
        if exp.is_after(now) {
            return SessionHealth::Active(exp);
        }
    }
    let has_refresh = match &c.refresh_token {
        Some(t) => !t.as_str().is_empty(),
        None => false,
    };
    let registration_live = match &c.registration_expires_at {
        Some(text) => match Instant::parse(text.as_str()) {
            Some(reg) => reg.is_after(now),
            None => false,
        },
        None => false,
    };
    if has_refresh && registration_live {
        SessionHealth::Refreshable
    } else {
        SessionHealth::Expired
    }
}

/// The health a cached token shows now, as `session_health` gives it at the
/// time the clock reads.
pub fn session_health_now(cache: Option<&SsoTokenCache>) -> (r: SessionHealth)
    ensures
        exists|now: Instant| #[trigger] session_health_at(cache, now, r),
{
    let now = Instant::now();
    let r = session_health(cache, &now);
    assert(session_health_at(cache, now, r));
    r
}

/// `r` is what `session_health` gives for the cache at `now`.
pub open spec fn session_health_at(cache: Option<&SsoTokenCache>, now: Instant, r: SessionHealth) -> bool {
    match cache {
        None => r == SessionHealth::Expired,
        Some(c) => match live_expiry(*c, now@) {
            Some(e) => r matches SessionHealth::Active(t) && t@ == e,
            None => if refresh_possible(*c, now@) {
                r == SessionHealth::Refreshable
            } else {
                r == SessionHealth::Expired
            },
        },
    }
}

// ---------------------------------------------------------------------------
// Finding the cached token of a profile
// ---------------------------------------------------------------------------

/// A file of the SSO cache directory: its name and, when it could be read and
/// parsed, the token it holds.
pub struct CacheFile {
    pub file_name: String,
    pub contents: Option<SsoTokenCache>,
}

/// A file name whose extension (as `Path::extension` finds it) is `json`: a
/// non-empty stem followed by `.json`.
pub open spec fn json_file_name(name: Seq<char>) -> bool {
    name.len() > 5 && name.subrange(name.len() - 5, name.len() as int) == ".json"@
}

/// Whether the file name has the extension `json`.
pub fn has_json_extension(name: &str) -> (r: bool)
    ensures
        r == json_file_name(name@),
{
    let v = chars_of(name);
    let n = v.len();
    let ext = chars_of(".json");
    proof {
        reveal_strlit(".json");
        assert(ext@.len() == 5);
    }
    if n <= 5 {
        return false;
    }
    let mut k: usize = 0;
    while k < 5
        invariant
            0 <= k <= 5,
            n == v@.len(),
            v@ == name@,
            n > 5,
            ext@ == ".json"@,
            ext@.len() == 5,
            forall|j: int| 0 <= j < k ==> v@[n - 5 + j] == ext@[j],
        decreases 5 - k,
    {
        if v[n - 5 + k] != ext[k] {
            assert(v@.subrange(n - 5, n as int)[k as int] != ".json"@[k as int]);
            return false;
        }
        k = k + 1;
    }
    assert(v@.subrange(n - 5, n as int) =~= ".json"@);
    true
}

/// The name the AWS CLI gives the token cache file of the sso-session
/// `session_name`: the hex SHA-1 digest of its UTF-8 bytes, then `.json`.
pub open spec fn session_cache_file_name(session_name: Seq<char>) -> Seq<char> {
    sha1_hex_spec(encode_utf8(session_name)) + ".json"@
}

/// The file holds a parsed cached token of the profile: a `.json` file whose
/// token names the SSO start URL `start_url`, or the cache file of its
/// (non-empty) sso-session `session_name`.
pub open spec fn holds_token_for(f: CacheFile, start_url: Seq<char>, session_name: Seq<char>) -> bool {
    &&& json_file_name(f.file_name@)
    &&& f.contents matches Some(c)
    &&& (opt_view(c.start_url) == Some(start_url) || (session_name.len() > 0 && f.file_name@
        == session_cache_file_name(session_name)))
}

/// The name of the token cache file of the sso-session `session_name`.
pub fn session_cache_file(session_name: &str) -> (r: String)
    ensures
        r@ == session_cache_file_name(session_name@),
{
    let digest = sha1_hex(session_name.as_bytes());
    let mut out = chars_of(digest.as_str());
    push_str(&mut out, ".json");
    string_from_chars(out.as_slice())
}

/// Index of the first file that holds the profile's cached token, found by
/// its SSO start URL or by its sso-session's cache file name; files that
/// are not `.json`, or could not be read or parsed, are passed over.
pub fn find_sso_cache_file(files: &Vec<CacheFile>, start_url: &str, session_name: &str) -> (r: Option<usize>)
    ensures
        match r {
            Some(i) => i < files@.len() && holds_token_for(files@[i as int], start_url@, session_name@)
                && forall|k: int| 0 <= k < i ==> !holds_token_for(#[trigger] files@[k], start_url@, session_name@),
            None => forall|k: int| 0 <= k < files@.len() ==> !holds_token_for(#[trigger] files@[k], start_url@, session_name@),
        },
{
    let has_session = !session_name.is_empty();
    let session_file = session_cache_file(session_name);
    let mut i: usize = 0;
    while i < files.len()
        invariant
            0 <= i <= files@.len(),
            has_session == (session_name@.len() > 0),
            session_file@ == session_cache_file_name(session_name@),
            forall|k: int| 0 <= k < i ==> !holds_token_for(#[trigger] files@[k], start_url@, session_name@),
        decreases files@.len() - i,
    {
        let f = &files[i];
        if has_json_extension(f.file_name.as_str()) {
            if let Some(c) = &f.contents {
                let by_url = match &c.start_url {
                    Some(url) => crate::text::str_eq(url.as_str(), start_url),
                    None => false,
                };
                let by_session = has_session && crate::text::str_eq(f.file_name.as_str(), session_file.as_str());
                if by_url || by_session {
                    return Some(i);
                }
            }
        }
        i = i + 1;
    }
    None
}

// ---------------------------------------------------------------------------
// The status line
// ---------------------------------------------------------------------------

/// The decimal digit for `d` (0 to 9).
pub open spec fn digit_char(d: int) -> char {
    if d == 0 {
        '0'
    } else if d == 1 {
        '1'
    } else if d == 2 {
        '2'
    } else if d == 3 {
        '3'
    } else if d == 4 {
        '4'
    } else if d == 5 {
        '5'
    } else if d == 6 {
        '6'
    } else if d == 7 {
        '7'
    } else if d == 8 {
        '8'
    } else {
        '9'
    }
}

/// `n` in decimal, without leading zeros.
pub open spec fn decimal(n: nat) -> Seq<char>
    decreases n,
{
    if n < 10 {
        seq![digit_char(n as int)]
    } else {
        decimal(n / 10).push(digit_char((n % 10) as int))
    }
}

fn digit(d: u64) -> (c: char)
    requires
        d < 10,
    ensures
        c == digit_char(d as int),
{
    if d == 0 {
        '0'
    } else if d == 1 {
        '1'
    } else if d == 2 {
        '2'
    } else if d == 3 {
        '3'
    } else if d == 4 {
        '4'
    } else if d == 5 {
        '5'
    } else if d == 6 {
        '6'
    } else if d == 7 {
        '7'
    } else if d == 8 {
        '8'
    } else {
        '9'
    }
}

/// Appends `n` in decimal.
pub fn push_decimal(out: &mut Vec<char>, n: u64)
    ensures
        final(out)@ == old(out)@ + decimal(n as nat),
    decreases n,
{
    if n >= 10 {
        push_decimal(out, n / 10);
    }
    out.push(digit(n % 10));
    proof {
        if n >= 10 {
            assert(old(out)@ + decimal(n as nat) =~= old(out)@ + decimal((n / 10) as nat) + seq![
                digit_char((n % 10) as int),
            ]);
        } else {
            assert(old(out)@ + decimal(n as nat) =~= old(out)@.push(digit_char((n % 10) as int)));
        }
    }
}

/// Status line of a dead session.
pub open spec fn expired_line() -> Seq<char> {
    "\x1b[0;31m\u{25cf}\x1b[0m Expired"@
}

/// Status line of a lapsed session that still refreshes on use.
pub open spec fn refreshing_line() -> Seq<char> {
    "\x1b[0;33m\u{25cf}\x1b[0m Active (auto-refresh)"@
}

/// Status line of a session whose access token has `secs` whole seconds left:
/// hours and the minutes past them when an hour or more is left, minutes
/// alone under an hour, `Expired` when nothing is left.
pub open spec fn active_line(secs: int) -> Seq<char> {
    if secs <= 0 {
        expired_line()
    } else if secs / 3600 > 0 {
        "\x1b[0;32m\u{25cf}\x1b[0m Active ("@ + decimal((secs / 3600) as nat) + " hours, "@ + decimal(
            ((secs / 60) % 60) as nat,
        ) + " minutes remaining)"@
    } else {
        "\x1b[0;32m\u{25cf}\x1b[0m Active ("@ + decimal((secs / 60) as nat) + " minutes remaining)"@
    }
}

/// The status line `kee status` shows for a session health at `now`.
pub open spec fn status_line(health: SessionHealth, now: (i64, u32)) -> Seq<char> {
    match health {
        SessionHealth::Active(exp) => active_line(utc_seconds_between(exp@, now) as int),
        SessionHealth::Refreshable => refreshing_line(),
        SessionHealth::Expired => expired_line(),
    }
}

/// How long before its token lapses the background refresher renews a
/// session, in seconds. The AWS CLI renews a token from its refresh token
/// when the token has less than fifteen minutes left, so a call made inside
/// this margin renews it.
pub const KEEP_ALIVE_MARGIN_SECS: i64 = 600;

/// What the background refresher of a `kee use` sub-shell does on a check.
#[derive(Clone, Copy, Debug, PartialEq, Eq, Structural)]
pub enum KeepAlive {
    /// The token has time left: check again later.
    Wait,
    /// The token lapses within the margin, or has lapsed with a refresh
    /// token left: have the AWS CLI renew it now.
    Refresh,
    /// Nothing usable is cached: there is no session left to keep alive.
    Stop,
}

/// The refresher's decision for a session of health `health` at `now`.
pub open spec fn keep_alive_spec(health: SessionHealth, now: (i64, u32)) -> KeepAlive {
    match health {
        SessionHealth::Active(exp) => if utc_seconds_between(exp@, now) > KEEP_ALIVE_MARGIN_SECS {
            KeepAlive::Wait
        } else {
            KeepAlive::Refresh
        },
        SessionHealth::Refreshable => KeepAlive::Refresh,
        SessionHealth::Expired => KeepAlive::Stop,
    }
}

/// Decides what the background refresher does for a session of health
/// `health` at `now`: renew a token that lapses within the margin (or has
/// lapsed with a refresh token left), wait while it has more time, stop when
/// nothing is cached.
pub fn keep_alive_action(health: &SessionHealth, now: &Instant) -> (r: KeepAlive)
    ensures
        r == keep_alive_spec(*health, now@),
{
    match health {
        SessionHealth::Active(exp) => if exp.seconds_since(now) > KEEP_ALIVE_MARGIN_SECS {
            KeepAlive::Wait
        } else {
            KeepAlive::Refresh
        },
        SessionHealth::Refreshable => KeepAlive::Refresh,
        SessionHealth::Expired => KeepAlive::Stop,
    }
}

/// Renders the per-profile status line shown by `kee status`, with `now` as
/// the anchor for the time left. A token whose expiry is not after `now`
/// reads as expired (outside leap seconds).
pub fn format_status_line_at(health: SessionHealth, now: Instant) -> (r: String)
    ensures
        r@ == status_line(health, now@),
        health matches SessionHealth::Active(exp) && !later_than(exp@, now@) && exp@.1
            < 1_000_000_000 && now@.1 < 1_000_000_000 ==> r@ == expired_line(),
{
    match health {
        SessionHealth::Active(exp) => {
            let secs = exp.seconds_since(&now);
            if secs <= 0 {
                "\x1b[0;31m\u{25cf}\x1b[0m Expired".to_owned()
            } else {
                let s = secs as u64;
                let mut out = chars_of("\x1b[0;32m\u{25cf}\x1b[0m Active (");
                if s / 3600 > 0 {
                    push_decimal(&mut out, s / 3600);
                    push_str(&mut out, " hours, ");
                    push_decimal(&mut out, (s / 60) % 60);
                } else {
                    push_decimal(&mut out, s / 60);
                }
                push_str(&mut out, " minutes remaining)");
                string_from_chars(out.as_slice())
            }
        },
        SessionHealth::Refreshable => "\x1b[0;33m\u{25cf}\x1b[0m Active (auto-refresh)".to_owned(),
        SessionHealth::Expired => "\x1b[0;31m\u{25cf}\x1b[0m Expired".to_owned(),
    }
}

/// Renders the status line with the current time as the anchor.
pub fn format_status_line(health: SessionHealth) -> (r: String)
    ensures
        exists|now: Instant| #[trigger] status_line(health, now@) == r@,
{
    let now = Instant::now();
    let r = format_status_line_at(health, now);
    assert(status_line(health, now@) == r@);
    r
}

} // verus!
