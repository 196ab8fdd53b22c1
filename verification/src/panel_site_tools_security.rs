//! CSRF tokens and per-user rate limits for the site terminal, git and clone tools.

use vstd::prelude::*;
use vstd::string::*;
use crate::panel_session::{hmac_hex, hmac_hex_spec, constant_time_eq};
use crate::text::{
    chars_of, dec, find_char, idx_of, lemma_dec_digits, lemma_idx_of_concat, lemma_parse_dec,
    parse_u64, parse_u64_spec, push_dec, str_eq, string_of_range,
};

verus! {

pub const RATE_WINDOW_SECS: u64 = 60;

pub const RATE_MAX_OPS: u32 = 60;

pub const TERM_RATE_MAX: u32 = 8;

/// `purpose|username|domain|hour`, the text a CSRF token signs.
pub open spec fn csrf_payload(purpose: Seq<char>, username: Seq<char>, domain: Seq<char>, hour: nat) -> Seq<char> {
    purpose + "|"@ + username + "|"@ + domain + "|"@ + dec(hour)
}

/// `hour.hex(hmac(secret, payload))` with `hour = now / 3600`.
pub open spec fn csrf_token_spec(
    purpose: Seq<char>,
    username: Seq<char>,
    domain: Seq<char>,
    secret: Seq<char>,
    now: u64,
) -> Seq<char> {
    let hour = (now / 3600) as nat;
    dec(hour) + "."@ + hmac_hex_spec(secret, csrf_payload(purpose, username, domain, hour))
}

/// A token is accepted when it splits at its first `.` into an hour (a `u64`) no more than
/// two hours old and at most one hour ahead, and a signature equal to the recomputed HMAC.
pub open spec fn csrf_check_spec(
    purpose: Seq<char>,
    username: Seq<char>,
    domain: Seq<char>,
    token: Seq<char>,
    secret: Seq<char>,
    now: u64,
) -> bool {
    match idx_of(token, '.') {
        None => false,
        Some(i) => match parse_u64_spec(token.take(i)) {
            None => false,
            Some(hour) => {
                let current = now / 3600;
                !(hour + 2 < current || hour > current + 1) && token.skip(i + 1) == hmac_hex_spec(
                    secret,
                    csrf_payload(purpose, username, domain, hour as nat),
                )
            },
        },
    }
}

#[verifier::rlimit(60)]
#[verifier::spinoff_prover]
fn csrf_payload_string(purpose: &str, username: &str, domain: &str, hour: u64) -> (r: String)
    ensures
        r@ == csrf_payload(purpose@, username@, domain@, hour as nat),
{
    let mut payload = purpose.to_owned();
    payload.append("|");
    payload.append(username);
    payload.append("|");
    payload.append(domain);
    payload.append("|");
    push_dec(&mut payload, hour);
    payload
}

/// Mint a CSRF token for `purpose` at time `now`, signed with `secret`.
pub fn mint_csrf(purpose: &str, username: &str, domain: &str, secret: &str, now: u64) -> (r: String)
    ensures
        r@ == csrf_token_spec(purpose@, username@, domain@, secret@, now),
{
    let hour = now / 3600;
    let payload = csrf_payload_string(purpose, username, domain, hour);
    let sig = hmac_hex(secret, payload.as_str());
    let mut out = String::new();
    push_dec(&mut out, hour);
    out.append(".");
    out.append(sig.as_str());
    assert(out@ =~= csrf_token_spec(purpose@, username@, domain@, secret@, now));
    out
}

/// Constant-time comparison of two hex signatures.
pub fn verify_hmac_hex(a: &str, b: &str) -> (r: bool)
    ensures
        r == (a@ == b@),
{
    constant_time_eq(a, b)
}

/// Check a CSRF token for `purpose` at time `now`.
pub fn check_csrf(purpose: &str, username: &str, domain: &str, token: &str, secret: &str, now: u64) -> (r: bool)
    ensures
        r == csrf_check_spec(purpose@, username@, domain@, token@, secret@, now),
{
    let v = chars_of(token);
    assert(v@.skip(0) =~= v@);
    let i = match find_char(&v, '.', 0) {
        Some(i) => i,
        None => return false,
    };
    let hour_s = string_of_range(&v, 0, i);
    assert(v@.take(i as int) =~= v@.subrange(0, i as int));
    let hour = match parse_u64(hour_s.as_str()) {
        Some(h) => h,
        None => return false,
    };
    let current = now / 3600;
    if hour.saturating_add(2) < current || hour > current + 1 {
        return false;
    }
    let payload = csrf_payload_string(purpose, username, domain, hour);
    let expected = hmac_hex(secret, payload.as_str());
    let sig = string_of_range(&v, i + 1, v.len());
    assert(v@.skip(i + 1) =~= v@.subrange(i + 1, v@.len() as int));
    verify_hmac_hex(expected.as_str(), sig.as_str())
}

/// Law: a token minted at `minted` is accepted at `now` for the same purpose, user and
/// domain while `now` is at most two hours and not less than one hour before it.
pub proof fn lemma_csrf_round_trip(
    purpose: Seq<char>,
    username: Seq<char>,
    domain: Seq<char>,
    secret: Seq<char>,
    minted: u64,
    now: u64,
)
    requires
        minted / 3600 + 2 >= now / 3600,
        minted / 3600 <= now / 3600 + 1,
    ensures
        csrf_check_spec(
            purpose,
            username,
            domain,
            csrf_token_spec(purpose, username, domain, secret, minted),
            secret,
            now,
        ),
{
    reveal_strlit(".");
    let hour = minted / 3600;
    let e = dec(hour as nat);
    let sig = hmac_hex_spec(secret, csrf_payload(purpose, username, domain, hour as nat));
    let t = csrf_token_spec(purpose, username, domain, secret, minted);
    lemma_dec_digits(hour as nat);
    lemma_parse_dec(hour);
    crate::text::lemma_dec_no_dot(hour as nat);
    assert(t =~= e + (seq!['.'] + sig));
    lemma_idx_of_concat(e, seq!['.'] + sig, '.');
    assert(t.take(e.len() as int) =~= e);
    assert(t.skip(e.len() + 1int) =~= sig);
}

pub fn site_tools_csrf_token(username: &str, domain: &str, secret: &str, now: u64) -> (r: String)
    ensures
        r@ == csrf_token_spec("site-tools"@, username@, domain@, secret@, now),
{
    mint_csrf("site-tools", username, domain, secret, now)
}

pub fn verify_site_tools_csrf(username: &str, domain: &str, token: &str, secret: &str, now: u64) -> (r: bool)
    ensures
        r == csrf_check_spec("site-tools"@, username@, domain@, token@, secret@, now),
{
    check_csrf("site-tools", username, domain, token, secret, now)
}

pub fn terminal_csrf_token(username: &str, domain: &str, secret: &str, now: u64) -> (r: String)
    ensures
        r@ == csrf_token_spec("site-term"@, username@, domain@, secret@, now),
{
    mint_csrf("site-term", username, domain, secret, now)
}

pub fn verify_terminal_csrf(username: &str, domain: &str, token: &str, secret: &str, now: u64) -> (r: bool)
    ensures
        r == csrf_check_spec("site-term"@, username@, domain@, token@, secret@, now),
{
    check_csrf("site-term", username, domain, token, secret, now)
}

/// One rate window: when it started and how many operations it has counted.
#[derive(Clone, Copy, Debug, PartialEq, Eq)]
pub struct RateWindow {
    pub start: u64,
    pub count: u32,
}

/// Per-key rate windows (the map behind one limiter).
pub struct RateTable {
    pub keys: Vec<String>,
    pub windows: Vec<RateWindow>,
}

/// The window recorded for `key` among the first `n` entries.
pub open spec fn lookup_in(keys: Seq<Seq<char>>, windows: Seq<RateWindow>, key: Seq<char>, n: int) -> Option<int>
    decreases n,
{
    if n <= 0 {
        None
    } else if keys[n - 1] == key {
        match lookup_in(keys, windows, key, n - 1) {
            Some(i) => Some(i),
            None => Some(n - 1),
        }
    } else {
        lookup_in(keys, windows, key, n - 1)
    }
}

impl RateTable {
    pub open spec fn key_views(&self) -> Seq<Seq<char>> {
        self.keys@.map_values(|k: String| k@)
    }

    /// Keys and windows line up.
    pub open spec fn wf(&self) -> bool {
        self.keys@.len() == self.windows@.len()
    }

    /// The window stored for `key`, if any.
    pub open spec fn window_of(&self, key: Seq<char>) -> Option<RateWindow> {
        match lookup_in(self.key_views(), self.windows@, key, self.keys@.len() as int) {
            Some(i) => Some(self.windows@[i]),
            None => None,
        }
    }

    pub fn new() -> (r: RateTable)
        ensures
            r.wf(),
            forall|k: Seq<char>| r.window_of(k) is None,
    {
        RateTable { keys: Vec::new(), windows: Vec::new() }
    }
}

/// The window for `key` at time `now` before counting: a fresh `(now, 0)` for an unknown key
/// or a window at least `RATE_WINDOW_SECS` old.
pub open spec fn current_window(w: Option<RateWindow>, now: u64) -> RateWindow {
    let e = match w {
        Some(e) => e,
        None => RateWindow { start: now, count: 0 },
    };
    if (if now >= e.start { now - e.start } else { 0 }) >= RATE_WINDOW_SECS {
        RateWindow { start: now, count: 0 }
    } else {
        e
    }
}

proof fn lemma_lookup_bounds(keys: Seq<Seq<char>>, windows: Seq<RateWindow>, key: Seq<char>, n: int)
    requires
        0 <= n <= keys.len(),
    ensures
        lookup_in(keys, windows, key, n) matches Some(i) ==> 0 <= i < n && keys[i] == key,
        lookup_in(keys, windows, key, n) is None ==> forall|j: int| 0 <= j < n ==> keys[j] != key,
    decreases n,
{
    if n > 0 {
        lemma_lookup_bounds(keys, windows, key, n - 1);
    }
}

proof fn lemma_lookup_first(keys: Seq<Seq<char>>, windows: Seq<RateWindow>, key: Seq<char>, n: int, i: int)
    requires
        0 <= i < n <= keys.len(),
        keys[i] == key,
        forall|j: int| 0 <= j < i ==> keys[j] != key,
    ensures
        lookup_in(keys, windows, key, n) == Some(i),
    decreases n,
{
    if n - 1 > i {
        lemma_lookup_first(keys, windows, key, n - 1, i);
    } else {
        lemma_lookup_bounds(keys, windows, key, n - 1);
    }
}

proof fn lemma_lookup_frame(
    keys: Seq<Seq<char>>,
    windows: Seq<RateWindow>,
    keys2: Seq<Seq<char>>,
    windows2: Seq<RateWindow>,
    key: Seq<char>,
    n: int,
)
    requires
        0 <= n <= keys.len(),
        n <= keys2.len(),
        forall|j: int| 0 <= j < n ==> keys[j] == keys2[j],
    ensures
        lookup_in(keys, windows, key, n) == lookup_in(keys2, windows2, key, n),
    decreases n,
{
    if n > 0 {
        lemma_lookup_frame(keys, windows, keys2, windows2, key, n - 1);
    }
}

fn find_key(table: &RateTable, key: &str) -> (r: Option<usize>)
    requires
        table.wf(),
    ensures
        match r {
            Some(i) => i < table.keys@.len() && table.key_views()[i as int] == key@ && forall|j: int|
                0 <= j < i ==> table.key_views()[j] != key@,
            None => forall|j: int| 0 <= j < table.keys@.len() ==> table.key_views()[j] != key@,
        },
{
    let n = table.keys.len();
    let mut idx: usize = 0;
    while idx < n
        invariant
            n == table.keys@.len(),
            idx <= n,
            forall|j: int| 0 <= j < idx ==> table.key_views()[j] != key@,
        decreases n - idx,
    {
        if str_eq(table.keys[idx].as_str(), key) {
            return Some(idx);
        }
        idx += 1;
    }
    None
}

/// Count one operation for `key` at time `now`: `Err(limited)` once the window already holds
/// `max` operations; the (possibly restarted) window is stored either way.
pub fn bump_rate(table: &mut RateTable, key: &str, now: u64, max: u32, limited: &str) -> (r: Result<(), String>)
    requires
        old(table).wf(),
    ensures
        final(table).wf(),
        ({
            let w = current_window(old(table).window_of(key@), now);
            &&& (r is Ok) == (w.count < max)
            &&& r matches Err(m) ==> m@ == limited@
            &&& final(table).window_of(key@) == Some(if w.count < max {
                RateWindow { start: w.start, count: (w.count + 1) as u32 }
            } else {
                w
            })
        }),
        forall|k: Seq<char>| k != key@ ==> final(table).window_of(k) == old(table).window_of(k),
{
    let ghost old_keys = table.key_views();
    let ghost old_windows = table.windows@;
    let n = table.keys.len();
    let found_at = find_key(table, key);
    let idx: usize = match found_at {
        Some(i) => i,
        None => n,
    };
    proof {
        if idx < n {
            lemma_lookup_first(old_keys, old_windows, key@, n as int, idx as int);
        } else {
            lemma_lookup_bounds(old_keys, old_windows, key@, n as int);
        }
    }
    let found = idx < n;
    let mut w = if found { table.windows[idx] } else { RateWindow { start: now, count: 0 } };
    if now.saturating_sub(w.start) >= RATE_WINDOW_SECS {
        w = RateWindow { start: now, count: 0 };
    }
    let ok = w.count < max;
    if ok {
        w = RateWindow { start: w.start, count: w.count + 1 };
    }
    if found {
        table.windows.set(idx, w);
    } else {
        table.keys.push(key.to_owned());
        table.windows.push(w);
    }
    proof {
        let nk = table.key_views();
        let nw = table.windows@;
        if found {
            assert(nk =~= old_keys);
            lemma_lookup_first(nk, nw, key@, nk.len() as int, idx as int);
            assert forall|k: Seq<char>| k != key@ implies table.window_of(k) == old(table).window_of(k) by {
                lemma_lookup_bounds(old_keys, old_windows, k, n as int);
                lemma_lookup_frame(old_keys, old_windows, nk, nw, k, n as int);
            }
        } else {
            assert(nk =~= old_keys.push(key@));
            lemma_lookup_first(nk, nw, key@, nk.len() as int, n as int);
            assert forall|k: Seq<char>| k != key@ implies table.window_of(k) == old(table).window_of(k) by {
                lemma_lookup_frame(old_keys, old_windows, nk, nw, k, n as int);
                lemma_lookup_bounds(old_keys, old_windows, k, n as int);
                assert(nk[n as int] != k);
            }
        }
    }
    if ok {
        Ok(())
    } else {
        Err(limited.to_owned())
    }
}

/// The window after counting one operation against `max`: one more when there was room.
pub open spec fn counted_window(w: RateWindow, max: u32) -> RateWindow {
    if w.count < max {
        RateWindow { start: w.start, count: (w.count + 1) as u32 }
    } else {
        w
    }
}

/// Law: an accepted operation leaves its key's window at `max` operations or fewer, one more
/// than the window held, so a window never accepts more than `max` operations.
pub proof fn lemma_rate_window_bound(w: Option<RateWindow>, now: u64, max: u32)
    requires
        current_window(w, now).count < max,
    ensures
        current_window(w, now).count + 1 <= max,
{
}

pub fn check_tools_rate_limit(table: &mut RateTable, username: &str, now: u64) -> (r: Result<(), String>)
    requires
        old(table).wf(),
    ensures
        final(table).wf(),
        (r is Ok) == (current_window(old(table).window_of(username@), now).count < RATE_MAX_OPS),
        final(table).window_of(username@) == Some(counted_window(current_window(old(table).window_of(username@), now), RATE_MAX_OPS)),
        forall|k: Seq<char>| k != username@ ==> final(table).window_of(k) == old(table).window_of(k),
        r matches Err(m) ==> m@ == "Too many site tool operations; wait a minute and try again"@,
{
    bump_rate(table, username, now, RATE_MAX_OPS, "Too many site tool operations; wait a minute and try again")
}

pub fn check_terminal_rate_limit(table: &mut RateTable, username: &str, now: u64) -> (r: Result<(), String>)
    requires
        old(table).wf(),
    ensures
        final(table).wf(),
        (r is Ok) == (current_window(old(table).window_of(username@), now).count < TERM_RATE_MAX),
        final(table).window_of(username@) == Some(counted_window(current_window(old(table).window_of(username@), now), TERM_RATE_MAX)),
        forall|k: Seq<char>| k != username@ ==> final(table).window_of(k) == old(table).window_of(k),
        r matches Err(m) ==> m@ == "Too many terminal sessions; wait a minute and try again"@,
{
    bump_rate(table, username, now, TERM_RATE_MAX, "Too many terminal sessions; wait a minute and try again")
}

/// A request header as the checks read it: absent, present but not visible ASCII text, or
/// its text.
pub open spec fn header_text(h: Option<Option<&str>>) -> Option<Seq<char>> {
    match h {
        Some(Some(t)) => Some(t@),
        _ => None,
    }
}

/// Tools form check: the `Origin` header, or when it is absent the `Referer` header, must
/// contain the request host; a request with neither, or whose chosen header is not text,
/// passes.
pub open spec fn same_origin_spec(origin: Option<Option<&str>>, referer: Option<Option<&str>>, host: Seq<char>) -> bool {
    let chosen = match origin {
        Some(o) => o,
        None => match referer {
            Some(r) => r,
            None => None,
        },
    };
    match chosen {
        Some(t) => crate::text::contains_seq(t@, host),
        None => true,
    }
}

pub fn same_origin_ok(origin: Option<Option<&str>>, referer: Option<Option<&str>>, host: &str) -> (r: bool)
    ensures
        r == same_origin_spec(origin, referer, host@),
{
    let chosen = match origin {
        Some(o) => o,
        None => match referer {
            Some(r) => r,
            None => None,
        },
    };
    match chosen {
        Some(t) => crate::text::contains_str(t, host),
        None => true,
    }
}

/// Alias and cron form check: with a non-empty `Host`, the `Origin` text, else the
/// `Referer` text, must contain it; otherwise the request passes.
pub open spec fn alias_cron_origin_spec(host: Option<Option<&str>>, origin: Option<Option<&str>>, referer: Option<Option<&str>>) -> bool {
    let h = match header_text(host) {
        Some(t) => t,
        None => Seq::empty(),
    };
    if h.len() == 0 {
        true
    } else {
        match header_text(origin) {
            Some(o) => crate::text::contains_seq(o, h),
            None => match header_text(referer) {
                Some(r) => crate::text::contains_seq(r, h),
                None => true,
            },
        }
    }
}

pub fn alias_cron_origin_ok(host: Option<Option<&str>>, origin: Option<Option<&str>>, referer: Option<Option<&str>>) -> (r: bool)
    ensures
        r == alias_cron_origin_spec(host, origin, referer),
{
    let h = match host {
        Some(Some(t)) => t,
        _ => "",
    };
    proof {
        reveal_strlit("");
    }
    if h.unicode_len() == 0 {
        return true;
    }
    match origin {
        Some(Some(o)) => crate::text::contains_str(o, h),
        _ => match referer {
            Some(Some(r)) => crate::text::contains_str(r, h),
            _ => true,
        },
    }
}

/// One key's window after a run of counted calls at the given times, and how many of them
/// were accepted.
pub open spec fn run_calls(w: RateWindow, times: Seq<u64>, max: u32) -> (RateWindow, nat)
    decreases times.len(),
{
    if times.len() == 0 {
        (w, 0)
    } else {
        let prev = run_calls(w, times.drop_last(), max);
        let cur = current_window(Some(prev.0), times.last());
        (counted_window(cur, max), prev.1 + if cur.count < max { 1nat } else { 0nat })
    }
}

/// Law: within one rate window (every call less than `RATE_WINDOW_SECS` after the window
/// started, and not before), a key is accepted at most `max` times in all, counting those
/// the window already holds; the window keeps its start.
pub proof fn lemma_calls_in_window_bounded(w: RateWindow, times: Seq<u64>, max: u32)
    requires
        w.count <= max,
        forall|i: int| 0 <= i < times.len() ==> w.start <= #[trigger] times[i] && times[i] - w.start < RATE_WINDOW_SECS,
    ensures
        run_calls(w, times, max).0.start == w.start,
        run_calls(w, times, max).0.count <= max,
        run_calls(w, times, max).0.count == w.count + run_calls(w, times, max).1,
        w.count + run_calls(w, times, max).1 <= max,
    decreases times.len(),
{
    if times.len() > 0 {
        let d = times.drop_last();
        assert forall|i: int| 0 <= i < d.len() implies w.start <= #[trigger] d[i] && d[i] - w.start < RATE_WINDOW_SECS by {
            assert(d[i] == times[i]);
        }
        lemma_calls_in_window_bounded(w, d, max);
        assert(times.last() == times[times.len() - 1]);
    }
}

} // verus!
