//! Per-vhost bandwidth hints from access logs and package quotas: the response size of a log
//! line, the day and month totals of a log, which total a bandwidth card shows, and the card:
//! access-log bytes when possible, else the package quota, else "Not metered".

use vstd::prelude::*;
use vstd::string::*;
use crate::text::{
    all_digits, chars_of, contains_seq, first_index, find_first, last_index, lines_spec,
    lines_vec, non_ws_end, opt_view, parse_u64_spec, take_non_ws, trim_start, views, ws_end,
};

verus! {

/// The bandwidth card of a site.
pub struct BandwidthInfo {
    pub label: String,
    pub hint: String,
    pub bytes: Option<u64>,
    pub period: Option<&'static str>,
    pub source: &'static str,
    pub quota_mb: Option<i64>,
}

/// What follows the request in a log line: after the `"` that closes the `HTTP/x.y`
/// request, or, without `HTTP/`, after the last `" `.
pub open spec fn after_request(line: Seq<char>) -> Option<Seq<char>> {
    match first_index(line, "HTTP/"@) {
        Some(h) => {
            let tail = line.skip(h);
            match first_index(tail, "\""@) {
                Some(q) => Some(tail.skip(q + 1)),
                None => None,
            }
        },
        None => match last_index(line, "\" "@) {
            Some(k) => Some(line.skip(k + 2)),
            None => None,
        },
    }
}

/// The response size of a Common/Combined log line: the field after an all-digit status
/// field, `-` read as 0.
pub open spec fn response_bytes_spec(line: Seq<char>) -> Option<u64> {
    match after_request(line) {
        None => None,
        Some(after) => {
            let a = trim_start(after);
            let status = take_non_ws(a);
            if status.len() == 0 || !all_digits(status) {
                None
            } else {
                let b = trim_start(a.skip(status.len() as int));
                let size = take_non_ws(b);
                if size.len() == 0 {
                    None
                } else if size == "-"@ {
                    Some(0)
                } else {
                    parse_u64_spec(size)
                }
            }
        },
    }
}

fn all_digits_range(v: &Vec<char>, a: usize, b: usize) -> (r: bool)
    requires
        a <= b <= v.len(),
    ensures
        r == all_digits(v@.subrange(a as int, b as int)),
{
    let mut i = a;
    while i < b
        invariant
            a <= i <= b <= v.len(),
            forall|j: int| a <= j < i ==> crate::text::is_digit(#[trigger] v@[j]),
        decreases b - i,
    {
        let u: u32 = v[i] as u32;
        if !(48 <= u && u <= 57) {
            assert(v@.subrange(a as int, b as int)[i - a] == v@[i as int]);
            return false;
        }
        i += 1;
    }
    assert forall|j: int| 0 <= j < v@.subrange(a as int, b as int).len() implies crate::text::is_digit(
        #[trigger] v@.subrange(a as int, b as int)[j],
    ) by {
        assert(v@.subrange(a as int, b as int)[j] == v@[a + j]);
    }
    true
}

/// The response size of one access log line.
pub fn parse_response_bytes(line: &str) -> (r: Option<u64>)
    ensures
        r == response_bytes_spec(line@),
{
    let v = chars_of(line);
    let after_start: usize = match find_first(&v, &chars_of("HTTP/")) {
        Some(h) => {
            proof {
                crate::text::lemma_first_index_bound(v@, "HTTP/"@);
            }
            let tail = crate::text::vec_range(&v, h, v.len());
            assert(tail@ =~= v@.skip(h as int));
            match find_first(&tail, &chars_of("\"")) {
                Some(q) => {
                    proof {
                        crate::text::lemma_first_index_bound(tail@, "\""@);
                        reveal_strlit("\"");
                    }
                    assert(tail@.skip(q + 1) =~= v@.skip(h + q + 1));
                    h + q + 1
                },
                None => return None,
            }
        },
        None => {
            let qs = chars_of("\" ");
            proof {
                reveal_strlit("\" ");
            }
            assert(qs@.len() == 2);
            match crate::text::find_last(&v, &qs) {
            Some(k) => {
                assert(crate::text::occurs_at(v@, qs@, k as int));
                assert(k + 2 <= v.len());
                k + 2
            },
            None => return None,
        }
        },
    };
    let ghost after = v@.skip(after_start as int);
    assert(after_request(line@) == Some(after));
    let s1 = ws_end(&v, after_start);
    let e1 = non_ws_end(&v, s1);
    assert(v@.skip(s1 as int) =~= trim_start(after).skip(0));
    assert(trim_start(after).skip(0) =~= trim_start(after));
    let ghost status = take_non_ws(trim_start(after));
    assert(v@.subrange(s1 as int, e1 as int) == status);
    if e1 == s1 || !all_digits_range(&v, s1, e1) {
        return None;
    }
    let s2 = ws_end(&v, e1);
    let e2 = non_ws_end(&v, s2);
    assert(trim_start(after).skip(status.len() as int) =~= v@.skip(e1 as int));
    if e2 == s2 {
        return None;
    }
    let size = crate::text::string_of_range(&v, s2, e2);
    if crate::text::str_eq(size.as_str(), "-") {
        return Some(0);
    }
    crate::text::parse_u64(size.as_str())
}

/// `a.saturating_add(b)` on `u64`.
pub open spec fn sat_add(a: u64, b: u64) -> u64 {
    if a + b > u64::MAX {
        u64::MAX
    } else {
        (a + b) as u64
    }
}

/// Totals of a log's lines: bytes on lines holding the day token, bytes on lines holding the
/// month token (each saturating), and the number of lines with a response size.
pub open spec fn log_totals(lines: Seq<Seq<char>>, day: Option<Seq<char>>, month: Option<Seq<char>>) -> (u64, u64, nat)
    decreases lines.len(),
{
    if lines.len() == 0 {
        (0, 0, 0)
    } else {
        let prev = log_totals(lines.drop_last(), day, month);
        let line = lines.last();
        match response_bytes_spec(line) {
            None => prev,
            Some(b) => {
                let in_day = match day {
                    Some(d) => contains_seq(line, d),
                    None => false,
                };
                let in_month = match month {
                    Some(m) => contains_seq(line, m),
                    None => false,
                };
                (
                    if in_day {
                        sat_add(prev.0, b)
                    } else {
                        prev.0
                    },
                    if in_month {
                        sat_add(prev.1, b)
                    } else {
                        prev.1
                    },
                    prev.2 + 1,
                )
            },
        }
    }
}

/// Sum response sizes from Common/Combined-style access log lines.
/// Looks for `"...HTTP/x.y" STATUS BYTES` after the request.
pub fn sum_bytes_from_access_log(text: &str, day: Option<&str>, month: Option<&str>) -> (r: (u64, u64, usize))
    ensures
        (r.0, r.1, r.2 as nat) == log_totals(lines_spec(text@), opt_view(day), opt_view(month)),
{
    let lines = lines_vec(&chars_of(text));
    let ghost all = views(lines@);
    let mut today: u64 = 0;
    let mut month_total: u64 = 0;
    let mut count: usize = 0;
    let mut i: usize = 0;
    assert(all.take(0) =~= Seq::<Seq<char>>::empty());
    while i < lines.len()
        invariant
            i <= lines.len(),
            all == views(lines@),
            all == lines_spec(text@),
            count <= i,
            (today, month_total, count as nat) == log_totals(all.take(i as int), opt_view(day), opt_view(month)),
        decreases lines.len() - i,
    {
        assert(all.take(i + 1).drop_last() =~= all.take(i as int));
        assert(all.take(i + 1).last() == lines@[i as int]@);
        let line = crate::text::string_of_chars(&lines[i]);
        match parse_response_bytes(line.as_str()) {
            None => {},
            Some(bytes) => {
                count += 1;
                let in_month = match month {
                    Some(m) => crate::text::contains_str(line.as_str(), m),
                    None => false,
                };
                let in_day = match day {
                    Some(d) => crate::text::contains_str(line.as_str(), d),
                    None => false,
                };
                if in_day {
                    today = today.saturating_add(bytes);
                }
                if in_month {
                    month_total = month_total.saturating_add(bytes);
                }
            },
        }
        i += 1;
    }
    assert(all.take(lines.len() as int) =~= all);
    (today, month_total, count)
}

/// Which access-log total a bandwidth card shows: today's when there is one or the day is
/// known, else the month's; nothing when no line had a size, or both totals are zero and
/// the day is unknown.
pub open spec fn usage_choice_spec(lines: usize, today: u64, month_total: u64, day_known: bool) -> Option<(u64, Seq<char>)> {
    if lines > 0 && (today > 0 || month_total > 0 || day_known) {
        if today > 0 || day_known {
            Some((today, "today"@))
        } else {
            Some((month_total, "this month"@))
        }
    } else {
        None
    }
}

pub fn access_log_usage(lines: usize, today: u64, month_total: u64, day_known: bool) -> (r: Option<(u64, &'static str)>)
    ensures
        r is Some <==> usage_choice_spec(lines, today, month_total, day_known) is Some,
        r matches Some(p) ==> usage_choice_spec(lines, today, month_total, day_known) == Some((p.0, p.1@)),
{
    if lines > 0 && (today > 0 || month_total > 0 || day_known) {
        if today > 0 || day_known {
            Some((today, "today"))
        } else {
            Some((month_total, "this month"))
        }
    } else {
        None
    }
}

/// The card's label. With access-log usage: the bytes and the period, or the bytes over a
/// positive limited quota. Without: the quota (or "Unlimited quota"), else "Not metered".
/// `bytes_text` and `quota_text` are the byte count and the quota as the panel displays them.
pub open spec fn card_label_spec(
    quota_mb: Option<i64>,
    unlimited: i64,
    usage: Option<(u64, Seq<char>)>,
    bytes_text: Seq<char>,
    quota_text: Seq<char>,
) -> Seq<char> {
    match usage {
        Some(u) => match quota_mb {
            Some(q) => if q != unlimited && q > 0 {
                bytes_text + " / "@ + quota_text
            } else {
                bytes_text + " ("@ + u.1 + ")"@
            },
            None => bytes_text + " ("@ + u.1 + ")"@,
        },
        None => match quota_mb {
            Some(q) => if q == unlimited {
                "Unlimited quota"@
            } else {
                "Quota "@ + quota_text
            },
            None => "Not metered"@,
        },
    }
}

/// The card's hint: where the figure comes from.
pub open spec fn card_hint_spec(
    quota_mb: Option<i64>,
    unlimited: i64,
    usage: Option<(u64, Seq<char>)>,
    log_path: Seq<char>,
    quota_text: Seq<char>,
) -> Seq<char> {
    match usage {
        Some(u) => {
            let base = "From access log sample ("@ + log_path
                + "). Host transfer estimate, not package enforcement."@;
            match quota_mb {
                Some(q) => base + " Package quota: "@ + quota_text + "."@,
                None => base,
            }
        },
        None => match quota_mb {
            Some(q) => if q == unlimited {
                "Package bandwidth is unlimited; per-vhost transfer counters are not enforced yet."@
            } else {
                "Package bandwidth limit is configured; usage from access logs was not available for this site."@
            },
            None => "No access log bytes and no package bandwidth quota were available for this site."@,
        },
    }
}

/// Where the card's figure comes from.
pub open spec fn card_source_spec(quota_mb: Option<i64>, usage: Option<(u64, Seq<char>)>) -> Seq<char> {
    match usage {
        Some(u) => "access_log"@,
        None => match quota_mb {
            Some(q) => "package_quota"@,
            None => "none"@,
        },
    }
}

pub open spec fn usage_view(usage: Option<(u64, &'static str)>) -> Option<(u64, Seq<char>)> {
    match usage {
        Some(u) => Some((u.0, u.1@)),
        None => None,
    }
}

/// The bandwidth card of a site, from its access-log usage (`access_log_usage`), its
/// package quota in MB and the quota value that means unlimited. The byte count and the
/// quota come already formatted for display.
pub fn bandwidth_card(
    quota_mb: Option<i64>,
    unlimited: i64,
    usage: Option<(u64, &'static str)>,
    bytes_text: &str,
    log_path: &str,
    quota_text: &str,
) -> (r: BandwidthInfo)
    ensures
        r.label@ == card_label_spec(quota_mb, unlimited, usage_view(usage), bytes_text@, quota_text@),
        r.hint@ == card_hint_spec(quota_mb, unlimited, usage_view(usage), log_path@, quota_text@),
        r.bytes == (match usage {
            Some(u) => Some(u.0),
            None => None::<u64>,
        }),
        r.period == (match usage {
            Some(u) => Some(u.1),
            None => None::<&'static str>,
        }),
        r.source@ == card_source_spec(quota_mb, usage_view(usage)),
        r.quota_mb == quota_mb,
{
    match usage {
        Some((bytes, period)) => {
            let mut label = String::new();
            label.append(bytes_text);
            let limited = match quota_mb {
                Some(q) => q != unlimited && q > 0,
                None => false,
            };
            if limited {
                label.append(" / ");
                label.append(quota_text);
            } else {
                label.append(" (");
                label.append(period);
                label.append(")");
            }
            let mut hint = String::new();
            hint.append("From access log sample (");
            hint.append(log_path);
            hint.append("). Host transfer estimate, not package enforcement.");
            if quota_mb.is_some() {
                hint.append(" Package quota: ");
                hint.append(quota_text);
                hint.append(".");
            }
            BandwidthInfo {
                label,
                hint,
                bytes: Some(bytes),
                period: Some(period),
                source: "access_log",
                quota_mb,
            }
        },
        None => match quota_mb {
            Some(q) => {
                if q == unlimited {
                    BandwidthInfo {
                        label: "Unlimited quota".to_owned(),
                        hint: "Package bandwidth is unlimited; per-vhost transfer counters are not enforced yet.".to_owned(),
                        bytes: None,
                        period: None,
                        source: "package_quota",
                        quota_mb,
                    }
                } else {
                    let mut label = String::new();
                    label.append("Quota ");
                    label.append(quota_text);
                    BandwidthInfo {
                        label,
                        hint: "Package bandwidth limit is configured; usage from access logs was not available for this site.".to_owned(),
                        bytes: None,
                        period: None,
                        source: "package_quota",
                        quota_mb,
                    }
                }
            },
            None => BandwidthInfo {
                label: "Not metered".to_owned(),
                hint: "No access log bytes and no package bandwidth quota were available for this site.".to_owned(),
                bytes: None,
                period: None,
                source: "none",
                quota_mb: None,
            },
        },
    }
}

} // verus!
