//! Safe, domain-scoped website log reads for Manage > Logs.
//!
//! Manage and the logs API only jail to `{site_home}/logs/{access|error}.log`.
//! Parent domains never read child subdomain trees (and the reverse). Files are created,
//! canonicalised and read by the caller; paths are `/`-separated text here.

use vstd::prelude::*;
use vstd::string::*;
use crate::paths::{join_path, path_join};
use crate::site::SiteRecord;
use crate::text::{
    chars_of, contains_seq, html_escaped, lines_spec, lines_vec, push_escaped, split_on,
    str_eq, string_of_chars, to_lower, trim, views,
};

verus! {

/// Default number of trailing lines loaded into memory for search/pagination.
pub const LOG_TAIL_LINES: usize = 400;

/// Hard cap when scanning for the modal (keeps payloads bounded).
pub const LOG_SCAN_LINES: usize = 5000;

/// Bytes read from the end of a log for the modal.
pub const LOG_SCAN_BYTES: u64 = 512000;

/// `{site_home}/logs`.
pub open spec fn logs_dir_spec(site: SiteRecord) -> Seq<char> {
    path_join(site.home@, "logs"@)
}

/// Preferred access log path under the site home.
pub fn site_access_log_path(site: &SiteRecord) -> (r: String)
    ensures
        r@ == path_join(logs_dir_spec(*site), "access.log"@),
{
    let dir = join_path(site.home.as_str(), "logs");
    join_path(dir.as_str(), "access.log")
}

/// Preferred error log path under the site home.
pub fn site_error_log_path(site: &SiteRecord) -> (r: String)
    ensures
        r@ == path_join(logs_dir_spec(*site), "error.log"@),
{
    let dir = join_path(site.home.as_str(), "logs");
    join_path(dir.as_str(), "error.log")
}

/// The jailed log file of a kind: `access` or `error`.
pub open spec fn log_path_for_kind_spec(site: SiteRecord, kind: Seq<char>) -> Result<Seq<char>, Seq<char>> {
    if kind == "access"@ {
        Ok(path_join(logs_dir_spec(site), "access.log"@))
    } else if kind == "error"@ {
        Ok(path_join(logs_dir_spec(site), "error.log"@))
    } else {
        Err("Log kind must be access or error"@)
    }
}

/// Resolve the jailed log file for a kind (`access` or `error`).
pub fn site_log_path_for_kind(site: &SiteRecord, kind: &str) -> (r: Result<String, String>)
    ensures
        r is Ok <==> log_path_for_kind_spec(*site, kind@) is Ok,
        r matches Ok(p) ==> log_path_for_kind_spec(*site, kind@) == Ok::<Seq<char>, Seq<char>>(p@),
        r matches Err(e) ==> log_path_for_kind_spec(*site, kind@) == Err::<Seq<char>, Seq<char>>(e@),
{
    if str_eq(kind, "access") {
        Ok(site_access_log_path(site))
    } else if str_eq(kind, "error") {
        Ok(site_error_log_path(site))
    } else {
        Err("Log kind must be access or error".to_owned())
    }
}

/// Candidate access log paths: the site's own two, then the web servers' per-domain logs.
pub open spec fn access_candidates(site: SiteRecord) -> Seq<Seq<char>> {
    let d = site.domain@;
    let h = logs_dir_spec(site);
    seq![
        path_join(h, "access.log"@),
        path_join(h, "access_log"@),
        "/usr/local/lsws/logs/"@ + d + ".access.log"@,
        "/usr/local/lsws/logs/"@ + d + ".access_log"@,
        "/var/log/httpd/"@ + d + "-access_log"@,
        "/var/log/httpd/"@ + d + "-access.log"@,
        "/var/log/nginx/"@ + d + ".access.log"@,
        "/var/log/apache2/"@ + d + "-access.log"@,
    ]
}

/// Candidate error log paths, in the same order as the access ones.
pub open spec fn error_candidates(site: SiteRecord) -> Seq<Seq<char>> {
    let d = site.domain@;
    let h = logs_dir_spec(site);
    seq![
        path_join(h, "error.log"@),
        path_join(h, "error_log"@),
        "/usr/local/lsws/logs/"@ + d + ".error.log"@,
        "/usr/local/lsws/logs/"@ + d + ".error_log"@,
        "/var/log/httpd/"@ + d + "-error_log"@,
        "/var/log/httpd/"@ + d + "-error.log"@,
        "/var/log/nginx/"@ + d + ".error.log"@,
        "/var/log/apache2/"@ + d + "-error.log"@,
    ]
}

fn prefixed(prefix: &str, domain: &str, suffix: &str) -> (r: String)
    ensures
        r@ == prefix@ + domain@ + suffix@,
{
    let mut s = prefix.to_owned();
    s.append(domain);
    s.append(suffix);
    s
}

/// Candidate access/error log paths (bandwidth helpers may use fallbacks).
/// Manage UI and the logs API use `site_log_path_for_kind` only.
pub fn candidate_log_paths(site: &SiteRecord) -> (r: (Vec<String>, Vec<String>))
    ensures
        crate::text::string_views(r.0@) == access_candidates(*site),
        crate::text::string_views(r.1@) == error_candidates(*site),
{
    let d = site.domain.as_str();
    let home_logs = join_path(site.home.as_str(), "logs");
    let h = home_logs.as_str();
    let access = vec![
        join_path(h, "access.log"),
        join_path(h, "access_log"),
        prefixed("/usr/local/lsws/logs/", d, ".access.log"),
        prefixed("/usr/local/lsws/logs/", d, ".access_log"),
        prefixed("/var/log/httpd/", d, "-access_log"),
        prefixed("/var/log/httpd/", d, "-access.log"),
        prefixed("/var/log/nginx/", d, ".access.log"),
        prefixed("/var/log/apache2/", d, "-access.log"),
    ];
    let error = vec![
        join_path(h, "error.log"),
        join_path(h, "error_log"),
        prefixed("/usr/local/lsws/logs/", d, ".error.log"),
        prefixed("/usr/local/lsws/logs/", d, ".error_log"),
        prefixed("/var/log/httpd/", d, "-error_log"),
        prefixed("/var/log/httpd/", d, "-error.log"),
        prefixed("/var/log/nginx/", d, ".error.log"),
        prefixed("/var/log/apache2/", d, "-error.log"),
    ];
    assert(crate::text::string_views(access@) =~= access_candidates(*site));
    assert(crate::text::string_views(error@) =~= error_candidates(*site));
    (access, error)
}

/// The components of a path: its `/`-separated parts without empty and `.` parts.
pub open spec fn path_parts(p: Seq<char>) -> Seq<Seq<char>> {
    split_on(p, '/').filter(|c: Seq<char>| c.len() > 0 && c != "."@)
}

/// The last component of a path, when it has one.
pub open spec fn file_name_of(p: Seq<char>) -> Option<Seq<char>> {
    if path_parts(p).len() > 0 {
        Some(path_parts(p).last())
    } else {
        None
    }
}

/// `p`'s parent is the directory `dir` (both rooted or both relative, same components).
pub open spec fn parent_is(p: Seq<char>, dir: Seq<char>) -> bool {
    &&& path_parts(p).len() > 0
    &&& path_parts(p).drop_last() == path_parts(dir)
    &&& ("/"@.is_prefix_of(p) <==> "/"@.is_prefix_of(dir))
}

/// `p` lies under `dir`, compared component by component.
pub open spec fn under_dir(p: Seq<char>, dir: Seq<char>) -> bool {
    &&& path_parts(dir).is_prefix_of(path_parts(p))
    &&& ("/"@.is_prefix_of(p) <==> "/"@.is_prefix_of(dir))
}

/// One of the four file names a site's own log may have.
pub open spec fn own_log_name(n: Seq<char>) -> bool {
    n == "access.log"@ || n == "access_log"@ || n == "error.log"@ || n == "error_log"@
}

/// A web server's per-domain log name for exactly this domain (not a child domain).
pub open spec fn domain_log_name(n: Seq<char>, d: Seq<char>) -> bool {
    ||| n == d + ".access.log"@
    ||| n == d + ".access_log"@
    ||| n == d + "-access.log"@
    ||| n == d + "-access_log"@
    ||| n == d + ".error.log"@
    ||| n == d + ".error_log"@
    ||| n == d + "-error.log"@
    ||| n == d + "-error_log"@
}

/// The canonical forms of the site's `logs` directory and of the path, where they resolve.
pub struct CanonicalPaths {
    pub logs_dir: Option<String>,
    pub path: Option<String>,
}

/// True when `path` is inside this site's `logs/` jail (or an exact domain std log): no
/// `..`; under the canonical `logs` directory, or named like a site log directly in it;
/// otherwise only a web server log named for exactly this domain.
pub open spec fn path_allowed_spec(site: SiteRecord, path: Seq<char>, logs_canon: Option<Seq<char>>, path_canon: Option<Seq<char>>) -> bool {
    let home_logs = logs_dir_spec(site);
    let own = match file_name_of(path) {
        Some(n) => own_log_name(n),
        None => false,
    };
    let in_std = "/usr/local/lsws/logs/"@.is_prefix_of(path) || "/var/log/httpd/"@.is_prefix_of(path)
        || "/var/log/nginx/"@.is_prefix_of(path) || "/var/log/apache2/"@.is_prefix_of(path);
    let std_ok = in_std && match file_name_of(path) {
        Some(n) => domain_log_name(n, site.domain@),
        None => false,
    };
    if contains_seq(path, ".."@) {
        false
    } else {
        match logs_canon {
            Some(ch) => match path_canon {
                Some(cp) => under_dir(cp, ch) || std_ok,
                None => if parent_is(path, home_logs) {
                    own
                } else {
                    std_ok
                },
            },
            None => ((((home_logs + "/"@).is_prefix_of(path) || parent_is(path, home_logs)) && own)
                || std_ok),
        }
    }
}


/// The components kept by `path_parts`.
pub open spec fn kept_part() -> spec_fn(Seq<char>) -> bool {
    |c: Seq<char>| c.len() > 0 && c != "."@
}

proof fn lemma_path_parts_def(p: Seq<char>)
    ensures
        path_parts(p) == split_on(p, '/').filter(kept_part()),
{
    assert(kept_part() == (|c: Seq<char>| c.len() > 0 && c != "."@));
}

fn parts_of(p: &str) -> (r: Vec<Vec<char>>)
    ensures
        views(r@) == path_parts(p@),
{
    proof {
        reveal_strlit(".");
        lemma_path_parts_def(p@);
    }
    let pieces = crate::text::split_vec(&chars_of(p), '/');
    let ghost all = views(pieces@);
    let dot = chars_of(".");
    let mut out: Vec<Vec<char>> = Vec::new();
    let mut i: usize = 0;
    proof {
        assert(all.take(0) =~= Seq::<Seq<char>>::empty());
        crate::text::lemma_filter_empty(kept_part());
    }
    while i < pieces.len()
        invariant
            i <= pieces.len(),
            all == views(pieces@),
            all == split_on(p@, '/'),
            dot@ == "."@,
            views(out@) == all.take(i as int).filter(kept_part()),
        decreases pieces.len() - i,
    {
        proof {
            assert(all.take(i + 1) =~= all.take(i as int).push(all[i as int]));
            crate::text::lemma_filter_push(all.take(i as int), kept_part(), all[i as int]);
        }
        let keep = pieces[i].len() > 0 && !crate::text::vec_eq(&pieces[i], &dot);
        let ghost before = views(out@);
        if keep {
            let c = crate::text::vec_range(&pieces[i], 0, pieces[i].len());
            assert(c@ =~= pieces@[i as int]@);
            out.push(c);
            assert(views(out@) =~= before.push(all[i as int]));
        }
        i += 1;
    }
    assert(all.take(pieces.len() as int) =~= all);
    out
}

/// Whether `a`'s parts are a prefix of `b`'s.
fn parts_prefix(a: &Vec<Vec<char>>, b: &Vec<Vec<char>>) -> (r: bool)
    ensures
        r == views(a@).is_prefix_of(views(b@)),
{
    if a.len() > b.len() {
        return false;
    }
    let mut i: usize = 0;
    while i < a.len()
        invariant
            i <= a.len() <= b.len(),
            forall|j: int| 0 <= j < i ==> a@[j]@ == b@[j]@,
        decreases a.len() - i,
    {
        if !crate::text::vec_eq(&a[i], &b[i]) {
            assert(views(b@).subrange(0, a.len() as int)[i as int] == b@[i as int]@);
            return false;
        }
        i += 1;
    }
    assert(views(b@).subrange(0, a.len() as int) =~= views(a@));
    true
}

fn rooted(p: &str) -> (r: bool)
    ensures
        r == "/"@.is_prefix_of(p@),
{
    crate::text::starts_with_str(p, "/")
}

fn own_log_name_exec(n: &str) -> (r: bool)
    ensures
        r == own_log_name(n@),
{
    str_eq(n, "access.log") || str_eq(n, "access_log") || str_eq(n, "error.log") || str_eq(n, "error_log")
}

fn domain_log_name_exec(n: &str, d: &str) -> (r: bool)
    ensures
        r == domain_log_name(n@, d@),
{
    proof {
        reveal_strlit("");
        assert(""@ + d@ =~= d@);
    }
    str_eq(n, prefixed("", d, ".access.log").as_str()) || str_eq(n, prefixed("", d, ".access_log").as_str())
        || str_eq(n, prefixed("", d, "-access.log").as_str()) || str_eq(
        n,
        prefixed("", d, "-access_log").as_str(),
    ) || str_eq(n, prefixed("", d, ".error.log").as_str()) || str_eq(
        n,
        prefixed("", d, ".error_log").as_str(),
    ) || str_eq(n, prefixed("", d, "-error.log").as_str()) || str_eq(
        n,
        prefixed("", d, "-error_log").as_str(),
    )
}

pub fn path_allowed(site: &SiteRecord, path: &str, canon: &CanonicalPaths) -> (r: bool)
    ensures
        r == path_allowed_spec(
            *site,
            path@,
            crate::text::opt_string_view(&canon.logs_dir),
            crate::text::opt_string_view(&canon.path),
        ),
{
    proof {
        reveal_strlit("");
        assert forall|x: Seq<char>| ""@ + x == x by {
            assert(""@ + x =~= x);
        }
    }
    if crate::text::contains_str(path, "..") {
        return false;
    }
    let home_logs = join_path(site.home.as_str(), "logs");
    let pp = parts_of(path);
    let name: Option<String> = if pp.len() > 0 {
        Some(string_of_chars(&pp[pp.len() - 1]))
    } else {
        None
    };
    let own = match &name {
        Some(n) => own_log_name_exec(n.as_str()),
        None => false,
    };
    let in_std = crate::text::starts_with_str(path, "/usr/local/lsws/logs/") || crate::text::starts_with_str(
        path,
        "/var/log/httpd/",
    ) || crate::text::starts_with_str(path, "/var/log/nginx/") || crate::text::starts_with_str(
        path,
        "/var/log/apache2/",
    );
    let std_ok = in_std && match &name {
        Some(n) => domain_log_name_exec(n.as_str(), site.domain.as_str()),
        None => false,
    };
    let hp = parts_of(home_logs.as_str());
    let parent = pp.len() > 0 && pp.len() - 1 == hp.len() && parts_prefix(&hp, &pp) && (rooted(path) == rooted(
        home_logs.as_str(),
    ));
    proof {
        if pp.len() > 0 && pp.len() - 1 == hp.len() && views(hp@).is_prefix_of(views(pp@)) {
            assert(views(pp@).drop_last() =~= views(hp@));
        }
        if path_parts(path@).len() > 0 && path_parts(path@).drop_last() == path_parts(home_logs@) {
            assert(views(hp@).is_prefix_of(views(pp@))) by {
                assert(views(pp@).subrange(0, hp.len() as int) =~= views(pp@).drop_last());
            }
        }
    }
    match &canon.logs_dir {
        Some(ch) => match &canon.path {
            Some(cp) => {
                let cpp = parts_of(cp.as_str());
                let chp = parts_of(ch.as_str());
                let under = parts_prefix(&chp, &cpp) && (rooted(cp.as_str()) == rooted(ch.as_str()));
                under || std_ok
            },
            None => if parent {
                own
            } else {
                std_ok
            },
        },
        None => {
            let mut prefix = home_logs.clone();
            prefix.append("/");
            ((crate::text::starts_with_str(path, prefix.as_str()) || parent) && own) || std_ok
        },
    }
}


/// The jailed path of a kind, empty for an unknown kind.
pub open spec fn preferred_log_path(site: SiteRecord, kind: Seq<char>) -> Seq<char> {
    match log_path_for_kind_spec(site, kind) {
        Ok(p) => p,
        Err(_) => Seq::empty(),
    }
}

/// Compact hint panel under the log cards (no inline dump).
pub open spec fn log_panel_html_spec(site: &SiteRecord, kind: &str) -> Seq<char> {
    "<div class=\"manage-log-panel manage-log-hint\" data-log-kind=\""@ + html_escaped(kind@) + "\">\n  <h3>"@ + (if kind@ == "error"@ { "Error Logs"@ } else { "Access Logs"@ }) + "</h3>\n  <p class=\"manage-muted\">Open the card above for a searchable, paginated viewer. Domain-scoped source: <code>"@ + html_escaped(preferred_log_path(*site, kind@)) + "</code></p>\n</div>"@
}

#[verifier::rlimit(60)]
#[verifier::spinoff_prover]
pub fn log_panel_html(site: &SiteRecord, kind: &str) -> (r: String)
    ensures
        r@ == log_panel_html_spec(site, kind),
{
    let mut out = "<div class=\"manage-log-panel manage-log-hint\" data-log-kind=\"".to_owned();
    push_escaped(&mut out, kind);
    out.append("\">\n  <h3>");
    if str_eq(kind, "error") { out.append("Error Logs"); } else { out.append("Access Logs"); }
    out.append("</h3>\n  <p class=\"manage-muted\">Open the card above for a searchable, paginated viewer. Domain-scoped source: <code>");
    let preferred = match site_log_path_for_kind(site, kind) { Ok(p) => p, Err(_) => String::new() };
    push_escaped(&mut out, preferred.as_str());
    out.append("</code></p>\n</div>");
    proof {
        assert(out@ =~= log_panel_html_spec(site, kind));
    }
    out
}

/// `n` kept within 10 to 50 lines per page.
pub open spec fn clamp_per_page_spec(n: usize) -> usize {
    if n <= 9 {
        10
    } else if n <= 50 {
        n
    } else {
        50
    }
}

pub fn clamp_per_page(n: usize) -> (r: usize)
    ensures
        r == clamp_per_page_spec(n),
{
    if n <= 9 {
        10
    } else if n <= 50 {
        n
    } else {
        50
    }
}

/// The last `max_lines` lines of a log tail, joined with `\n`; the text as read when it has
/// no more lines than that.
pub open spec fn tail_lines_spec(raw: Seq<char>, max_lines: usize) -> Seq<char> {
    let l = lines_spec(raw);
    if l.len() <= max_lines {
        raw
    } else {
        crate::text::join_spec(l.skip(l.len() - max_lines), "\n"@)
    }
}

/// Last `max_lines` lines of the trailing byte window read from an allowlisted log.
pub fn read_log_tail_lines(raw: &str, max_lines: usize) -> (r: String)
    ensures
        r@ == tail_lines_spec(raw@, max_lines),
{
    let lines = lines_vec(&chars_of(raw));
    if lines.len() <= max_lines {
        return raw.to_owned();
    }
    let start = lines.len() - max_lines;
    let mut tail: Vec<String> = Vec::new();
    let mut i = start;
    let ghost all = views(lines@);
    while i < lines.len()
        invariant
            start <= i <= lines.len(),
            all == views(lines@),
            crate::text::string_views(tail@) == all.subrange(start as int, i as int),
        decreases lines.len() - i,
    {
        let ghost before = crate::text::string_views(tail@);
        tail.push(string_of_chars(&lines[i]));
        assert(crate::text::string_views(tail@) =~= before.push(all[i as int]));
        assert(all.subrange(start as int, i + 1) =~= all.subrange(start as int, i as int).push(all[i as int]));
        i += 1;
    }
    assert(all.subrange(start as int, lines.len() as int) =~= all.skip(start as int));
    crate::text::join_strings(&tail, "\n")
}

/// One page of a site log for the viewer.
pub struct LogPagePayload {
    pub ok: bool,
    pub domain: String,
    pub kind: String,
    pub path: String,
    pub search: String,
    pub page: usize,
    pub per_page: usize,
    pub total_lines: usize,
    pub total_pages: usize,
    pub lines: Vec<String>,
    pub empty: bool,
    pub message: String,
}

/// The lines scanned: at most the last 5000 lines of the tail read.
pub open spec fn scanned_lines(raw: Seq<char>) -> Seq<Seq<char>> {
    let l = lines_spec(raw);
    if l.len() > LOG_SCAN_LINES {
        l.skip(l.len() - LOG_SCAN_LINES)
    } else {
        l
    }
}

/// Lines whose lower-cased text contains `q`.
pub open spec fn matches_query(q: Seq<char>) -> spec_fn(Seq<char>) -> bool {
    |l: Seq<char>| contains_seq(to_lower(l), q)
}

/// The scanned lines that match the lower-cased search (all of them for an empty search).
pub open spec fn matching_lines(raw: Seq<char>, search: Seq<char>) -> Seq<Seq<char>> {
    let q = to_lower(trim(search));
    if q.len() == 0 {
        scanned_lines(raw)
    } else {
        scanned_lines(raw).filter(matches_query(q))
    }
}

/// Law: the log search ignores ASCII case. A scanned line is among the matches exactly when
/// the search is blank or the line's lower-cased text holds the trimmed, lower-cased search;
/// in particular a line holding the trimmed search verbatim always matches.
pub proof fn lemma_log_search_ignores_case(raw: Seq<char>, search: Seq<char>, k: int)
    requires
        0 <= k < scanned_lines(raw).len(),
    ensures
        matching_lines(raw, search).contains(scanned_lines(raw)[k]) <==> (to_lower(trim(search)).len() == 0
            || contains_seq(to_lower(scanned_lines(raw)[k]), to_lower(trim(search)))),
        contains_seq(scanned_lines(raw)[k], trim(search)) ==> matching_lines(raw, search).contains(
            scanned_lines(raw)[k],
        ),
{
    let lines = scanned_lines(raw);
    let l = lines[k];
    let q = to_lower(trim(search));
    if q.len() == 0 {
        assert(lines.contains(l));
    } else {
        let p = matches_query(q);
        if contains_seq(to_lower(l), q) {
            lines.lemma_filter_contains(p, k);
        }
        if lines.filter(p).contains(l) {
            let j = choose|j: int| 0 <= j < lines.filter(p).len() && lines.filter(p)[j] == l;
            lines.lemma_filter_pred(p, j);
        }
    }
    if contains_seq(l, trim(search)) {
        crate::text::lemma_lower_keeps_occurrence(l, trim(search));
        if q.len() > 0 {
            lines.lemma_filter_contains(matches_query(q), k);
        } else {
            assert(lines.contains(l));
        }
    }
}

/// Pages needed for `total` lines, at least one.
pub open spec fn page_count(total: int, per_page: int) -> int {
    let t = if total < 1 {
        1
    } else {
        total
    };
    let c = (t + per_page - 1) / per_page;
    if c < 1 {
        1
    } else {
        c
    }
}

/// The page shown: the requested one (at least 1), at most the last page.
pub open spec fn shown_page(page: usize, total: int, per_page: int) -> int {
    let p = if page < 1 {
        1
    } else {
        page as int
    };
    if p > page_count(total, per_page) {
        page_count(total, per_page)
    } else {
        p
    }
}


/// The message shown with a page.
pub open spec fn page_message(path: Seq<char>, search: Seq<char>, page: int, pages: int, total: int) -> Seq<char> {
    if total == 0 && trim(search).len() == 0 {
        "Source: "@ + path + " (file exists but is empty). Generate traffic and refresh."@
    } else if total == 0 {
        "No lines matched search in "@ + path
    } else {
        "Source: "@ + path + " (showing page "@ + crate::text::dec(page as nat) + " of "@ + crate::text::dec(
            pages as nat,
        ) + ", "@ + crate::text::dec(total as nat) + " matching lines)"@
    }
}

/// What a page of the log viewer holds: the site, kind, path and trimmed search; for a
/// missing file an empty first page; otherwise the matching lines of the page shown.
pub open spec fn log_page_spec(
    p: LogPagePayload,
    site: SiteRecord,
    kind: Seq<char>,
    search: Seq<char>,
    page: usize,
    per_page: usize,
    path: Seq<char>,
    contents: Option<Seq<char>>,
) -> bool {
    let per = clamp_per_page_spec(per_page);
    &&& p.ok
    &&& p.domain@ == site.domain@
    &&& p.kind@ == kind
    &&& p.path@ == path
    &&& p.search@ == trim(search)
    &&& p.per_page == per
    &&& match contents {
        None => {
            &&& p.page == 1
            &&& p.total_lines == 0
            &&& p.total_pages == 1
            &&& p.lines@.len() == 0
            &&& p.empty
            &&& p.message@ == "No "@ + kind + " log file yet. Expected path: "@ + path
        },
        Some(raw) => {
            let m = matching_lines(raw, search);
            let total = m.len() as int;
            let pages = page_count(total, per as int);
            let shown = shown_page(page, total, per as int);
            let start = (shown - 1) * per;
            &&& p.total_lines == total
            &&& p.total_pages == pages
            &&& p.page == shown
            &&& crate::text::string_views(p.lines@) == (if start >= total {
                Seq::<Seq<char>>::empty()
            } else if start + per >= total {
                m.subrange(start, total)
            } else {
                m.subrange(start, start + per)
            })
            &&& p.empty == (total == 0)
            &&& p.message@ == page_message(path, search, shown, pages, total)
        },
    }
}

fn dec_text(n: usize) -> (r: String)
    ensures
        r@ == crate::text::dec(n as nat),
{
    crate::text::dec_string(n as u64)
}

/// Paginated, searchable view of the jailed site log (no foreign paths). `contents` is the
/// tail of the log file as read (at most `LOG_SCAN_BYTES`), `None` when there is no file;
/// `canon` holds the canonical forms of the `logs` directory and of the log path.
#[verifier::rlimit(60)]
#[verifier::spinoff_prover]
pub fn query_site_log_page(
    site: &SiteRecord,
    kind: &str,
    search: &str,
    page: usize,
    per_page: usize,
    canon: &CanonicalPaths,
    contents: Option<&str>,
) -> (r: Result<LogPagePayload, String>)
    ensures
        log_path_for_kind_spec(*site, kind@) matches Err(e) ==> (r matches Err(x) && x@ == e),
        log_path_for_kind_spec(*site, kind@) matches Ok(path) ==> {
            let allowed = path_allowed_spec(
                *site,
                path,
                crate::text::opt_string_view(&canon.logs_dir),
                crate::text::opt_string_view(&canon.path),
            );
            &&& !allowed ==> (r matches Err(x) && x@ == "Log path is not allowlisted for this domain"@)
            &&& allowed ==> (r matches Ok(p) && log_page_spec(
                p,
                *site,
                kind@,
                search@,
                page,
                per_page,
                path,
                crate::text::opt_view(contents),
            ))
        },
{
    let path = match site_log_path_for_kind(site, kind) {
        Ok(p) => p,
        Err(e) => return Err(e),
    };
    if !path_allowed(site, path.as_str(), canon) {
        return Err("Log path is not allowlisted for this domain".to_owned());
    }
    let per = clamp_per_page(per_page);
    let pg: usize = if page < 1 {
        1
    } else {
        page
    };
    let search_trim = crate::text::trim_str(search);
    let search_lc = crate::text::lower_str(search_trim.as_str());
    let raw = match contents {
        None => {
            let mut message = "No ".to_owned();
            message.append(kind);
            message.append(" log file yet. Expected path: ");
            message.append(path.as_str());
            return Ok(LogPagePayload {
                ok: true,
                domain: site.domain.clone(),
                kind: kind.to_owned(),
                path,
                search: search_trim,
                page: 1,
                per_page: per,
                total_lines: 0,
                total_pages: 1,
                lines: Vec::new(),
                empty: true,
                message,
            });
        },
        Some(raw) => raw,
    };
    let all_lines = lines_vec(&chars_of(raw));
    let ghost all = views(all_lines@);
    let first: usize = if all_lines.len() > LOG_SCAN_LINES {
        all_lines.len() - LOG_SCAN_LINES
    } else {
        0
    };
    assert(all.skip(first as int) =~= scanned_lines(raw@));
    let ghost scanned = scanned_lines(raw@);
    let ghost q = search_lc@;
    let mut kept: Vec<String> = Vec::new();
    let mut i = first;
    proof {
        assert(scanned.take(0) =~= Seq::<Seq<char>>::empty());
        crate::text::lemma_filter_empty(matches_query(q));
    }
    while i < all_lines.len()
        invariant
            first <= i <= all_lines.len(),
            all == views(all_lines@),
            scanned == all.skip(first as int),
            q == search_lc@,
            crate::text::string_views(kept@) == (if q.len() == 0 {
                scanned.take(i - first)
            } else {
                scanned.take(i - first).filter(matches_query(q))
            }),
        decreases all_lines.len() - i,
    {
        let line = string_of_chars(&all_lines[i]);
        assert(scanned[i - first] == all[i as int]);
        proof {
            assert(scanned.take(i - first + 1) =~= scanned.take(i - first).push(scanned[i - first]));
            crate::text::lemma_filter_push(scanned.take(i - first), matches_query(q), scanned[i - first]);
        }
        let keep = if search_lc.as_str().is_empty() {
            true
        } else {
            let low = crate::text::lower_str(line.as_str());
            crate::text::contains_str(low.as_str(), search_lc.as_str())
        };
        let ghost before = crate::text::string_views(kept@);
        if keep {
            kept.push(line);
            assert(crate::text::string_views(kept@) =~= before.push(all[i as int]));
        }
        i += 1;
    }
    assert(scanned.take(all_lines.len() - first) =~= scanned);
    let ghost m = matching_lines(raw@, search@);
    assert(crate::text::string_views(kept@) == m);
    proof {
        if q.len() > 0 {
            scanned.lemma_filter_len(matches_query(q));
        }
    }
    let total = kept.len();
    assert(total <= LOG_SCAN_LINES);
    let t: usize = if total < 1 {
        1
    } else {
        total
    };
    let pages_raw: usize = (t + per - 1) / per;
    let pages: usize = if pages_raw < 1 {
        1
    } else {
        pages_raw
    };
    assert(pages_raw <= t) by (nonlinear_arith)
        requires
            t >= 1,
            per >= 1,
            pages_raw as int == (t + per - 1) as int / per as int,
    ;
    let shown: usize = if pg > pages {
        pages
    } else {
        pg
    };
    assert((shown - 1) * per <= 5000 * 50) by (nonlinear_arith)
        requires
            shown <= 5000,
            per <= 50,
            shown >= 1,
    ;
    let start: usize = (shown - 1) * per;
    let mut page_lines: Vec<String> = Vec::new();
    let end: usize = if start >= total {
        start
    } else if start + per >= total {
        total
    } else {
        start + per
    };
    let mut j = start;
    assert(start < total ==> crate::text::string_views(page_lines@) =~= crate::text::string_views(kept@).subrange(
        start as int,
        start as int,
    ));
    while j < end
        invariant
            start <= j <= end,
            start < total ==> end <= total,
            start >= total ==> end == start,
            total == kept.len(),
            start < total ==> crate::text::string_views(page_lines@) == crate::text::string_views(kept@).subrange(
                start as int,
                j as int,
            ),
            start >= total ==> page_lines@.len() == 0,
        decreases end - j,
    {
        let ghost before = crate::text::string_views(page_lines@);
        page_lines.push(kept[j].clone());
        assert(crate::text::string_views(page_lines@) =~= crate::text::string_views(kept@).subrange(
            start as int,
            j + 1,
        ));
        j += 1;
    }
    proof {
        if start >= total {
            assert(crate::text::string_views(page_lines@) =~= Seq::<Seq<char>>::empty());
        }
    }
    let empty = total == 0;
    let message = if empty && search_trim.as_str().is_empty() {
        let mut m = "Source: ".to_owned();
        m.append(path.as_str());
        m.append(" (file exists but is empty). Generate traffic and refresh.");
        m
    } else if empty {
        let mut m = "No lines matched search in ".to_owned();
        m.append(path.as_str());
        m
    } else {
        let mut m = "Source: ".to_owned();
        m.append(path.as_str());
        m.append(" (showing page ");
        m.append(dec_text(shown).as_str());
        m.append(" of ");
        m.append(dec_text(pages).as_str());
        m.append(", ");
        m.append(dec_text(total).as_str());
        m.append(" matching lines)");
        m
    };
    Ok(LogPagePayload {
        ok: true,
        domain: site.domain.clone(),
        kind: kind.to_owned(),
        path,
        search: search_trim,
        page: shown,
        per_page: per,
        total_lines: total,
        total_pages: pages,
        lines: page_lines,
        empty,
        message,
    })
}


/// The JSON endpoint that serves log pages to Manage > Logs.
pub const LOGS_ROUTE: &'static str = "/api/websites/manage/logs";

/// The endpoint that serves Manage Overview metrics.
pub const METRICS_ROUTE: &'static str = "/api/websites/manage/metrics";

/// A log page request: the site, the log (`access` by default), a search text, and the page
/// (1 by default) with its size (25 by default).
pub struct LogsQuery {
    pub domain: String,
    pub kind: String,
    pub search: String,
    pub page: usize,
    pub per_page: usize,
}

/// A request for a site's log with the defaults for what it leaves out.
pub fn logs_query(domain: &str, kind: Option<&str>, search: Option<&str>, page: Option<usize>, per_page: Option<usize>) -> (r: LogsQuery)
    ensures
        r.domain@ == domain@,
        r.kind@ == (match kind {
            Some(k) => k@,
            None => "access"@,
        }),
        r.search@ == (match search {
            Some(q) => q@,
            None => ""@,
        }),
        r.page == (match page {
            Some(p) => p,
            None => 1,
        }),
        r.per_page == (match per_page {
            Some(p) => p,
            None => 25,
        }),
{
    proof {
        reveal_strlit("");
    }
    LogsQuery {
        domain: domain.to_owned(),
        kind: match kind {
            Some(k) => k.to_owned(),
            None => "access".to_owned(),
        },
        search: match search {
            Some(q) => q.to_owned(),
            None => String::new(),
        },
        page: match page {
            Some(p) => p,
            None => 1,
        },
        per_page: match per_page {
            Some(p) => p,
            None => 25,
        },
    }
}

/// The log a request names: its kind trimmed and lower-cased, which must be `access` or
/// `error`.
pub open spec fn route_kind_spec(kind: Seq<char>) -> Result<Seq<char>, Seq<char>> {
    let k = to_lower(trim(kind));
    if k == "access"@ || k == "error"@ {
        Ok(k)
    } else {
        Err("kind must be access or error"@)
    }
}

pub fn log_route_kind(kind: &str) -> (r: Result<String, String>)
    ensures
        match r {
            Ok(k) => route_kind_spec(kind@) == Ok::<Seq<char>, Seq<char>>(k@),
            Err(e) => route_kind_spec(kind@) == Err::<Seq<char>, Seq<char>>(e@),
        },
{
    let t = crate::text::trim_str(kind);
    let k = crate::text::lower_str(t.as_str());
    if str_eq(k.as_str(), "access") || str_eq(k.as_str(), "error") {
        Ok(k)
    } else {
        Err("kind must be access or error".to_owned())
    }
}

} // verus!
