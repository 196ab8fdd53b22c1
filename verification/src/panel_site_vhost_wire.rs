//! OpenLiteSpeed/LiteSpeed and nginx vhost wiring so site access/error logs are written:
//! the vhost name, the vhost configuration, the listener map entry, and the report.
//! Reading and writing the server configuration is done by the caller.

use vstd::prelude::*;
use vstd::string::*;
use crate::text::{
    chars_of, contains_seq, first_index, find_first, find_last, last_index, push_char,
    string_of_range, string_views, trim, trim_end, vec_range,
};

verus! {

/// A character kept in a vhost name.
pub open spec fn vhost_char(c: char) -> bool {
    let u = c as u32;
    (48 <= u && u <= 57) || (65 <= u && u <= 90) || (97 <= u && u <= 122) || c == '.' || c == '-'
        || c == '_'
}

/// The domain with every other character replaced by `_`.
pub open spec fn safe_vhost_name_spec(domain: Seq<char>) -> Seq<char> {
    domain.map_values(|c: char| if vhost_char(c) { c } else { '_' })
}

pub fn safe_vhost_name(domain: &str) -> (r: String)
    ensures
        r@ == safe_vhost_name_spec(domain@),
{
    let v = chars_of(domain);
    let mut out = String::new();
    let mut i: usize = 0;
    while i < v.len()
        invariant
            i <= v.len(),
            v@ == domain@,
            out@ == v@.take(i as int).map_values(|c: char| if vhost_char(c) { c } else { '_' }),
        decreases v.len() - i,
    {
        let c = v[i];
        let u: u32 = c as u32;
        if (48 <= u && u <= 57) || (65 <= u && u <= 90) || (97 <= u && u <= 122) || c == '.' || c == '-'
            || c == '_' {
            push_char(&mut out, c);
        } else {
            push_char(&mut out, '_');
        }
        assert(v@.take(i + 1).map_values(|c: char| if vhost_char(c) { c } else { '_' }) =~= v@.take(
            i as int,
        ).map_values(|c: char| if vhost_char(c) { c } else { '_' }).push(
            if vhost_char(c) { c } else { '_' },
        ));
        i += 1;
    }
    assert(v@.take(v.len() as int) =~= v@);
    out
}

/// The OpenLiteSpeed `vhconf.conf` of a site: document root, index files, error and access
/// logs, and `.htaccess` rewrites.
pub open spec fn ols_vhconf_spec(docroot: &str, access_log: &str, error_log: &str) -> Seq<char> {
    "docRoot                   "@ + docroot@ + "/\nenableGzip                1\nindex  {\nuseServer               0\nindexFiles              index.html, index.php\n}\nerrorlog "@ + error_log@ + " {\nlogLevel                ERROR\nrollingSize             10M\nuseServer               0\n}\naccessLog "@ + access_log@ + " {\nrollingSize             10M\nkeepDays                30\ncompressArchive         0\nlogReferer              1\nlogUserAgent            1\nuseServer               0\n}\ncontext / {\nallowBrowse             1\nlocation                "@ + docroot@ + "/\nrewrite  {\nenable                1\nRewriteFile           .htaccess\n}\n}\n"@
}

#[verifier::rlimit(60)]
#[verifier::spinoff_prover]
pub fn ols_vhconf(docroot: &str, access_log: &str, error_log: &str) -> (r: String)
    ensures
        r@ == ols_vhconf_spec(docroot, access_log, error_log),
{
    let mut out = "docRoot                   ".to_owned();
    out.append(docroot);
    out.append("/\nenableGzip                1\nindex  {\nuseServer               0\nindexFiles              index.html, index.php\n}\nerrorlog ");
    out.append(error_log);
    out.append(" {\nlogLevel                ERROR\nrollingSize             10M\nuseServer               0\n}\naccessLog ");
    out.append(access_log);
    out.append(" {\nrollingSize             10M\nkeepDays                30\ncompressArchive         0\nlogReferer              1\nlogUserAgent            1\nuseServer               0\n}\ncontext / {\nallowBrowse             1\nlocation                ");
    out.append(docroot);
    out.append("/\nrewrite  {\nenable                1\nRewriteFile           .htaccess\n}\n}\n");
    proof {
        assert(out@ =~= ols_vhconf_spec(docroot, access_log, error_log));
    }
    out
}

/// Where the listener block of `listener` ends: the first `\n}` after `listener <name>`.
pub open spec fn listener_block_end(conf: Seq<char>, listener: Seq<char>) -> Option<int> {
    match first_index(conf, "listener "@ + listener) {
        None => None,
        Some(start) => match first_index(conf.skip(start), "\n}"@) {
            None => None,
            Some(end_rel) => Some(start + end_rel),
        },
    }
}

/// The configuration with `map_line` added to the listener block: `None` when the trimmed
/// line is already present or the listener block is not found; otherwise the line goes
/// before the last `map ` of the block when a `*` follows it (the catch-all), else at the
/// end of the block.
pub open spec fn insert_map_spec(conf: Seq<char>, listener: Seq<char>, map_line: Seq<char>) -> Option<Seq<char>> {
    if contains_seq(conf, trim(map_line)) {
        None
    } else {
        match listener_block_end(conf, listener) {
            None => None,
            Some(block_end) => {
                let before = conf.take(block_end);
                let after = conf.skip(block_end);
                match last_index(before, "map "@) {
                    Some(catch) if before.skip(catch).contains('*') => Some(
                        before.take(catch) + map_line + (if map_line.len() > 0 && map_line.last()
                            == '\n' {
                            ""@
                        } else {
                            "\n"@
                        }) + before.skip(catch) + after,
                    ),
                    _ => Some(before + "\n"@ + trim_end(map_line) + "\n"@ + after),
                }
            },
        }
    }
}

fn has_char_from(v: &Vec<char>, a: usize, c: char) -> (r: bool)
    requires
        a <= v.len(),
    ensures
        r == v@.skip(a as int).contains(c),
{
    let mut i = a;
    while i < v.len()
        invariant
            a <= i <= v.len(),
            forall|j: int| a <= j < i ==> v@[j] != c,
        decreases v.len() - i,
    {
        if v[i] == c {
            assert(v@.skip(a as int)[i - a] == c);
            return true;
        }
        i += 1;
    }
    proof {
        if v@.skip(a as int).contains(c) {
            let j = choose|j: int| 0 <= j < v@.skip(a as int).len() && v@.skip(a as int)[j] == c;
            assert(v@[a + j] == c);
        }
    }
    false
}

#[verifier::rlimit(60)]
#[verifier::spinoff_prover]
pub fn insert_map_before_catchall(conf: &str, listener: &str, map_line: &str) -> (r: Option<String>)
    ensures
        crate::text::opt_string_view(&r) == insert_map_spec(conf@, listener@, map_line@),
{
    let cv = chars_of(conf);
    let mv = chars_of(map_line);
    let trimmed = crate::text::trim_str(map_line);
    if crate::text::contains_str(conf, trimmed.as_str()) {
        return None;
    }
    let mut marker = "listener ".to_owned();
    marker.append(listener);
    let start = match find_first(&cv, &chars_of(marker.as_str())) {
        Some(s) => s,
        None => return None,
    };
    let rest = vec_range(&cv, start, cv.len());
    assert(rest@ =~= cv@.skip(start as int));
    let end_rel = match find_first(&rest, &chars_of("\n}")) {
        Some(e) => e,
        None => return None,
    };
    proof {
        crate::text::lemma_first_index_bound(rest@, "\n}"@);
    }
    let block_end = start + end_rel;
    let before = vec_range(&cv, 0, block_end);
    assert(before@ =~= cv@.take(block_end as int));
    let after = string_of_range(&cv, block_end, cv.len());
    assert(after@ =~= cv@.skip(block_end as int));
    let catch = find_last(&before, &chars_of("map "));
    if let Some(k) = catch {
        if has_char_from(&before, k, '*') {
            let mut out = string_of_range(&before, 0, k);
            out.append(map_line);
            if !(mv.len() > 0 && mv[mv.len() - 1] == '\n') {
                out.append("\n");
            }
            let tail = string_of_range(&before, k, before.len());
            out.append(tail.as_str());
            out.append(after.as_str());
            proof {
                reveal_strlit("");
                reveal_strlit("\n");
                assert(before@.subrange(0, k as int) =~= before@.take(k as int));
                assert(before@.subrange(k as int, before@.len() as int) =~= before@.skip(k as int));
            }
            return Some(out);
        }
    }
    let mut out = string_of_range(&before, 0, before.len());
    assert(before@.subrange(0, before@.len() as int) =~= before@);
    out.append("\n");
    let te = crate::text::trim_end_index(&mv);
    let t = string_of_range(&mv, 0, te);
    out.append(t.as_str());
    out.append("\n");
    out.append(after.as_str());
    Some(out)
}

/// The `virtualHost` block registering a site's vhost in the server configuration.
pub open spec fn vhost_block_spec(vh_name: Seq<char>, home: Seq<char>) -> Seq<char> {
    "\nvirtualHost "@ + vh_name + " {\n  vhRoot                  "@ + home
        + "/\n  configFile              $SERVER_ROOT/conf/vhosts/"@ + vh_name
        + "/vhconf.conf\n  allowSymbolLink         1\n  enableScript            1\n  restrained              1\n}\n"@
}

/// The listener map entry of a site.
pub open spec fn map_line_spec(vh_name: Seq<char>, domain: Seq<char>) -> Seq<char> {
    "  map                      "@ + vh_name + " "@ + domain + "\n"@
}

/// The server configuration after wiring a site's vhost: the `virtualHost` block appended
/// when missing, and the map entry added to the `CPNHttp` listener, else to `Default`.
/// The flag says whether anything changed.
pub open spec fn wire_conf_spec(conf: Seq<char>, vh_name: Seq<char>, home: Seq<char>, domain: Seq<char>) -> (Seq<
    char,
>, bool) {
    let has_block = contains_seq(conf, "virtualHost "@ + vh_name);
    let c1 = if has_block {
        conf
    } else {
        conf + vhost_block_spec(vh_name, home)
    };
    let line = map_line_spec(vh_name, domain);
    match insert_map_spec(c1, "CPNHttp"@, line) {
        Some(c2) => (c2, true),
        None => match insert_map_spec(c1, "Default"@, line) {
            Some(c3) => (c3, true),
            None => (c1, !has_block),
        },
    }
}

#[verifier::rlimit(60)]
#[verifier::spinoff_prover]
pub fn wire_vhost_conf(conf: &str, vh_name: &str, home: &str, domain: &str) -> (r: (String, bool))
    ensures
        (r.0@, r.1) == wire_conf_spec(conf@, vh_name@, home@, domain@),
{
    let mut probe = "virtualHost ".to_owned();
    probe.append(vh_name);
    let has_block = crate::text::contains_str(conf, probe.as_str());
    let mut c1 = conf.to_owned();
    if !has_block {
        c1.append("\nvirtualHost ");
        c1.append(vh_name);
        c1.append(" {\n  vhRoot                  ");
        c1.append(home);
        c1.append("/\n  configFile              $SERVER_ROOT/conf/vhosts/");
        c1.append(vh_name);
        c1.append(
            "/vhconf.conf\n  allowSymbolLink         1\n  enableScript            1\n  restrained              1\n}\n",
        );
    }
    assert(c1@ =~= (if has_block {
        conf@
    } else {
        conf@ + vhost_block_spec(vh_name@, home@)
    }));
    let mut line = "  map                      ".to_owned();
    line.append(vh_name);
    line.append(" ");
    line.append(domain);
    line.append("\n");
    assert(line@ =~= map_line_spec(vh_name@, domain@));
    if let Some(c2) = insert_map_before_catchall(c1.as_str(), "CPNHttp", line.as_str()) {
        return (c2, true);
    }
    if let Some(c3) = insert_map_before_catchall(c1.as_str(), "Default", line.as_str()) {
        return (c3, true);
    }
    (c1, !has_block)
}

/// The report after wiring: one note per web stack that changed or failed, joined by `; `,
/// or `Site log files ready` when there is none.
pub open spec fn vhost_report_spec(ols: Result<bool, Seq<char>>, nginx: Result<bool, Seq<char>>) -> Seq<char> {
    let n1: Seq<Seq<char>> = match ols {
        Ok(true) => seq!["OpenLiteSpeed/LiteSpeed vhost log paths updated"@],
        Ok(false) => Seq::empty(),
        Err(e) => seq!["LiteSpeed wire skipped: "@ + e],
    };
    let n2 = match nginx {
        Ok(true) => n1.push("nginx site log paths updated"@),
        Ok(false) => n1,
        Err(e) => n1.push("nginx wire skipped: "@ + e),
    };
    if n2.len() == 0 {
        "Site log files ready"@
    } else {
        crate::text::join_spec(n2, "; "@)
    }
}

/// The characters of a result with a text error.
pub open spec fn bool_result_view(r: Result<bool, String>) -> Result<bool, Seq<char>> {
    match r {
        Ok(b) => Ok(b),
        Err(e) => Err(e@),
    }
}

/// The report of making the web stacks write a site's logs, from the outcomes of the
/// LiteSpeed wiring and of the nginx wiring (`Ok(true)` when something changed).
pub fn ensure_site_vhost_logging(ols: Result<bool, String>, nginx: Result<bool, String>) -> (r: String)
    ensures
        r@ == vhost_report_spec(bool_result_view(ols), bool_result_view(nginx)),
{
    let ghost ov = bool_result_view(ols);
    let ghost nv = bool_result_view(nginx);
    let mut notes: Vec<String> = Vec::new();
    match ols {
        Ok(true) => notes.push("OpenLiteSpeed/LiteSpeed vhost log paths updated".to_owned()),
        Ok(false) => {},
        Err(err) => {
            let mut m = "LiteSpeed wire skipped: ".to_owned();
            m.append(err.as_str());
            notes.push(m);
        },
    }
    let ghost n1 = string_views(notes@);
    assert(n1 =~= (match ov {
        Ok(true) => seq!["OpenLiteSpeed/LiteSpeed vhost log paths updated"@],
        Ok(false) => Seq::<Seq<char>>::empty(),
        Err(e) => seq!["LiteSpeed wire skipped: "@ + e],
    }));
    match nginx {
        Ok(true) => notes.push("nginx site log paths updated".to_owned()),
        Ok(false) => {},
        Err(err) => {
            let mut m = "nginx wire skipped: ".to_owned();
            m.append(err.as_str());
            notes.push(m);
        },
    }
    assert(string_views(notes@) =~= (match nv {
        Ok(true) => n1.push("nginx site log paths updated"@),
        Ok(false) => n1,
        Err(e) => n1.push("nginx wire skipped: "@ + e),
    }));
    if notes.len() == 0 {
        "Site log files ready".to_owned()
    } else {
        crate::text::join_strings(&notes, "; ")
    }
}

} // verus!
