//! Allowlisted git operations scoped to a site home / docroot: which directory git runs in,
//! which commands an action runs, what may be passed to them, and how their output reads.
//! Running git and looking at the file system are done by the caller.

use vstd::prelude::*;
use vstd::string::*;
use vstd::utf8::encode_utf8;
use crate::site::SiteRecord;
use crate::text::{
    chars_of, is_ws, lower_vec, str_eq, string_of_chars, string_views, to_lower, trim,
    trim_bounds, trim_str, vec_range,
};

verus! {

/// Longest commit message accepted, in bytes.
pub const MAX_COMMIT_MSG: usize = 200;

/// What a failed git command with no output reports.
pub const GIT_TIMEOUT_HINT: &'static str = "git command failed or timed out";

/// Prefer an existing `.git` under docroot, else site home, else docroot for init/clone
/// (when the docroot is a directory), else the home.
pub open spec fn git_workdir_spec(site: SiteRecord, doc_has_git: bool, home_has_git: bool, doc_is_dir: bool) -> Seq<
    char,
> {
    if doc_has_git {
        site.docroot@
    } else if home_has_git {
        site.home@
    } else if doc_is_dir {
        site.docroot@
    } else {
        site.home@
    }
}

/// The directory git runs in for `site`, given whether `.git` exists under the docroot and
/// under the home, and whether the docroot is a directory.
pub fn git_workdir(site: &SiteRecord, doc_has_git: bool, home_has_git: bool, doc_is_dir: bool) -> (r: String)
    ensures
        r@ == git_workdir_spec(*site, doc_has_git, home_has_git, doc_is_dir),
{
    if doc_has_git {
        return site.docroot.clone();
    }
    if home_has_git {
        return site.home.clone();
    }
    if doc_is_dir {
        site.docroot.clone()
    } else {
        site.home.clone()
    }
}

/// `char::is_control`: the C0 and C1 control characters.
pub open spec fn is_control(c: char) -> bool {
    (c as u32) <= 0x1F || (0x7F <= (c as u32) && (c as u32) <= 0x9F)
}

/// The commit message after checks: trimmed, present, at most 200 bytes, no line breaks or
/// other control characters.
pub open spec fn commit_message_spec(raw: Seq<char>) -> Result<Seq<char>, Seq<char>> {
    let msg = trim(raw);
    if msg.len() == 0 {
        Err("Commit message is required"@)
    } else if encode_utf8(msg).len() > MAX_COMMIT_MSG {
        Err("Commit message max 200 characters"@)
    } else if exists|i: int| 0 <= i < msg.len() && is_control(#[trigger] msg[i]) {
        Err("Commit message cannot include control characters"@)
    } else {
        Ok(msg)
    }
}

pub fn sanitize_commit_message(raw: &str) -> (r: Result<String, String>)
    ensures
        r is Ok <==> commit_message_spec(raw@) is Ok,
        r matches Ok(m) ==> commit_message_spec(raw@) == Ok::<Seq<char>, Seq<char>>(m@),
        r matches Err(e) ==> commit_message_spec(raw@) == Err::<Seq<char>, Seq<char>>(e@),
{
    let v = chars_of(raw);
    let (a, b) = trim_bounds(&v);
    let msg = vec_range(&v, a, b);
    if msg.len() == 0 {
        return Err("Commit message is required".to_owned());
    }
    if crate::text::utf8_len_exceeds(&msg, 200) {
        return Err("Commit message max 200 characters".to_owned());
    }
    let mut i: usize = 0;
    while i < msg.len()
        invariant
            i <= msg.len(),
            msg@ == trim(raw@),
            msg@.len() > 0,
            !(encode_utf8(msg@).len() > MAX_COMMIT_MSG),
            forall|j: int| 0 <= j < i ==> !is_control(#[trigger] msg@[j]),
        decreases msg.len() - i,
    {
        let u: u32 = msg[i] as u32;
        if u <= 0x1F || (0x7F <= u && u <= 0x9F) {
            assert(is_control(msg@[i as int]));
            return Err("Commit message cannot include control characters".to_owned());
        }
        i += 1;
    }
    Ok(string_of_chars(&msg))
}

/// A character a remote URL may hold: ASCII letters and digits and `. / - _ : @`.
pub open spec fn remote_char(c: char) -> bool {
    let u = c as u32;
    (48 <= u && u <= 57) || (65 <= u && u <= 90) || (97 <= u && u <= 122) || c == '.' || c == '/'
        || c == '-' || c == '_' || c == ':' || c == '@'
}

pub open spec fn all_remote_chars(s: Seq<char>) -> bool {
    forall|i: int| 0 <= i < s.len() ==> remote_char(#[trigger] s[i])
}

/// Allow only https remotes with a conservative character set (no shell metacharacters).
pub open spec fn remote_url_spec(raw: Seq<char>) -> Result<Seq<char>, Seq<char>> {
    let url = trim(raw);
    let lower = to_lower(url);
    if url.len() == 0 {
        Err("Remote URL is required"@)
    } else if encode_utf8(url).len() > 512 {
        Err("Remote URL is too long"@)
    } else if !"https://"@.is_prefix_of(lower) {
        Err("Remote URL must start with https://"@)
    } else if url.skip(8).len() == 0 || !all_remote_chars(url.skip(8)) {
        Err("Remote URL contains unsupported characters"@)
    } else {
        Ok(url)
    }
}

fn all_remote_from(v: &Vec<char>, a: usize) -> (r: bool)
    requires
        a <= v.len(),
    ensures
        r == all_remote_chars(v@.skip(a as int)),
{
    let mut i = a;
    while i < v.len()
        invariant
            a <= i <= v.len(),
            forall|j: int| a <= j < i ==> remote_char(#[trigger] v@[j]),
        decreases v.len() - i,
    {
        let c = v[i];
        let u: u32 = c as u32;
        if !((48 <= u && u <= 57) || (65 <= u && u <= 90) || (97 <= u && u <= 122) || c == '.' || c
            == '/' || c == '-' || c == '_' || c == ':' || c == '@') {
            assert(v@.skip(a as int)[i - a] == v@[i as int]);
            return false;
        }
        i += 1;
    }
    assert forall|j: int| 0 <= j < v@.skip(a as int).len() implies remote_char(
        #[trigger] v@.skip(a as int)[j],
    ) by {
        assert(v@.skip(a as int)[j] == v@[a + j]);
    }
    true
}

pub fn validate_remote_url(raw: &str) -> (r: Result<String, String>)
    ensures
        r is Ok <==> remote_url_spec(raw@) is Ok,
        r matches Ok(u) ==> remote_url_spec(raw@) == Ok::<Seq<char>, Seq<char>>(u@),
        r matches Err(e) ==> remote_url_spec(raw@) == Err::<Seq<char>, Seq<char>>(e@),
{
    proof {
        reveal_strlit("https://");
    }
    let v = chars_of(raw);
    let (a, b) = trim_bounds(&v);
    let url = vec_range(&v, a, b);
    if url.len() == 0 {
        return Err("Remote URL is required".to_owned());
    }
    if crate::text::utf8_len_exceeds(&url, 512) {
        return Err("Remote URL is too long".to_owned());
    }
    let lower = lower_vec(&url);
    let https = crate::text::match_at(&lower, &chars_of("https://"), 0);
    proof {
        if "https://"@.is_prefix_of(to_lower(url@)) {
            assert(lower@.subrange(0, 8) =~= "https://"@);
        }
    }
    if !https {
        return Err("Remote URL must start with https://".to_owned());
    }
    if url.len() == 8 || !all_remote_from(&url, 8) {
        return Err("Remote URL contains unsupported characters".to_owned());
    }
    Ok(string_of_chars(&url))
}

/// The allowlisted git actions.
#[derive(Clone, Copy, Debug, PartialEq, Eq, Structural)]
pub enum GitAction {
    Status,
    Remotes,
    Branches,
    Pull,
    Push,
    Init,
    Commit,
    Clone,
}

/// An action name, trimmed and in any ASCII case; `remote` and `branch` are accepted too.
pub open spec fn git_action_spec(raw: Seq<char>) -> Result<GitAction, Seq<char>> {
    let t = to_lower(trim(raw));
    if t == "status"@ {
        Ok(GitAction::Status)
    } else if t == "remotes"@ || t == "remote"@ {
        Ok(GitAction::Remotes)
    } else if t == "branches"@ || t == "branch"@ {
        Ok(GitAction::Branches)
    } else if t == "pull"@ {
        Ok(GitAction::Pull)
    } else if t == "push"@ {
        Ok(GitAction::Push)
    } else if t == "init"@ {
        Ok(GitAction::Init)
    } else if t == "commit"@ {
        Ok(GitAction::Commit)
    } else if t == "clone"@ {
        Ok(GitAction::Clone)
    } else {
        Err("Unknown git action"@)
    }
}

impl GitAction {
    pub fn parse(raw: &str) -> (r: Result<GitAction, String>)
        ensures
            r is Ok <==> git_action_spec(raw@) is Ok,
            r matches Ok(a) ==> git_action_spec(raw@) == Ok::<GitAction, Seq<char>>(a),
            r matches Err(e) ==> git_action_spec(raw@) == Err::<GitAction, Seq<char>>(e@),
    {
        let l = crate::text::lower_str(trim_str(raw).as_str());
        let t = l.as_str();
        if str_eq(t, "status") {
            Ok(GitAction::Status)
        } else if str_eq(t, "remotes") || str_eq(t, "remote") {
            Ok(GitAction::Remotes)
        } else if str_eq(t, "branches") || str_eq(t, "branch") {
            Ok(GitAction::Branches)
        } else if str_eq(t, "pull") {
            Ok(GitAction::Pull)
        } else if str_eq(t, "push") {
            Ok(GitAction::Push)
        } else if str_eq(t, "init") {
            Ok(GitAction::Init)
        } else if str_eq(t, "commit") {
            Ok(GitAction::Commit)
        } else if str_eq(t, "clone") {
            Ok(GitAction::Clone)
        } else {
            Err("Unknown git action".to_owned())
        }
    }
}

/// The argument lists of the git commands an action runs, in order, or why it is refused.
/// `has_git` says whether the working directory already holds `.git`.
pub open spec fn git_commands_spec(
    action: GitAction,
    commit_message: Option<Seq<char>>,
    remote_url: Option<Seq<char>>,
    has_git: bool,
) -> Result<Seq<Seq<Seq<char>>>, Seq<char>> {
    match action {
        GitAction::Status => Ok(seq![seq!["status"@, "--porcelain=v1"@, "-b"@]]),
        GitAction::Remotes => Ok(seq![seq!["remote"@, "-v"@]]),
        GitAction::Branches => Ok(seq![seq!["branch"@, "-vv"@]]),
        GitAction::Pull => Ok(seq![seq!["pull"@, "--ff-only"@]]),
        GitAction::Push => Ok(seq![seq!["push"@]]),
        GitAction::Init => if has_git {
            Err("Repository already initialized"@)
        } else {
            Ok(seq![seq!["init"@]])
        },
        GitAction::Commit => match commit_message_spec(
            match commit_message {
                Some(m) => m,
                None => ""@,
            },
        ) {
            Err(e) => Err(e),
            Ok(msg) => Ok(seq![seq!["add"@, "-A"@], seq!["commit"@, "-m"@, msg]]),
        },
        GitAction::Clone => match remote_url_spec(
            match remote_url {
                Some(u) => u,
                None => ""@,
            },
        ) {
            Err(e) => Err(e),
            Ok(url) => if has_git {
                Err("Cannot clone into a directory that already has .git"@)
            } else {
                Ok(seq![seq!["clone"@, "--depth"@, "1"@, url, "."@]])
            },
        },
    }
}

/// The views of a list of commands.
pub open spec fn commands_view(c: Seq<Vec<String>>) -> Seq<Seq<Seq<char>>> {
    c.map_values(|v: Vec<String>| string_views(v@))
}

fn command(parts: Vec<&str>) -> (r: Vec<String>)
    ensures
        string_views(r@) == parts@.map_values(|s: &str| s@),
{
    let mut out: Vec<String> = Vec::new();
    let mut i: usize = 0;
    while i < parts.len()
        invariant
            i <= parts.len(),
            string_views(out@) == parts@.take(i as int).map_values(|s: &str| s@),
        decreases parts.len() - i,
    {
        let ghost before = string_views(out@);
        out.push(parts[i].to_owned());
        assert(string_views(out@) =~= before.push(parts@[i as int]@));
        assert(parts@.take(i + 1).map_values(|s: &str| s@) =~= parts@.take(i as int).map_values(
            |s: &str| s@,
        ).push(parts@[i as int]@));
        i += 1;
    }
    assert(parts@.take(parts.len() as int) =~= parts@);
    out
}

/// The git commands `action` runs in its working directory.
pub fn git_action_commands(
    action: GitAction,
    commit_message: Option<&str>,
    remote_url: Option<&str>,
    has_git: bool,
) -> (r: Result<Vec<Vec<String>>, String>)
    ensures
        r is Ok <==> git_commands_spec(
            action,
            crate::text::opt_view(commit_message),
            crate::text::opt_view(remote_url),
            has_git,
        ) is Ok,
        r matches Ok(c) ==> git_commands_spec(
            action,
            crate::text::opt_view(commit_message),
            crate::text::opt_view(remote_url),
            has_git,
        ) == Ok::<Seq<Seq<Seq<char>>>, Seq<char>>(commands_view(c@)),
        r matches Err(e) ==> git_commands_spec(
            action,
            crate::text::opt_view(commit_message),
            crate::text::opt_view(remote_url),
            has_git,
        ) == Err::<Seq<Seq<Seq<char>>>, Seq<char>>(e@),
{
    let mut cmds: Vec<Vec<String>> = Vec::new();
    match action {
        GitAction::Status => {
            cmds.push(command(vec!["status", "--porcelain=v1", "-b"]));
        },
        GitAction::Remotes => {
            cmds.push(command(vec!["remote", "-v"]));
        },
        GitAction::Branches => {
            cmds.push(command(vec!["branch", "-vv"]));
        },
        GitAction::Pull => {
            cmds.push(command(vec!["pull", "--ff-only"]));
        },
        GitAction::Push => {
            cmds.push(command(vec!["push"]));
        },
        GitAction::Init => {
            if has_git {
                return Err("Repository already initialized".to_owned());
            }
            cmds.push(command(vec!["init"]));
        },
        GitAction::Commit => {
            let raw = match commit_message {
                Some(m) => m,
                None => "",
            };
            let msg = match sanitize_commit_message(raw) {
                Ok(m) => m,
                Err(e) => return Err(e),
            };
            cmds.push(command(vec!["add", "-A"]));
            cmds.push(command(vec!["commit", "-m", msg.as_str()]));
        },
        GitAction::Clone => {
            let raw = match remote_url {
                Some(u) => u,
                None => "",
            };
            let url = match validate_remote_url(raw) {
                Ok(u) => u,
                Err(e) => return Err(e),
            };
            if has_git {
                return Err("Cannot clone into a directory that already has .git".to_owned());
            }
            cmds.push(command(vec!["clone", "--depth", "1", url.as_str(), "."]));
        },
    }
    assert(commands_view(cmds@) =~~= git_commands_spec(
        action,
        crate::text::opt_view(commit_message),
        crate::text::opt_view(remote_url),
        has_git,
    )->Ok_0);
    Ok(cmds)
}

/// All whitespace (or empty).
pub open spec fn blank(s: Seq<char>) -> bool {
    trim(s).len() == 0
}

/// The combined output of a git command: standard output, then standard error on a new
/// line; a failure with no output reads as the timeout hint, a success with none as
/// `(ok, no output)`.
pub open spec fn git_output_spec(stdout: Seq<char>, stderr: Seq<char>, success: bool) -> Result<Seq<char>, Seq<char>> {
    let text = if stderr.len() == 0 {
        stdout
    } else if stdout.len() == 0 {
        stderr
    } else {
        stdout + "\n"@ + stderr
    };
    if !success {
        if blank(text) {
            Err(GIT_TIMEOUT_HINT@)
        } else {
            Err(text)
        }
    } else if blank(text) {
        Ok("(ok, no output)"@)
    } else {
        Ok(text)
    }
}

/// The result of a git command from its (already decoded) output and exit status.
pub fn git_output_result(stdout: &str, stderr: &str, success: bool) -> (r: Result<String, String>)
    ensures
        r is Ok <==> git_output_spec(stdout@, stderr@, success) is Ok,
        r matches Ok(t) ==> git_output_spec(stdout@, stderr@, success) == Ok::<Seq<char>, Seq<char>>(t@),
        r matches Err(t) ==> git_output_spec(stdout@, stderr@, success) == Err::<Seq<char>, Seq<char>>(t@),
{
    let mut text = String::new();
    if !stdout.is_empty() {
        text.append(stdout);
    }
    if !stderr.is_empty() {
        if !text.as_str().is_empty() {
            text.append("\n");
        }
        text.append(stderr);
    }
    let is_blank = trim_str(text.as_str()).as_str().is_empty();
    if !success {
        if is_blank {
            return Err(GIT_TIMEOUT_HINT.to_owned());
        }
        return Err(text);
    }
    if is_blank {
        Ok("(ok, no output)".to_owned())
    } else {
        Ok(text)
    }
}

/// A command's text for the snapshot: its output, or the fallback heading and the error.
pub open spec fn section_text(r: Result<Seq<char>, Seq<char>>, fallback: Seq<char>) -> Seq<char> {
    match r {
        Ok(t) => trim(t),
        Err(e) => trim(fallback + "\n"@ + e),
    }
}

/// The result's characters.
pub open spec fn result_view(r: Result<String, String>) -> Result<Seq<char>, Seq<char>> {
    match r {
        Ok(t) => Ok(t@),
        Err(e) => Err(e@),
    }
}

fn section(r: Result<String, String>, fallback: &str) -> (s: String)
    ensures
        s@ == section_text(result_view(r), fallback@),
{
    match r {
        Ok(t) => trim_str(t.as_str()),
        Err(e) => {
            let mut m = fallback.to_owned();
            m.append("\n");
            m.append(e.as_str());
            trim_str(m.as_str())
        },
    }
}

/// The snapshot text of a working directory from the results of `git status`,
/// `git remote -v` and `git branch -vv`.
pub open spec fn snapshot_spec(
    workdir: Seq<char>,
    status: Result<Seq<char>, Seq<char>>,
    remotes: Result<Seq<char>, Seq<char>>,
    branches: Result<Seq<char>, Seq<char>>,
) -> Seq<char> {
    "Workdir: "@ + workdir + "\n\n=== status ===\n"@ + section_text(status, "(status unavailable)"@)
        + "\n\n=== remotes ===\n"@ + section_text(remotes, "(no remotes)"@) + "\n\n=== branches ===\n"@
        + section_text(branches, "(no branches)"@)
}

#[verifier::rlimit(60)]
#[verifier::spinoff_prover]
pub fn snapshot(
    workdir: &str,
    status: Result<String, String>,
    remotes: Result<String, String>,
    branches: Result<String, String>,
) -> (r: String)
    ensures
        r@ == snapshot_spec(workdir@, result_view(status), result_view(remotes), result_view(branches)),
{
    let s = section(status, "(status unavailable)");
    let rm = section(remotes, "(no remotes)");
    let b = section(branches, "(no branches)");
    let mut out = "Workdir: ".to_owned();
    out.append(workdir);
    out.append("\n\n=== status ===\n");
    out.append(s.as_str());
    out.append("\n\n=== remotes ===\n");
    out.append(rm.as_str());
    out.append("\n\n=== branches ===\n");
    out.append(b.as_str());
    out
}

/// Most bytes of git output shown.
pub const MAX_OUTPUT: u64 = 65536;

/// The number of leading characters of `s` whose UTF-8 encoding is exactly `MAX_OUTPUT`
/// bytes, when there is such a prefix.
pub open spec fn cut_at(s: Seq<char>, k: int) -> bool {
    0 <= k <= s.len() && encode_utf8(s.take(k)).len() == MAX_OUTPUT
}

/// Output text as shown: unchanged up to `MAX_OUTPUT` bytes, else its first `MAX_OUTPUT`
/// bytes (`k` characters) and a truncation note.
pub open spec fn truncated_spec(s: Seq<char>, k: int) -> Seq<char> {
    if encode_utf8(s).len() <= MAX_OUTPUT {
        s
    } else {
        s.take(k) + "\n\u{2026}(truncated)"@
    }
}

/// Caps git output at `MAX_OUTPUT` bytes with a truncation note. The cut must fall between
/// characters.
pub fn truncate_text(s: &str) -> (r: String)
    requires
        encode_utf8(s@).len() <= MAX_OUTPUT || exists|k: int| cut_at(s@, k),
    ensures
        encode_utf8(s@).len() <= MAX_OUTPUT ==> r@ == s@,
        encode_utf8(s@).len() > MAX_OUTPUT ==> exists|k: int| cut_at(s@, k) && r@ == truncated_spec(s@, k),
{
    let v = chars_of(s);
    if !crate::text::utf8_len_exceeds(&v, MAX_OUTPUT) {
        return s.to_owned();
    }
    let mut sum: u64 = 0;
    let mut i: usize = 0;
    assert(v@.take(0) =~= Seq::<char>::empty());
    while sum < MAX_OUTPUT && i < v.len()
        invariant
            i <= v.len(),
            v@ == s@,
            sum <= MAX_OUTPUT,
            sum == encode_utf8(v@.take(i as int)).len(),
            exists|k: int| cut_at(s@, k),
            forall|k: int| cut_at(s@, k) ==> k >= i,
        decreases v.len() - i,
    {
        let w = crate::text::utf8_width(v[i]);
        proof {
            assert(v@.take(i + 1) =~= v@.take(i as int) + seq![v@[i as int]]);
            crate::text::lemma_encode_add_len(v@.take(i as int), seq![v@[i as int]]);
            assert forall|k: int| cut_at(s@, k) implies k >= i + 1 by {
                if k == i {
                    assert(sum == MAX_OUTPUT);
                }
            }
        }
        if w > MAX_OUTPUT - sum {
            proof {
                let k = choose|k: int| cut_at(s@, k);
                assert(k >= i + 1);
                assert(v@.take(k) =~= v@.take(i + 1) + v@.subrange(i + 1, k));
                crate::text::lemma_encode_add_len(v@.take(i + 1), v@.subrange(i + 1, k));
                assert(false);
            }
            return s.to_owned();
        }
        sum = sum + w;
        i += 1;
    }
    proof {
        if sum < MAX_OUTPUT {
            assert(v@.take(i as int) =~= v@);
            assert(false);
        }
        assert(cut_at(s@, i as int));
    }
    let mut out = crate::text::string_of_range(&v, 0, i);
    out.append("\n\u{2026}(truncated)");
    proof {
        assert(out@ == truncated_spec(s@, i as int));
    }
    out
}

/// Git output bytes as shown (`from_utf8_lossy`, then the `MAX_OUTPUT` cap); `None` when the
/// cap would fall inside a character.
pub fn truncate_out(raw: &[u8]) -> (r: Option<String>)
    ensures
        ({
            let s = crate::panel_webmail_proxy::utf8_lossy(raw@);
            &&& r is Some <==> (encode_utf8(s).len() <= MAX_OUTPUT || exists|k: int| cut_at(s, k))
            &&& r matches Some(t) ==> (encode_utf8(s).len() <= MAX_OUTPUT ==> t@ == s) && (encode_utf8(s).len()
                > MAX_OUTPUT ==> exists|k: int| cut_at(s, k) && t@ == truncated_spec(s, k))
        }),
{
    let text = crate::panel_webmail_proxy::lossy_text(raw);
    let v = chars_of(text.as_str());
    if !crate::text::utf8_len_exceeds(&v, MAX_OUTPUT) {
        return Some(truncate_text(text.as_str()));
    }
    let mut sum: u64 = 0;
    let mut i: usize = 0;
    assert(v@.take(0) =~= Seq::<char>::empty());
    while sum < MAX_OUTPUT && i < v.len()
        invariant
            i <= v.len(),
            v@ == text@,
            text@ == crate::panel_webmail_proxy::utf8_lossy(raw@),
            encode_utf8(v@).len() > MAX_OUTPUT,
            sum <= MAX_OUTPUT,
            sum == encode_utf8(v@.take(i as int)).len(),
            forall|k: int| 0 <= k < i ==> encode_utf8(#[trigger] v@.take(k)).len() < MAX_OUTPUT,
        decreases v.len() - i,
    {
        let w = crate::text::utf8_width(v[i]);
        proof {
            assert(v@.take(i + 1) =~= v@.take(i as int) + seq![v@[i as int]]);
            crate::text::lemma_encode_add_len(v@.take(i as int), seq![v@[i as int]]);
        }
        if w > MAX_OUTPUT - sum {
            proof {
                assert forall|k: int| cut_at(text@, k) implies false by {
                    if k <= i {
                        if k < i {
                            assert(encode_utf8(v@.take(k)).len() < MAX_OUTPUT);
                        }
                    } else {
                        assert(v@.take(k) =~= v@.take(i + 1) + v@.subrange(i + 1, k));
                        crate::text::lemma_encode_add_len(v@.take(i + 1), v@.subrange(i + 1, k));
                    }
                }
            }
            return None;
        }
        sum = sum + w;
        i += 1;
    }
    proof {
        if sum < MAX_OUTPUT {
            assert(v@.take(i as int) =~= v@);
            assert(false);
        }
        assert(cut_at(text@, i as int));
    }
    Some(truncate_text(text.as_str()))
}

} // verus!
