//! The site web terminal: who may open it, and what each event of an open session does.
//! The caller owns the WebSocket and the shell process, performs each action, and hands
//! back the next event.

use vstd::prelude::*;
use vstd::string::*;
use crate::panel_site_tools_security::{
    check_terminal_rate_limit, counted_window, csrf_check_spec, current_window, verify_terminal_csrf, RateTable,
    TERM_RATE_MAX,
};
use crate::panel_webmail_proxy::{lossy_text, utf8_lossy};

verus! {

/// Why a terminal request is turned away: the HTTP status and body.
pub struct Refusal {
    pub status: u16,
    pub body: String,
}

/// The checks before a terminal opens, in order: a signed-in user (401), an allowed
/// WebSocket origin (403), the terminal CSRF token for the site (403 `Invalid terminal
/// CSRF`), and the per-user session rate (429 with the limit message). The rate is only
/// counted when the earlier checks pass.
pub open spec fn gate_refusal(
    user: Option<Seq<char>>,
    origin_ok: bool,
    domain: Seq<char>,
    csrf: Seq<char>,
    secret: Seq<char>,
    now: u64,
    rate_ok: bool,
) -> Option<(u16, Seq<char>)> {
    match user {
        None => Some((401u16, Seq::empty())),
        Some(u) => if !origin_ok {
            Some((403u16, Seq::empty()))
        } else if !csrf_check_spec("site-term"@, u, domain, csrf, secret, now) {
            Some((403u16, "Invalid terminal CSRF"@))
        } else if !rate_ok {
            Some((429u16, "Too many terminal sessions; wait a minute and try again"@))
        } else {
            None
        },
    }
}

pub open spec fn gate_reaches_rate(user: Option<Seq<char>>, origin_ok: bool, domain: Seq<char>, csrf: Seq<char>, secret: Seq<char>, now: u64) -> bool {
    match user {
        None => false,
        Some(u) => origin_ok && csrf_check_spec("site-term"@, u, domain, csrf, secret, now),
    }
}

pub fn terminal_gate(
    user: Option<&str>,
    origin_ok: bool,
    domain: &str,
    csrf: &str,
    secret: &str,
    now: u64,
    rates: &mut RateTable,
) -> (r: Result<(), Refusal>)
    requires
        old(rates).wf(),
    ensures
        final(rates).wf(),
        ({
            let u = crate::text::opt_view(user);
            let reached = gate_reaches_rate(u, origin_ok, domain@, csrf@, secret@, now);
            let rate_ok = reached && current_window(old(rates).window_of(u->0), now).count < TERM_RATE_MAX;
            &&& match r {
                Ok(()) => gate_refusal(u, origin_ok, domain@, csrf@, secret@, now, rate_ok) is None,
                Err(f) => gate_refusal(u, origin_ok, domain@, csrf@, secret@, now, rate_ok) == Some((f.status, f.body@)),
            }
            &&& reached ==> final(rates).window_of(u->0) == Some(
                counted_window(current_window(old(rates).window_of(u->0), now), TERM_RATE_MAX),
            )
            &&& forall|k: Seq<char>| !(reached && k == u->0) ==> final(rates).window_of(k) == old(rates).window_of(k)
        }),
{
    proof {
        reveal_strlit("");
    }
    let u = match user {
        Some(u) => u,
        None => return Err(Refusal { status: 401, body: String::new() }),
    };
    if !origin_ok {
        return Err(Refusal { status: 403, body: String::new() });
    }
    if !verify_terminal_csrf(u, domain, csrf, secret, now) {
        return Err(Refusal { status: 403, body: "Invalid terminal CSRF".to_owned() });
    }
    match check_terminal_rate_limit(rates, u, now) {
        Ok(()) => Ok(()),
        Err(e) => Err(Refusal { status: 429, body: e }),
    }
}

/// The site checks that follow admission, in order: the user may manage the site (403 with no body),
/// and the site home directory exists (400 `Site home directory missing`).
pub fn terminal_site_check(may_manage: bool, home_exists: bool) -> (r: Option<Refusal>)
    ensures
        match r {
            Some(f) => if !may_manage {
                f.status == 403 && f.body@ == Seq::<char>::empty()
            } else {
                !home_exists && f.status == 400 && f.body@ == "Site home directory missing"@
            },
            None => may_manage && home_exists,
        },
{
    proof {
        reveal_strlit("");
    }
    if !may_manage {
        return Some(Refusal { status: 403, body: String::new() });
    }
    if !home_exists {
        return Some(Refusal { status: 400, body: "Site home directory missing".to_owned() });
    }
    None
}

/// What `serde_json` reads as the string `type` field of a JSON text (`None` when the text
/// is not JSON, or has no string `type`).
pub uninterp spec fn json_type_of(text: Seq<char>) -> Option<Seq<char>>;

/// `serde_json::from_str::<Value>(text)` then `get("type")` and `as_str()`: claims only that
/// the result is the one named `json_type_of` for the text.
#[verifier::external_body]
fn json_type_field(text: &str) -> (r: Option<String>)
    ensures
        match r {
            Some(t) => json_type_of(text@) == Some(t@),
            None => json_type_of(text@) is None,
        },
{
    match serde_json::from_str::<serde_json::Value>(text) {
        Ok(v) => match v.get("type") {
            Some(t) => match t.as_str() {
                Some(s) => Some(s.to_string()),
                None => None,
            },
            None => None,
        },
        Err(_) => None,
    }
}

/// What happens in an open terminal session.
pub enum TermEvent {
    /// The shell wrote these bytes (on stdout or stderr).
    ShellOutput(Vec<u8>),
    /// The shell's stdout ended or failed.
    StdoutClosed,
    /// The shell's stderr ended or failed.
    StderrClosed,
    /// The browser sent text.
    ClientText(String),
    /// The browser sent bytes.
    ClientBinary(Vec<u8>),
    /// The browser sent a ping.
    ClientPing(Vec<u8>),
    /// The browser closed the socket.
    ClientClose,
    /// The socket ended or failed.
    ClientGone,
    /// Any other frame.
    ClientOther,
}

/// What the caller does for an event.
pub enum TermAction {
    /// Send this text to the browser; the session stops if that fails.
    Send(String),
    /// Write these bytes to the shell and flush; the session stops if writing fails.
    Write(Vec<u8>),
    /// Answer the ping with its payload.
    Pong(Vec<u8>),
    /// Close the socket with the browser's reason, then stop.
    CloseAndStop,
    /// Stop the session (the shell is killed and the socket closed).
    Stop,
    /// Stop reading the shell's stderr.
    DropStderr,
    /// Nothing to do.
    Ignore,
}

/// A browser message that only reports a new terminal size: a JSON object whose `type` is
/// `resize`.
pub open spec fn is_resize_message(t: Seq<char>) -> bool {
    t.len() > 0 && t[0] == '{' && json_type_of(t) == Some("resize"@)
}

pub fn terminal_step(event: TermEvent) -> (r: TermAction)
    ensures
        match event {
            TermEvent::ShellOutput(b) => r matches TermAction::Send(s) && s@ == utf8_lossy(b@),
            TermEvent::StdoutClosed => r is Stop,
            TermEvent::StderrClosed => r is DropStderr,
            TermEvent::ClientText(t) => if is_resize_message(t@) {
                r is Ignore
            } else {
                r matches TermAction::Write(b) && b@ == vstd::utf8::encode_utf8(t@)
            },
            TermEvent::ClientBinary(b) => r matches TermAction::Write(w) && w@ == b@,
            TermEvent::ClientPing(p) => r matches TermAction::Pong(q) && q@ == p@,
            TermEvent::ClientClose => r is CloseAndStop,
            TermEvent::ClientGone => r is Stop,
            TermEvent::ClientOther => r is Ignore,
        },
{
    proof {
        reveal_strlit("resize");
    }
    match event {
        TermEvent::ShellOutput(b) => TermAction::Send(lossy_text(b.as_slice())),
        TermEvent::StdoutClosed => TermAction::Stop,
        TermEvent::StderrClosed => TermAction::DropStderr,
        TermEvent::ClientText(t) => {
            let starts = t.as_str().unicode_len() > 0 && t.as_str().get_char(0) == '{';
            if starts {
                match json_type_field(t.as_str()) {
                    Some(kind) => {
                        if crate::text::str_eq(kind.as_str(), "resize") {
                            return TermAction::Ignore;
                        }
                    },
                    None => {},
                }
            }
            TermAction::Write(t.as_str().as_bytes_vec())
        },
        TermEvent::ClientBinary(b) => TermAction::Write(b),
        TermEvent::ClientPing(p) => TermAction::Pong(p),
        TermEvent::ClientClose => TermAction::CloseAndStop,
        TermEvent::ClientGone => TermAction::Stop,
        TermEvent::ClientOther => TermAction::Ignore,
    }
}

/// The first line a session shows: `CPN site shell · ` and the site home.
pub fn shell_greeting(home: &str) -> (r: String)
    ensures
        r@ == "CPN site shell \u{b7} "@ + home@ + "\n"@,
{
    let mut s = "CPN site shell \u{b7} ".to_owned();
    s.append(home);
    s.append("\n");
    s
}

/// The message shown when the shell cannot be started.
pub fn shell_start_failure(error: &str) -> (r: String)
    ensures
        r@ == "Could not start shell: "@ + error@ + "\n"@,
{
    let mut s = "Could not start shell: ".to_owned();
    s.append(error);
    s.append("\n");
    s
}

} // verus!
