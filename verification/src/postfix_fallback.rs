//! Postfix as the default local MTA when outbound SMTP is skipped: when the local MTA
//! counts as ready, the SMTP settings that point at it, and what the fallback refuses.
//! Probing services and ports, and installing packages, are done by the caller.

use vstd::prelude::*;
use vstd::string::*;
use crate::guest::PackageFamily;
use crate::text::{contains_seq, trim};

verus! {

/// How the panel talks TLS to an SMTP server.
#[derive(Clone, Copy, Debug, PartialEq, Eq, Structural)]
pub enum SmtpTlsMode {
    Plain,
    StartTls,
    Implicit,
}

/// Outbound SMTP settings.
pub struct SmtpSettings {
    pub schema_version: u32,
    pub host: String,
    pub port: u16,
    pub tls_mode: SmtpTlsMode,
    pub from_address: String,
    pub username: String,
    pub password: String,
    pub updated_at_unix: u64,
}

/// True when local Postfix is running: its unit is active or an SMTP port (25 or 587)
/// listens on loopback.
pub fn postfix_is_ready(unit_active: bool, port25_open: bool, port587_open: bool) -> (r: bool)
    ensures
        r == (unit_active || port25_open || port587_open),
{
    if unit_active {
        return true;
    }
    port25_open || port587_open
}

/// The sender used: the trimmed address when it is not blank and holds `@`, else
/// `cpn-panel@localhost`.
pub open spec fn local_from_spec(from: Seq<char>) -> Seq<char> {
    if trim(from).len() == 0 || !from.contains('@') {
        "cpn-panel@localhost"@
    } else {
        trim(from)
    }
}

/// Localhost SMTP settings used for the Postfix fallback path: port 587 when it listens,
/// else 25, no TLS and no login.
pub fn postfix_local_smtp(from_address: &str, port587_open: bool, now: u64) -> (r: SmtpSettings)
    ensures
        r.schema_version == 1,
        r.host@ == "127.0.0.1"@,
        r.port == (if port587_open { 587u16 } else { 25u16 }),
        r.tls_mode == SmtpTlsMode::Plain,
        r.from_address@ == local_from_spec(from_address@),
        r.username@.len() == 0,
        r.password@.len() == 0,
        r.updated_at_unix == now,
{
    let t = crate::text::trim_str(from_address);
    let v = crate::text::chars_of(from_address);
    let mut has_at = false;
    let mut i: usize = 0;
    while i < v.len()
        invariant
            i <= v.len(),
            has_at == (exists|j: int| 0 <= j < i && v@[j] == '@'),
        decreases v.len() - i,
    {
        if v[i] == '@' {
            has_at = true;
        }
        i += 1;
    }
    let from = if t.as_str().is_empty() || !has_at {
        "cpn-panel@localhost".to_owned()
    } else {
        t
    };
    let port: u16 = if port587_open {
        587
    } else {
        25
    };
    SmtpSettings {
        schema_version: 1,
        host: "127.0.0.1".to_owned(),
        port,
        tls_mode: SmtpTlsMode::Plain,
        from_address: from,
        username: String::new(),
        password: String::new(),
        updated_at_unix: now,
    }
}

/// Why the Postfix fallback cannot run on a guest, if it cannot: Windows and anything but
/// dnf/apt are refused.
pub fn postfix_guest_refusal(family: PackageFamily) -> (r: Option<&'static str>)
    ensures
        r is None <==> (family == PackageFamily::Dnf || family == PackageFamily::Apt),
        family == PackageFamily::Windows ==> (r matches Some(m) && m@
            == "Postfix fallback is not available on Windows Server Phase A. Configure external SMTP for outbound mail."@),
{
    match family {
        PackageFamily::Windows => Some(
            "Postfix fallback is not available on Windows Server Phase A. Configure external SMTP for outbound mail.",
        ),
        PackageFamily::Dnf => None,
        PackageFamily::Apt => None,
    }
}

/// The fallback's result once the packages are in place: the local settings when Postfix
/// is ready, else an error.
pub fn ensure_postfix_default(
    from_address: &str,
    ready: bool,
    port587_open: bool,
    now: u64,
) -> (r: Result<SmtpSettings, String>)
    ensures
        r is Ok <==> ready,
        r matches Ok(s) ==> (s.from_address@ == local_from_spec(from_address@) && s.port == (if port587_open {
            587u16
        } else {
            25u16
        })),
        r matches Err(e) ==> e@
            == "Postfix was installed but is not accepting mail yet. Check the postfix service."@,
{
    if !ready {
        return Err(
            "Postfix was installed but is not accepting mail yet. Check the postfix service.".to_owned(),
        );
    }
    Ok(postfix_local_smtp(from_address, port587_open, now))
}

/// Validate that Postfix local binding is usable for an enabled mailbox.
pub fn require_postfix_smtp_ready(ready: bool) -> (r: Result<(), String>)
    ensures
        r is Ok <==> ready,
        r matches Err(e) ==> e@
            == "Local Postfix is not running. Install/enable Postfix (Apps > Email or installer fallback) before enabling accounts on the local MTA."@,
{
    if ready {
        Ok(())
    } else {
        Err(
            "Local Postfix is not running. Install/enable Postfix (Apps > Email or installer fallback) before enabling accounts on the local MTA.".to_owned(),
        )
    }
}

} // verus!
