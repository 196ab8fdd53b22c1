//! Per-user UI preferences (color mode, minimalist mode, SSH review snooze) and the panel's
//! `dd/mm/yyyy` dates.
//!
//! The preferences of one user are a record read from and written to that user's file by the
//! caller; the operations here are the changes made to the record between the two.

use vstd::prelude::*;
use vstd::string::*;
use crate::civil::{civil, civil_from_days};
use crate::panel_theme::ColorMode;
use crate::text::{dec, dec_pad, push_dec, push_dec_pad};

verus! {

/// Maximum days the Activity Board SSH security review may stay hidden.
pub const SSH_SECURITY_REVIEW_SNOOZE_MAX_DAYS: u32 = 30;

/// Default snooze when the operator picks "Hide for 1 month".
pub const SSH_SECURITY_REVIEW_SNOOZE_DEFAULT_DAYS: u32 = 30;

/// One user's UI preferences.
#[derive(Clone, Debug)]
pub struct UserUiPrefs {
    pub color_mode: ColorMode,
    /// When true, prefer static UI: no live metrics polling; refresh to update.
    pub minimalist_mode: bool,
    /// Unix epoch seconds until which the SSH security review card stays hidden.
    /// Cleared or past values mean the card is shown again.
    pub ssh_security_review_snooze_until: Option<i64>,
}

impl Default for UserUiPrefs {
    fn default() -> (r: UserUiPrefs)
        ensures
            r.color_mode == ColorMode::Light,
            !r.minimalist_mode,
            r.ssh_security_review_snooze_until is None,
    {
        UserUiPrefs {
            color_mode: ColorMode::Light,
            minimalist_mode: false,
            ssh_security_review_snooze_until: None,
        }
    }
}

pub fn load_user_color_mode(prefs: &UserUiPrefs) -> (r: ColorMode)
    ensures
        r == prefs.color_mode,
{
    prefs.color_mode
}

/// Sets the color mode; the other preferences stay.
pub fn save_user_color_mode(prefs: &mut UserUiPrefs, mode: ColorMode) -> (r: ColorMode)
    ensures
        r == mode,
        final(prefs).color_mode == mode,
        final(prefs).minimalist_mode == old(prefs).minimalist_mode,
        final(prefs).ssh_security_review_snooze_until == old(prefs).ssh_security_review_snooze_until,
{
    prefs.color_mode = mode;
    mode
}

pub fn load_user_minimalist_mode(prefs: &UserUiPrefs) -> (r: bool)
    ensures
        r == prefs.minimalist_mode,
{
    prefs.minimalist_mode
}

/// Sets minimalist mode; the other preferences stay.
pub fn save_user_minimalist_mode(prefs: &mut UserUiPrefs, enabled: bool) -> (r: bool)
    ensures
        r == enabled,
        final(prefs).minimalist_mode == enabled,
        final(prefs).color_mode == old(prefs).color_mode,
        final(prefs).ssh_security_review_snooze_until == old(prefs).ssh_security_review_snooze_until,
{
    prefs.minimalist_mode = enabled;
    enabled
}

/// The snooze expiry while it lies after `now`.
pub open spec fn active_snooze(until: Option<i64>, now: i64) -> Option<i64> {
    match until {
        Some(u) => if u > now {
            Some(u)
        } else {
            None
        },
        None => None,
    }
}

/// Active snooze expiry (unix seconds) when the review should stay hidden, else `None`.
pub fn ssh_security_review_snooze_until(prefs: &UserUiPrefs, now: i64) -> (r: Option<i64>)
    ensures
        r == active_snooze(prefs.ssh_security_review_snooze_until, now),
{
    match prefs.ssh_security_review_snooze_until {
        Some(until) => if until > now {
            Some(until)
        } else {
            None
        },
        None => None,
    }
}

pub fn is_ssh_security_review_snoozed(prefs: &UserUiPrefs, now: i64) -> (r: bool)
    ensures
        r == active_snooze(prefs.ssh_security_review_snooze_until, now) is Some,
{
    ssh_security_review_snooze_until(prefs, now).is_some()
}

/// `days` clamped to 1 to 30.
pub open spec fn clamp_days(days: u32) -> int {
    if days < 1 {
        1
    } else if days > SSH_SECURITY_REVIEW_SNOOZE_MAX_DAYS {
        SSH_SECURITY_REVIEW_SNOOZE_MAX_DAYS as int
    } else {
        days as int
    }
}

/// `now + days * 86400`, saturating at `i64::MAX`.
pub open spec fn snooze_expiry(now: i64, days: u32) -> i64 {
    let t = now + clamp_days(days) * 86400;
    if t > i64::MAX {
        i64::MAX
    } else {
        t as i64
    }
}

/// Hide the SSH security review for `days` (clamped to 1..=30) from `now`. Returns expiry
/// epoch; the other preferences stay.
pub fn snooze_ssh_security_review(prefs: &mut UserUiPrefs, days: u32, now: i64) -> (r: i64)
    ensures
        r == snooze_expiry(now, days),
        final(prefs).ssh_security_review_snooze_until == Some(r),
        final(prefs).color_mode == old(prefs).color_mode,
        final(prefs).minimalist_mode == old(prefs).minimalist_mode,
{
    let d: u32 = if days < 1 {
        1
    } else if days > SSH_SECURITY_REVIEW_SNOOZE_MAX_DAYS {
        SSH_SECURITY_REVIEW_SNOOZE_MAX_DAYS
    } else {
        days
    };
    let add: i64 = (d as i64) * 86400;
    let until: i64 = if now > i64::MAX - add {
        i64::MAX
    } else {
        now + add
    };
    prefs.ssh_security_review_snooze_until = Some(until);
    until
}

/// Clear any active or expired snooze so the review shows again. Returns whether the
/// record changed (and needs writing).
pub fn clear_ssh_security_review_snooze(prefs: &mut UserUiPrefs) -> (changed: bool)
    ensures
        changed == (old(prefs).ssh_security_review_snooze_until is Some),
        final(prefs).ssh_security_review_snooze_until is None,
        final(prefs).color_mode == old(prefs).color_mode,
        final(prefs).minimalist_mode == old(prefs).minimalist_mode,
{
    if prefs.ssh_security_review_snooze_until.is_none() {
        return false;
    }
    prefs.ssh_security_review_snooze_until = None;
    true
}

/// Law: right after a snooze at `now` the review is hidden until the returned expiry, which
/// lies at most 30 days ahead.
pub proof fn lemma_snooze_hides_review(now: i64, days: u32)
    requires
        now < i64::MAX,
    ensures
        active_snooze(Some(snooze_expiry(now, days)), now) == Some(snooze_expiry(now, days)),
        snooze_expiry(now, days) <= now + 30 * 86400,
{
}

/// `dd/mm/yyyy` of a unix epoch: the civil date of day `epoch / 86400` (rounded down); an
/// epoch before 1970 keeps 1 January 1970 with the day field as the wrapped day count.
pub open spec fn epoch_date_spec(epoch: int) -> Seq<char> {
    let days = epoch / 86400;
    if days < 0 {
        dec_pad(((days + 1) % 4294967296) as nat, 2) + "/"@ + dec_pad(1, 2) + "/"@ + dec(1970)
    } else {
        let c = civil(days);
        dec_pad(c.2 as nat, 2) + "/"@ + dec_pad(c.1 as nat, 2) + "/"@ + dec(c.0 as nat)
    }
}

/// Format a unix epoch as `dd/mm/yyyy` for panel UI (Norwegian numeric date).
#[verifier::rlimit(60)]
#[verifier::spinoff_prover]
pub fn format_epoch_dd_mm_yyyy(epoch: i64) -> (r: String)
    requires
        epoch / 86400 < 0 || civil(epoch / 86400).0 <= i32::MAX,
    ensures
        r@ == epoch_date_spec(epoch as int),
{
    let mut out = String::new();
    if epoch >= 0 {
        let days: u64 = (epoch as u64) / 86400;
        let (y, m, d) = civil_from_days(days);
        push_dec_pad(&mut out, d, 2);
        out.append("/");
        push_dec_pad(&mut out, m, 2);
        out.append("/");
        push_dec(&mut out, y);
        out
    } else {
        let p: u64 = (-(epoch + 1)) as u64;
        let q: u64 = p / 86400;
        proof {
            let r = p % 86400;
            vstd::arithmetic::div_mod::lemma_fundamental_div_mod(p as int, 86400);
            assert(epoch == 86400 * (-(q as int) - 1) + (86399 - r)) by (nonlinear_arith)
                requires
                    p == 86400 * q + r,
                    p == -(epoch + 1),
            ;
            vstd::arithmetic::div_mod::lemma_fundamental_div_mod_converse_div(
                epoch as int,
                86400,
                -(q as int) - 1,
                86399 - r,
            );
        }
        let qm: u64 = q % 4294967296;
        let d: u64 = if qm == 0 {
            0
        } else {
            4294967296 - qm
        };
        proof {
            let m: int = 4294967296;
            let k = q / 4294967296;
            vstd::arithmetic::div_mod::lemma_fundamental_div_mod(q as int, m);
            if qm == 0 {
                assert(-(q as int) == (-(k as int)) * m + 0) by (nonlinear_arith)
                    requires
                        q == m * k + qm,
                        qm == 0,
                ;
                vstd::arithmetic::div_mod::lemma_fundamental_div_mod_converse_mod(-(q as int), m, -(k as int), 0);
            } else {
                assert(-(q as int) == (-(k as int) - 1) * m + (m - qm)) by (nonlinear_arith)
                    requires
                        q == m * k + qm,
                ;
                vstd::arithmetic::div_mod::lemma_fundamental_div_mod_converse_mod(
                    -(q as int),
                    m,
                    -(k as int) - 1,
                    m - qm,
                );
            }
        }
        push_dec_pad(&mut out, d, 2);
        out.append("/");
        push_dec_pad(&mut out, 1, 2);
        out.append("/");
        push_dec(&mut out, 1970);
        out
    }
}

} // verus!
