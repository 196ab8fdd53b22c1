//! Optional Nginx front with unique internal IPs per site: the persisted settings, the
//! choice of a site's internal address from the private pool, and the stub files written
//! for Nginx. Reading and writing them, and installing packages, is done by the caller.

use vstd::prelude::*;
use vstd::string::*;
use crate::paths::{join_data, path_join};
use crate::text::{all_digits, chars_of, digits_value, dec, push_dec, split_on, split_vec, trim, trim_str, views};

verus! {

/// Version written into `proxy_front.json`.
pub const PROXY_FRONT_SCHEMA_VERSION: u32 = 1;

/// Last host number of the private pool `10.66.0.10`–`10.66.0.250`.
pub const POOL_MAX_HOST: u8 = 250;

/// First host number of the pool.
pub const POOL_FIRST_HOST: u8 = 10;

/// The README written into the stub directory.
pub const NGINX_STUB_README: &'static str = "CPN Nginx front stubs (unique internal IP path).\nSites get 10.66.0.x addresses when proxy front is enabled.\nFull Nginx Proxy Manager container install is a follow-up.\nOpenLiteSpeed/origin may serve backends on loopback while Nginx fronts public ports.\n";

/// The proxy-front feature settings.
pub struct ProxyFrontSettings {
    pub schema_version: u32,
    /// Operator opted into Nginx front + unique internal IPs.
    pub enabled: bool,
    /// Attempt to install nginx packages during server install when enabled.
    pub install_nginx: bool,
    /// Placeholder for a later Nginx Proxy Manager (Docker) install.
    pub install_proxy_manager: bool,
    /// When true, the origin is not expected to bind public :80/:443 alone.
    pub relax_origin_public_routing: bool,
    pub updated_at_unix: u64,
}

impl Default for ProxyFrontSettings {
    fn default() -> (r: Self)
        ensures
            r.schema_version == PROXY_FRONT_SCHEMA_VERSION,
            !r.enabled,
            r.install_nginx,
            !r.install_proxy_manager,
            r.relax_origin_public_routing,
            r.updated_at_unix == 0,
    {
        ProxyFrontSettings {
            schema_version: PROXY_FRONT_SCHEMA_VERSION,
            enabled: false,
            install_nginx: true,
            install_proxy_manager: false,
            relax_origin_public_routing: true,
            updated_at_unix: 0,
        }
    }
}

pub fn proxy_front_settings_path(data_dir: &str) -> (r: String)
    ensures
        r@ == path_join(data_dir@, "proxy_front.json"@),
{
    join_data(data_dir, "proxy_front.json")
}

pub fn nginx_stub_dir(data_dir: &str) -> (r: String)
    ensures
        r@ == path_join(data_dir@, "nginx-front"@),
{
    join_data(data_dir, "nginx-front")
}

/// Whether the front is on, by the loaded settings (defaults when there are none).
pub fn proxy_front_enabled(settings: &ProxyFrontSettings) -> (r: bool)
    ensures
        r == settings.enabled,
{
    settings.enabled
}

/// The settings as they are saved: current schema and the save time.
pub fn settings_to_persist(settings: &ProxyFrontSettings, now: u64) -> (r: ProxyFrontSettings)
    ensures
        r.schema_version == PROXY_FRONT_SCHEMA_VERSION,
        r.updated_at_unix == now,
        r.enabled == settings.enabled,
        r.install_nginx == settings.install_nginx,
        r.install_proxy_manager == settings.install_proxy_manager,
        r.relax_origin_public_routing == settings.relax_origin_public_routing,
{
    ProxyFrontSettings {
        schema_version: PROXY_FRONT_SCHEMA_VERSION,
        enabled: settings.enabled,
        install_nginx: settings.install_nginx,
        install_proxy_manager: settings.install_proxy_manager,
        relax_origin_public_routing: settings.relax_origin_public_routing,
        updated_at_unix: now,
    }
}

/// The installer checkbox: enabling also turns on the nginx install and relaxed origin
/// routing and leaves the Proxy Manager off; disabling changes nothing else.
pub fn set_proxy_front_from_install(settings: &mut ProxyFrontSettings, enabled: bool)
    ensures
        final(settings).enabled == enabled,
        final(settings).install_nginx == (enabled || old(settings).install_nginx),
        final(settings).relax_origin_public_routing == (enabled || old(settings).relax_origin_public_routing),
        final(settings).install_proxy_manager == (!enabled && old(settings).install_proxy_manager),
        final(settings).schema_version == old(settings).schema_version,
        final(settings).updated_at_unix == old(settings).updated_at_unix,
{
    settings.enabled = enabled;
    if enabled {
        settings.install_nginx = true;
        settings.relax_origin_public_routing = true;
        settings.install_proxy_manager = false;
    }
}

/// Nginx packages are installed only when the front is on and asks for them.
pub fn should_install_nginx(settings: &ProxyFrontSettings) -> (r: bool)
    ensures
        r == (settings.enabled && settings.install_nginx),
{
    settings.enabled && settings.install_nginx
}

/// One dotted-decimal field as `Ipv4Addr` reads it: 1 to 3 digits, no leading zero, at
/// most 255.
pub open spec fn octet_ok(f: Seq<char>) -> bool {
    1 <= f.len() <= 3 && all_digits(f) && !(f.len() > 1 && f[0] == '0') && digits_value(f) <= 255
}

/// `s.parse::<Ipv4Addr>()`: exactly four octets separated by dots.
pub open spec fn ipv4_spec(s: Seq<char>) -> Option<(u8, u8, u8, u8)> {
    let p = split_on(s, '.');
    if p.len() == 4 && octet_ok(p[0]) && octet_ok(p[1]) && octet_ok(p[2]) && octet_ok(p[3]) {
        Some((digits_value(p[0]) as u8, digits_value(p[1]) as u8, digits_value(p[2]) as u8, digits_value(p[3]) as u8))
    } else {
        None
    }
}

fn octet_of(f: &Vec<char>) -> (r: Option<u8>)
    ensures
        match r {
            Some(b) => octet_ok(f@) && b == digits_value(f@),
            None => !octet_ok(f@),
        },
{
    if f.len() < 1 || f.len() > 3 {
        return None;
    }
    if f.len() > 1 && f[0] == '0' {
        return None;
    }
    let mut v: u32 = 0;
    let mut i: usize = 0;
    while i < f.len()
        invariant
            i <= f.len() <= 3,
            all_digits(f@.take(i as int)),
            v == digits_value(f@.take(i as int)),
            v < (if i == 0 { 1int } else if i == 1 { 10int } else if i == 2 { 100int } else { 1000int }),
        decreases f.len() - i,
    {
        let c = f[i];
        let u = c as u32;
        if !(48 <= u && u <= 57) {
            proof {
                assert(!crate::text::is_digit(f@[i as int]));
            }
            return None;
        }
        proof {
            assert(f@.take(i + 1).drop_last() =~= f@.take(i as int));
            assert(f@.take(i + 1).last() == c);
            assert forall|k: int| 0 <= k < f@.take(i + 1).len() implies crate::text::is_digit(
                #[trigger] f@.take(i + 1)[k],
            ) by {
                if k < i {
                    assert(f@.take(i + 1)[k] == f@.take(i as int)[k]);
                }
            }
        }
        v = v * 10 + (u - 48);
        i += 1;
    }
    assert(f@.take(f.len() as int) =~= f@);
    if v > 255 {
        return None;
    }
    Some(v as u8)
}

/// `s.parse::<Ipv4Addr>()` (see `ipv4_spec`).
pub fn parse_ipv4(s: &str) -> (r: Option<(u8, u8, u8, u8)>)
    ensures
        r == ipv4_spec(s@),
{
    let v = chars_of(s);
    let parts = split_vec(&v, '.');
    if parts.len() != 4 {
        return None;
    }
    let a = match octet_of(&parts[0]) {
        Some(b) => b,
        None => return None,
    };
    let b = match octet_of(&parts[1]) {
        Some(b) => b,
        None => return None,
    };
    let c = match octet_of(&parts[2]) {
        Some(b) => b,
        None => return None,
    };
    let d = match octet_of(&parts[3]) {
        Some(b) => b,
        None => return None,
    };
    Some((a, b, c, d))
}

/// The address of pool host `h`.
pub open spec fn pool_addr(h: u8) -> (u8, u8, u8, u8) {
    (10, 66, 0, h)
}

/// The first pool address (`10.66.0.10` up to `.250`) that is not in use.
pub open spec fn first_free_host(used: Seq<(u8, u8, u8, u8)>, h: int) -> Option<u8>
    decreases 251 - h,
{
    if h > 250 || h < 0 {
        None
    } else if !used.contains(pool_addr(h as u8)) {
        Some(h as u8)
    } else {
        first_free_host(used, h + 1)
    }
}

fn contains_addr(used: &Vec<(u8, u8, u8, u8)>, a: (u8, u8, u8, u8)) -> (r: bool)
    ensures
        r == used@.contains(a),
{
    let mut i: usize = 0;
    while i < used.len()
        invariant
            i <= used.len(),
            forall|j: int| 0 <= j < i ==> used@[j] != a,
        decreases used.len() - i,
    {
        let u = used[i];
        if u.0 == a.0 && u.1 == a.1 && u.2 == a.2 && u.3 == a.3 {
            assert(used@[i as int] == a);
            return true;
        }
        i += 1;
    }
    false
}

/// The first free internal address of the pool, or an error when all are taken.
pub fn next_free_internal_ip(used: &Vec<(u8, u8, u8, u8)>) -> (r: Result<(u8, u8, u8, u8), String>)
    ensures
        match r {
            Ok(a) => first_free_host(used@, 10) matches Some(h) && a == pool_addr(h),
            Err(e) => first_free_host(used@, 10) is None && e@ == "Internal IP pool exhausted (10.66.0.10-250)"@,
        },
{
    let mut h: u8 = POOL_FIRST_HOST;
    loop
        invariant
            10 <= h <= 250,
            first_free_host(used@, 10) == first_free_host(used@, h as int),
        decreases 250 - h,
    {
        let a = (10u8, 66u8, 0u8, h);
        if !contains_addr(used, a) {
            return Ok(a);
        }
        if h == POOL_MAX_HOST {
            assert(first_free_host(used@, 251) is None);
            return Err("Internal IP pool exhausted (10.66.0.10-250)".to_owned());
        }
        h = h + 1;
    }
}

/// The addresses in use: every site's stored internal address that parses.
pub open spec fn used_addrs(ips: Seq<Option<Seq<char>>>) -> Seq<(u8, u8, u8, u8)>
    decreases ips.len(),
{
    if ips.len() == 0 {
        Seq::empty()
    } else {
        let prev = used_addrs(ips.drop_last());
        match ips.last() {
            Some(s) => match ipv4_spec(s) {
                Some(a) => prev.push(a),
                None => prev,
            },
            None => prev,
        }
    }
}

pub open spec fn opt_strings(v: Seq<Option<String>>) -> Seq<Option<Seq<char>>> {
    v.map_values(|o: Option<String>| crate::text::opt_string_view(&o))
}

/// The stored addresses of all sites that parse as IPv4.
pub fn used_internal_ips(site_ips: &Vec<Option<String>>) -> (r: Vec<(u8, u8, u8, u8)>)
    ensures
        r@ == used_addrs(opt_strings(site_ips@)),
{
    let mut out: Vec<(u8, u8, u8, u8)> = Vec::new();
    let mut i: usize = 0;
    while i < site_ips.len()
        invariant
            i <= site_ips.len(),
            out@ == used_addrs(opt_strings(site_ips@).take(i as int)),
        decreases site_ips.len() - i,
    {
        proof {
            assert(opt_strings(site_ips@).take(i + 1).drop_last() =~= opt_strings(site_ips@).take(i as int));
            assert(opt_strings(site_ips@).take(i + 1).last() == crate::text::opt_string_view(&site_ips@[i as int]));
        }
        match &site_ips[i] {
            Some(s) => match parse_ipv4(s.as_str()) {
                Some(a) => out.push(a),
                None => {},
            },
            None => {},
        }
        i += 1;
    }
    assert(opt_strings(site_ips@).take(site_ips.len() as int) =~= opt_strings(site_ips@));
    out
}

/// The dotted form of an address.
pub open spec fn addr_text(a: (u8, u8, u8, u8)) -> Seq<char> {
    dec(a.0 as nat) + "."@ + dec(a.1 as nat) + "."@ + dec(a.2 as nat) + "."@ + dec(a.3 as nat)
}

#[verifier::rlimit(60)]
#[verifier::spinoff_prover]
pub fn addr_to_string(a: (u8, u8, u8, u8)) -> (r: String)
    ensures
        r@ == addr_text(a),
{
    let mut out = String::new();
    push_dec(&mut out, a.0 as u64);
    out.append(".");
    push_dec(&mut out, a.1 as u64);
    out.append(".");
    push_dec(&mut out, a.2 as u64);
    out.append(".");
    push_dec(&mut out, a.3 as u64);
    assert(out@ =~= addr_text(a));
    out
}

/// What `ensure_site_internal_ip` decides for a site: nothing when the front is off; the
/// site's own address when it has one (trimmed, not blank); else the first free pool
/// address, which is new and must be stored.
pub enum InternalIpChoice {
    Off,
    Existing(String),
    Assign(String),
}

pub fn choose_site_internal_ip(
    enabled: bool,
    existing: Option<&str>,
    site_ips: &Vec<Option<String>>,
) -> (r: Result<InternalIpChoice, String>)
    ensures
        !enabled ==> r matches Ok(InternalIpChoice::Off),
        enabled && (existing matches Some(e) && trim(e@).len() > 0) ==> (r matches Ok(
            InternalIpChoice::Existing(s),
        ) && s@ == trim(existing.unwrap()@)),
        enabled && !(existing matches Some(e) && trim(e@).len() > 0) ==> match first_free_host(
            used_addrs(opt_strings(site_ips@)),
            10,
        ) {
            Some(h) => r matches Ok(InternalIpChoice::Assign(s)) && s@ == addr_text(pool_addr(h)),
            None => r is Err,
        },
{
    if !enabled {
        return Ok(InternalIpChoice::Off);
    }
    match existing {
        Some(e) => {
            let t = trim_str(e);
            if !t.as_str().is_empty() {
                return Ok(InternalIpChoice::Existing(t));
            }
        },
        None => {},
    }
    let used = used_internal_ips(site_ips);
    match next_free_internal_ip(&used) {
        Ok(a) => Ok(InternalIpChoice::Assign(addr_to_string(a))),
        Err(e) => Err(e),
    }
}

/// The stub file name of a site: its domain with `/` replaced by `_`, and `.conf`.
pub fn site_stub_file_name(domain: &str) -> (r: String)
    ensures
        r@ == crate::plugins::replace_all(domain@, "/"@, "_"@) + ".conf"@,
{
    proof {
        reveal_strlit("/");
    }
    let mut out = crate::plugins::replace_str(domain, "/", "_");
    out.append(".conf");
    out
}

/// The commented Nginx stub for a site's internal address.
pub open spec fn site_stub_spec(domain: Seq<char>, ip: Seq<char>) -> Seq<char> {
    "# CPN stub for "@ + domain + " -> internal "@ + ip
        + "\n# Backend origin (OpenLiteSpeed or local) typically listens on 127.0.0.1.\n# Replace with live Nginx/NPM upstream wiring in a later release.\n# server {\n#   listen "@
        + ip + ":80;\n#   server_name "@ + domain
        + ";\n#   location / { proxy_pass http://127.0.0.1:8088; }\n# }\n"@
}

#[verifier::rlimit(60)]
#[verifier::spinoff_prover]
pub fn site_nginx_stub(domain: &str, ip: &str) -> (r: String)
    ensures
        r@ == site_stub_spec(domain@, ip@),
{
    let mut out = "# CPN stub for ".to_owned();
    out.append(domain);
    out.append(" -> internal ");
    out.append(ip);
    out.append(
        "\n# Backend origin (OpenLiteSpeed or local) typically listens on 127.0.0.1.\n# Replace with live Nginx/NPM upstream wiring in a later release.\n# server {\n#   listen ",
    );
    out.append(ip);
    out.append(":80;\n#   server_name ");
    out.append(domain);
    out.append(";\n#   location / { proxy_pass http://127.0.0.1:8088; }\n# }\n");
    out
}

} // verus!
