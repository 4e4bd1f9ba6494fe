//! Checks on remote addresses, and the configured video sources that pass
//! them.

use vstd::prelude::*;
use crate::numtext::{all_ascii_digits, digits_value, is_ascii_digit, parse_u64, unsigned_body};
use crate::text::{
    split, split_seq, ascii_lower_seq, contains, contains_seq, ends_with, ends_with_seq, str_eq, string_from_chars,
    to_ascii_lowercase, to_chars, trim, trim_seq,
};
use crate::video::ApiSite;

verus! {

/// An IP address: four octets, or eight 16-bit segments.
#[derive(Debug, Clone, Copy)]
pub enum IpAddress {
    V4(u8, u8, u8, u8),
    V6([u16; 8]),
}

/// Whether a piece of text is one octet of a dotted IPv4 address, as std's
/// address parser reads it: one to three ASCII digits, no leading zero
/// before other digits, a value up to 255.
pub open spec fn octet_text(p: Seq<char>) -> bool {
    &&& 1 <= p.len() <= 3
    &&& all_ascii_digits(p)
    &&& (p.len() == 1 || p[0] != '0')
    &&& digits_value(p) <= 255
}

/// The IPv4 address that a text writes in dotted decimal, as
/// `str::parse::<Ipv4Addr>` reads it: four octets separated by dots.
pub open spec fn ipv4_of_text(text: Seq<char>) -> Option<IpAddress> {
    let parts = split_seq(text, "."@);
    if parts.len() == 4 && octet_text(parts[0]) && octet_text(parts[1]) && octet_text(parts[2])
        && octet_text(parts[3]) {
        Some(
            IpAddress::V4(
                digits_value(parts[0]) as u8,
                digits_value(parts[1]) as u8,
                digits_value(parts[2]) as u8,
                digits_value(parts[3]) as u8,
            ),
        )
    } else {
        None
    }
}

fn octet_value(p: &str) -> (r: Option<u8>)
    ensures
        match r {
            Some(v) => octet_text(p@) && v as nat == digits_value(p@),
            None => !octet_text(p@),
        },
{
    let v = to_chars(p);
    if v.len() < 1 || v.len() > 3 {
        return None;
    }
    if v.len() > 1 && v[0] == '0' {
        return None;
    }
    let mut i: usize = 0;
    while i < v.len()
        invariant
            i <= v.len(),
            v@ == p@,
            forall|j: int| 0 <= j < i ==> is_ascii_digit(#[trigger] v@[j]),
        decreases v.len() - i,
    {
        if !(v[i] >= '0' && v[i] <= '9') {
            return None;
        }
        i += 1;
    }
    match parse_u64(p) {
        Some(n) => {
            assert(unsigned_body(p@) =~= p@);
            if n <= 255 {
                Some(n as u8)
            } else {
                None
            }
        },
        None => {
            assert(unsigned_body(p@) =~= p@);
            None
        },
    }
}

/// Reads a dotted-decimal IPv4 address. Host names that come out of a parsed
/// URL hold an IPv6 address only within brackets, which no IP address
/// grammar accepts, so the dotted form is the one that a host can take.
pub fn parse_ipv4(text: &str) -> (r: Option<IpAddress>)
    ensures
        r == ipv4_of_text(text@),
{
    proof {
        reveal_strlit(".");
    }
    let parts = split(text, ".");
    let ghost pv = parts@.map_values(|p: String| p@);
    if parts.len() != 4 {
        return None;
    }
    assert(pv[0] == parts@[0]@ && pv[1] == parts@[1]@ && pv[2] == parts@[2]@ && pv[3] == parts@[3]@);
    let a = octet_value(parts[0].as_str());
    let b = octet_value(parts[1].as_str());
    let c = octet_value(parts[2].as_str());
    let d = octet_value(parts[3].as_str());
    match (a, b, c, d) {
        (Some(a), Some(b), Some(c), Some(d)) => Some(IpAddress::V4(a, b, c, d)),
        _ => None,
    }
}

/// Private, loopback, link-local, broadcast, documentation and unspecified
/// IPv4 addresses; loopback, unique-local, link-local and unspecified IPv6
/// addresses (the ranges of std's `Ipv4Addr` and `Ipv6Addr` predicates).
pub open spec fn local_or_private(ip: IpAddress) -> bool {
    match ip {
        IpAddress::V4(a, b, c, d) => {
            ||| a == 10
            ||| (a == 172 && 16 <= b < 32)
            ||| (a == 192 && b == 168)
            ||| a == 127
            ||| (a == 169 && b == 254)
            ||| (a == 255 && b == 255 && c == 255 && d == 255)
            ||| (a == 192 && b == 0 && c == 2)
            ||| (a == 198 && b == 51 && c == 100)
            ||| (a == 203 && b == 0 && c == 113)
            ||| (a == 0 && b == 0 && c == 0 && d == 0)
        },
        IpAddress::V6(s) => {
            let zero_head = s[0] == 0 && s[1] == 0 && s[2] == 0 && s[3] == 0 && s[4] == 0 && s[5]
                == 0 && s[6] == 0;
            ||| (zero_head && s[7] == 1)
            ||| (zero_head && s[7] == 0)
            ||| (0xfc00 <= s[0] && s[0] <= 0xfdff)
            ||| (0xfe80 <= s[0] && s[0] <= 0xfebf)
        },
    }
}

pub fn is_local_or_private_ip(ip: IpAddress) -> (r: bool)
    ensures
        r == local_or_private(ip),
{
    match ip {
        IpAddress::V4(a, b, c, d) => {
            a == 10 || (a == 172 && 16 <= b && b < 32) || (a == 192 && b == 168) || a == 127 || (a
                == 169 && b == 254) || (a == 255 && b == 255 && c == 255 && d == 255) || (a == 192
                && b == 0 && c == 2) || (a == 198 && b == 51 && c == 100) || (a == 203 && b == 0 && c
                == 113) || (a == 0 && b == 0 && c == 0 && d == 0)
        },
        IpAddress::V6(s) => {
            let zero_head = s[0] == 0 && s[1] == 0 && s[2] == 0 && s[3] == 0 && s[4] == 0 && s[5]
                == 0 && s[6] == 0;
            (zero_head && s[7] == 1) || (zero_head && s[7] == 0) || (0xfc00 <= s[0] && s[0]
                <= 0xfdff) || (0xfe80 <= s[0] && s[0] <= 0xfebf)
        },
    }
}

/// `s` without its trailing `c` characters.
pub open spec fn trim_end_char(s: Seq<char>, c: char) -> Seq<char>
    decreases s.len(),
{
    if s.len() > 0 && s.last() == c {
        trim_end_char(s.drop_last(), c)
    } else {
        s
    }
}

/// A host name, trimmed, without trailing dots, in ASCII lower case.
pub open spec fn normalized_host(host: Seq<char>) -> Seq<char> {
    ascii_lower_seq(trim_end_char(trim_seq(host), '.'))
}

/// Host names that stay on the local network: localhost, the local, internal
/// and home.arpa zones, and names without a dot.
pub open spec fn local_hostname(host: Seq<char>) -> bool {
    let n = normalized_host(host);
    ||| n == "localhost"@
    ||| ends_with_seq(n, ".localhost"@)
    ||| ends_with_seq(n, ".local"@)
    ||| ends_with_seq(n, ".internal"@)
    ||| ends_with_seq(n, ".home.arpa"@)
    ||| !contains_seq(n, "."@)
}

fn trim_trailing_dots(s: &str) -> (r: String)
    ensures
        r@ == trim_end_char(s@, '.'),
{
    let v = to_chars(s);
    let mut n = v.len();
    assert(v@.take(n as int) =~= s@);
    while n > 0 && v[n - 1] == '.'
        invariant
            n <= v.len(),
            v@ == s@,
            trim_end_char(s@, '.') == trim_end_char(v@.take(n as int), '.'),
        decreases n,
    {
        assert(v@.take(n as int).drop_last() =~= v@.take(n - 1));
        n -= 1;
    }
    string_from_chars(&v, 0, n)
}

pub fn is_local_hostname(host: &str) -> (r: bool)
    ensures
        r == local_hostname(host@),
{
    let trimmed = trim(host);
    let no_dots = trim_trailing_dots(trimmed.as_str());
    let n = to_ascii_lowercase(no_dots.as_str());
    let n = n.as_str();
    str_eq(n, "localhost") || ends_with(n, ".localhost") || ends_with(n, ".local") || ends_with(
        n,
        ".internal",
    ) || ends_with(n, ".home.arpa") || !contains(n, ".")
}

/// What the checks read of a parsed URL: scheme, user name, password, host,
/// and the URL as serialized.
#[derive(Debug)]
pub struct UrlParts {
    pub scheme: String,
    pub username: String,
    pub password: Option<String>,
    pub host: Option<String>,
    pub text: String,
}

impl Clone for UrlParts {
    fn clone(&self) -> (r: Self)
        ensures
            r == *self,
    {
        UrlParts {
            scheme: self.scheme.clone(),
            username: self.username.clone(),
            password: self.password.clone(),
            host: self.host.clone(),
            text: self.text.clone(),
        }
    }
}

/// What `url::Url::parse` gives for a text: the parts of the URL, or the
/// text of the parse error.
pub uninterp spec fn url_parse_result(text: Seq<char>) -> Result<UrlParts, String>;

/// Calls `url::Url::parse` and reads out `scheme()`, `username()`,
/// `password()`, `host_str()` and `as_str()`, or the error's display text.
/// The contract names the result: the URL grammar is the url crate's.
#[verifier::external_body]
fn parse_url(text: &str) -> (r: Result<UrlParts, String>)
    ensures
        r == url_parse_result(text@),
{
    match url::Url::parse(text) {
        Ok(u) => Ok(
            UrlParts {
                scheme: u.scheme().to_string(),
                username: u.username().to_string(),
                password: u.password().map(|p| p.to_string()),
                host: u.host_str().map(|h| h.to_string()),
                text: u.as_str().to_string(),
            },
        ),
        Err(e) => Err(e.to_string()),
    }
}

/// A result with its error as a character sequence.
pub open spec fn as_text_result(r: Result<UrlParts, String>) -> Result<UrlParts, Seq<char>> {
    match r {
        Ok(p) => Ok(p),
        Err(e) => Err(e@),
    }
}

/// Whether a host is on the local network: a local or private IPv4 address,
/// or a local host name when it is not an address.
pub open spec fn lan_host(host: Seq<char>) -> bool {
    match ipv4_of_text(host) {
        Some(ip) => local_or_private(ip),
        None => local_hostname(host),
    }
}

/// The verdict on a parsed URL: only http and https, no credentials, a host,
/// and no local-network host unless those are allowed.
pub open spec fn remote_url_verdict(parsed: Result<UrlParts, String>, allow_lan: bool) -> Result<
    UrlParts,
    Seq<char>,
> {
    match parsed {
        Err(e) => Err("Invalid URL: "@ + e@),
        Ok(p) => if !(p.scheme@ == "http"@ || p.scheme@ == "https"@) {
            Err("Unsupported URL scheme: "@ + p.scheme@)
        } else if p.username@.len() > 0 || p.password is Some {
            Err("URLs with embedded credentials are not allowed"@)
        } else {
            match p.host {
                None => Err("URL must include a host"@),
                Some(h) => if !allow_lan && lan_host(h@) {
                    Err("LAN and localhost URLs are disabled"@)
                } else {
                    Ok(p)
                },
            }
        },
    }
}

/// What a URL that passes the checks is: http or https, without user name
/// or password, with a host, and (unless allowed) off the local network.
pub open spec fn passes_as_remote(p: UrlParts, allow_lan: bool) -> bool {
    &&& (p.scheme@ == "http"@ || p.scheme@ == "https"@)
    &&& p.username@.len() == 0
    &&& p.password is None
    &&& p.host matches Some(h) && (allow_lan || !lan_host(h@))
}

/// A URL passes the checks exactly when it parses and is what
/// `passes_as_remote` says; it then passes unchanged.
pub proof fn lemma_remote_verdict(parsed: Result<UrlParts, String>, allow_lan: bool)
    ensures
        remote_url_verdict(parsed, allow_lan) is Ok <==> (parsed matches Ok(p) && passes_as_remote(
            p,
            allow_lan,
        )),
        remote_url_verdict(parsed, allow_lan) matches Ok(p) ==> parsed == Ok::<UrlParts, String>(p),
{
}

/// A configured site found for a key has that key, and its API passes the
/// remote URL checks.
pub proof fn lemma_first_site_has_key(entries: Seq<SourceEntry>, key: Seq<char>, allow_lan: bool)
    ensures
        first_site_with_key(entries, key, allow_lan) matches Some(site) ==> site.key@ == key
            && remote_url_verdict(url_parse_result(site.api@), allow_lan) is Ok,
    decreases entries.len(),
{
    if entries.len() > 0 {
        lemma_first_site_has_key(entries.drop_first(), key, allow_lan);
    }
}

fn message(text: &str) -> (r: String)
    ensures
        r@ == text@,
{
    String::from_str(text)
}

fn lan_host_check(host: &str) -> (r: bool)
    ensures
        r == lan_host(host@),
{
    match parse_ipv4(host) {
        Some(ip) => is_local_or_private_ip(ip),
        None => is_local_hostname(host),
    }
}

/// The checks that follow the parse of a remote URL.
pub fn check_remote_url(parsed: Result<UrlParts, String>, allow_lan: bool) -> (r: Result<
    UrlParts,
    String,
>)
    ensures
        as_text_result(r) == remote_url_verdict(parsed, allow_lan),
{
    match parsed {
        Err(e) => {
            let mut m = message("Invalid URL: ");
            m.append(e.as_str());
            Err(m)
        },
        Ok(p) => {
            if !(str_eq(p.scheme.as_str(), "http") || str_eq(p.scheme.as_str(), "https")) {
                let mut m = message("Unsupported URL scheme: ");
                m.append(p.scheme.as_str());
                return Err(m);
            }
            if !p.username.as_str().is_empty() || p.password.is_some() {
                return Err(message("URLs with embedded credentials are not allowed"));
            }
            let lan = match &p.host {
                None => {
                    return Err(message("URL must include a host"));
                },
                Some(h) => lan_host_check(h.as_str()),
            };
            if !allow_lan && lan {
                return Err(message("LAN and localhost URLs are disabled"));
            }
            Ok(p)
        },
    }
}

/// Parses a remote URL and checks it: only http and https, no embedded
/// credentials, a host, and no local-network host unless `allow_lan`.
pub fn validate_remote_url(url: &str, allow_lan: bool) -> (r: Result<UrlParts, String>)
    ensures
        as_text_result(r) == remote_url_verdict(url_parse_result(url@), allow_lan),
{
    let parsed = parse_url(url);
    check_remote_url(parsed, allow_lan)
}

/// One entry of the configured sources, as the logic reads it: each field
/// holds the JSON value when it has the kind read (text or boolean).
#[derive(Debug, Clone)]
pub struct SourceEntry {
    pub key: Option<String>,
    pub api: Option<String>,
    pub name: Option<String>,
    pub detail: Option<String>,
    pub disabled: Option<bool>,
    pub is_adult: Option<bool>,
}

/// What the source logic reads of the application configuration: whether
/// local-network sources are allowed, the source list (when the
/// configuration holds one), and the two search preferences.
#[derive(Debug, Clone)]
pub struct SourceSettings {
    pub allow_lan_sources: bool,
    pub sources: Option<Vec<SourceEntry>>,
    pub fluid_search: Option<bool>,
    pub disable_yellow_filter: Option<bool>,
}

/// The site that a configured entry gives when it is enabled, names a key,
/// an API and a name, and its API passes the remote URL checks.
pub open spec fn usable_site(e: SourceEntry, allow_lan: bool) -> Option<ApiSite> {
    match (e.key, e.api, e.name) {
        (Some(k), Some(a), Some(n)) => if e.disabled != Some(true) && remote_url_verdict(
            url_parse_result(a@),
            allow_lan,
        ) is Ok {
            Some(ApiSite { key: k, api: a, name: n, detail: e.detail, is_adult: e.is_adult })
        } else {
            None
        },
        _ => None,
    }
}

/// The usable site of the first entry with key `key` that gives one.
pub open spec fn first_site_with_key(entries: Seq<SourceEntry>, key: Seq<char>, allow_lan: bool) -> Option<
    ApiSite,
>
    decreases entries.len(),
{
    if entries.len() == 0 {
        None
    } else {
        match usable_site(entries[0], allow_lan) {
            Some(site) => if site.key@ == key {
                Some(site)
            } else {
                first_site_with_key(entries.drop_first(), key, allow_lan)
            },
            None => first_site_with_key(entries.drop_first(), key, allow_lan),
        }
    }
}

fn usable_site_of(e: &SourceEntry, allow_lan: bool) -> (r: Option<ApiSite>)
    ensures
        r == usable_site(*e, allow_lan),
{
    match (&e.key, &e.api, &e.name) {
        (Some(k), Some(a), Some(n)) => {
            if e.disabled == Some(true) {
                return None;
            }
            match validate_remote_url(a.as_str(), allow_lan) {
                Ok(_) => Some(
                    ApiSite {
                        key: k.clone(),
                        api: a.clone(),
                        name: n.clone(),
                        detail: e.detail.clone(),
                        is_adult: e.is_adult,
                    },
                ),
                Err(_) => None,
            }
        },
        _ => None,
    }
}

/// The enabled source with key `source_key` whose API passes the remote URL
/// checks; the first such entry when several have the key.
pub fn resolve_enabled_source(config: &SourceSettings, source_key: &str) -> (r: Option<ApiSite>)
    ensures
        r == match config.sources {
            Some(entries) => first_site_with_key(entries@, source_key@, config.allow_lan_sources),
            None => None,
        },
{
    match &config.sources {
        None => None,
        Some(entries) => {
            let mut i: usize = 0;
            assert(entries@.skip(0) =~= entries@);
            while i < entries.len()
                invariant
                    i <= entries.len(),
                    config.sources == Some(*entries),
                    first_site_with_key(entries@, source_key@, config.allow_lan_sources)
                        == first_site_with_key(entries@.skip(i as int), source_key@, config.allow_lan_sources),
                decreases entries.len() - i,
            {
                assert(entries@.skip(i as int).drop_first() =~= entries@.skip(i + 1));
                assert(entries@.skip(i as int)[0] == entries@[i as int]);
                match usable_site_of(&entries[i], config.allow_lan_sources) {
                    Some(site) => {
                        if str_eq(site.key.as_str(), source_key) {
                            return Some(site);
                        }
                    },
                    None => {},
                }
                i += 1;
            }
            assert(entries@.skip(i as int) =~= Seq::<SourceEntry>::empty());
            None
        },
    }
}

/// The sites a search asks, in configuration order: the usable ones, and of
/// those only the ones not marked adult while the adult filter is on.
pub open spec fn search_sites_of(entries: Seq<SourceEntry>, allow_lan: bool, disable_yellow_filter: bool) -> Seq<
    ApiSite,
>
    decreases entries.len(),
{
    if entries.len() == 0 {
        Seq::empty()
    } else {
        let prev = search_sites_of(entries.drop_last(), allow_lan, disable_yellow_filter);
        match usable_site(entries.last(), allow_lan) {
            Some(site) => if disable_yellow_filter || site.is_adult != Some(true) {
                prev.push(site)
            } else {
                prev
            },
            None => prev,
        }
    }
}

/// Whether results stream to the window source by source (on by default).
pub open spec fn fluid_search_on(config: SourceSettings) -> bool {
    config.fluid_search != Some(false)
}

/// Whether the adult-content filter is off (it is on by default).
pub open spec fn yellow_filter_off(config: SourceSettings) -> bool {
    config.disable_yellow_filter == Some(true)
}

pub fn fluid_search_enabled(config: &SourceSettings) -> (r: bool)
    ensures
        r == fluid_search_on(*config),
{
    config.fluid_search != Some(false)
}

pub fn yellow_filter_disabled(config: &SourceSettings) -> (r: bool)
    ensures
        r == yellow_filter_off(*config),
{
    config.disable_yellow_filter == Some(true)
}

/// The sites a search asks.
pub fn search_sites(config: &SourceSettings) -> (r: Vec<ApiSite>)
    ensures
        r@ == match config.sources {
            Some(entries) => search_sites_of(
                entries@,
                config.allow_lan_sources,
                yellow_filter_off(*config),
            ),
            None => Seq::empty(),
        },
{
    let disable = yellow_filter_disabled(config);
    let mut r: Vec<ApiSite> = Vec::new();
    match &config.sources {
        None => r,
        Some(entries) => {
            let mut i: usize = 0;
            while i < entries.len()
                invariant
                    i <= entries.len(),
                    config.sources == Some(*entries),
                    disable == yellow_filter_off(*config),
                    r@ == search_sites_of(entries@.take(i as int), config.allow_lan_sources, disable),
                decreases entries.len() - i,
            {
                assert(entries@.take(i + 1).drop_last() =~= entries@.take(i as int));
                match usable_site_of(&entries[i], config.allow_lan_sources) {
                    Some(site) => {
                        if disable || site.is_adult != Some(true) {
                            r.push(site);
                        }
                    },
                    None => {},
                }
                i += 1;
            }
            assert(entries@.take(entries.len() as int) =~= entries@);
            r
        },
    }
}

} // verus!
