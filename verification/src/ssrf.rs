//! URL admissibility: scheme restriction and, unless private targets
//! are allowed, rejection of localhost, loopback and RFC1918 hosts.
//!
//! The check reads the textual host only; names are not resolved.
use vstd::prelude::*;
use crate::error::{Error, BAD_REQUEST};
use crate::numstr::{
    spec_run_end, spec_digits_val, spec_is_digit, run_end, short_digits_val, lemma_run_end_props,
};
use crate::strutil::{str_eq, eq_ignore_case, spec_lower};

verus! {

broadcast use vstd::string::group_string_axioms;

/// What the guard reads of a parsed URL: scheme, host text and port.
#[derive(Debug)]
pub struct UrlParts {
    pub scheme: String,
    pub host: Option<String>,
    pub port: Option<u16>,
}

/// The parts the URL parser extracts from a string — scheme, host
/// text and port — or nothing when the string is not a URL; the
/// string alone determines them.
pub uninterp spec fn url_parts_of(s: Seq<char>) -> Option<
    (Seq<char>, Option<Seq<char>>, Option<u16>),
>;

/// What the guard reads of a `UrlParts` value, in the shape the
/// parser's name uses.
pub open spec fn spec_parts_view(u: UrlParts) -> (Seq<char>, Option<Seq<char>>, Option<u16>) {
    (
        u.scheme@,
        match u.host {
            Some(h) => Some(h@),
            None => None,
        },
        u.port,
    )
}

/// Relies on url::Url::parse for URL syntax. The scheme and host are
/// handed over verbatim (the url crate stores both lowercased for
/// http/https URLs); a parse failure yields the parser's message.
#[verifier::external_body]
pub(crate) fn parse_url(s: &str) -> (r: Result<UrlParts, String>)
    ensures
        ({
            match url_parts_of(s@) {
                Some(p) => r matches Ok(u) && spec_parts_view(u) == p,
                None => r is Err,
            }
        }),
{
    match url::Url::parse(s) {
        Ok(u) => Ok(UrlParts {
            scheme: u.scheme().to_string(),
            host: u.host_str().map(|h| h.to_string()),
            port: u.port(),
        }),
        Err(e) => Err(e.to_string()),
    }
}

/// Whether one octet of a dotted quad stands on [i, e): one to three
/// digits, no leading zero, value at most 255.
pub open spec fn spec_octet_ok(s: Seq<char>, i: int, e: int) -> bool {
    &&& 1 <= e - i <= 3
    &&& spec_digits_val(s.subrange(i, e)) <= 255
    &&& (e - i > 1 ==> s[i] != '0')
}

/// The four octets of `s` when it is exactly a dotted-quad IPv4
/// address as the standard library's address parser accepts it.
pub open spec fn spec_ipv4(s: Seq<char>) -> Option<(int, int, int, int)> {
    let n = s.len() as int;
    let e1 = spec_run_end(s, 0);
    let b2 = e1 + 1;
    let e2 = spec_run_end(s, b2);
    let b3 = e2 + 1;
    let e3 = spec_run_end(s, b3);
    let b4 = e3 + 1;
    let e4 = spec_run_end(s, b4);
    if !spec_octet_ok(s, 0, e1) || e1 >= n || s[e1] != '.' {
        None
    } else if !spec_octet_ok(s, b2, e2) || e2 >= n || s[e2] != '.' {
        None
    } else if !spec_octet_ok(s, b3, e3) || e3 >= n || s[e3] != '.' {
        None
    } else if !spec_octet_ok(s, b4, e4) || e4 != n {
        None
    } else {
        Some(
            (
                spec_digits_val(s.subrange(0, e1)),
                spec_digits_val(s.subrange(b2, e2)),
                spec_digits_val(s.subrange(b3, e3)),
                spec_digits_val(s.subrange(b4, e4)),
            ),
        )
    }
}

/// Parse a dotted-quad IPv4 address, with the same grammar as the
/// standard library's address parser: four octets, each one to three
/// digits without a leading zero, each at most 255.
pub fn parse_ipv4(s: &str) -> (r: Option<(u8, u8, u8, u8)>)
    ensures
        ({
            match spec_ipv4(s@) {
                Some(o) => r is Some && r->Some_0.0 == o.0 && r->Some_0.1 == o.1 && r->Some_0.2
                    == o.2 && r->Some_0.3 == o.3,
                None => r is None,
            }
        }),
{
    let n = s.unicode_len();
    let e1 = run_end(s, 0);
    proof {
        lemma_run_end_props(s@, 0);
    }
    if e1 == 0 || e1 > 3 || e1 >= n || s.get_char(e1) != '.' {
        return None;
    }
    let a = short_digits_val(s, 0, e1);
    if a > 255 || (e1 > 1 && s.get_char(0) == '0') {
        return None;
    }
    let b2 = e1 + 1;
    let e2 = run_end(s, b2);
    proof {
        lemma_run_end_props(s@, b2 as int);
    }
    if e2 == b2 || e2 - b2 > 3 || e2 >= n || s.get_char(e2) != '.' {
        return None;
    }
    let b = short_digits_val(s, b2, e2);
    if b > 255 || (e2 - b2 > 1 && s.get_char(b2) == '0') {
        return None;
    }
    let b3 = e2 + 1;
    let e3 = run_end(s, b3);
    proof {
        lemma_run_end_props(s@, b3 as int);
    }
    if e3 == b3 || e3 - b3 > 3 || e3 >= n || s.get_char(e3) != '.' {
        return None;
    }
    let c = short_digits_val(s, b3, e3);
    if c > 255 || (e3 - b3 > 1 && s.get_char(b3) == '0') {
        return None;
    }
    let b4 = e3 + 1;
    let e4 = run_end(s, b4);
    proof {
        lemma_run_end_props(s@, b4 as int);
    }
    if e4 == b4 || e4 - b4 > 3 || e4 != n {
        return None;
    }
    let d = short_digits_val(s, b4, e4);
    if d > 255 || (e4 - b4 > 1 && s.get_char(b4) == '0') {
        return None;
    }
    Some((a as u8, b as u8, c as u8, d as u8))
}

/// An IPv4 address the guard refuses as loopback: 127.0.0.0/8.
pub open spec fn spec_v4_loopback(o: (int, int, int, int)) -> bool {
    o.0 == 127
}

/// An IPv4 address the guard refuses as private: 10.0.0.0/8,
/// 172.16.0.0/12, 192.168.0.0/16.
pub open spec fn spec_v4_private(o: (int, int, int, int)) -> bool {
    ||| o.0 == 10
    ||| (o.0 == 172 && 16 <= o.1 < 32)
    ||| (o.0 == 192 && o.1 == 168)
}

/// The guard's verdict on scheme and host: the rejection message, or
/// nothing when the URL is admissible.
pub open spec fn spec_guard_msg(
    scheme: Seq<char>,
    host: Option<Seq<char>>,
    enable_private_ip: bool,
) -> Option<Seq<char>> {
    if scheme != "http"@ && scheme != "https"@ {
        Some("only support http/https"@)
    } else if enable_private_ip {
        None
    } else if host is None {
        None
    } else {
        let h = host->Some_0;
        if spec_lower(h) == "localhost"@ {
            Some("not allow localhost"@)
        } else {
            match spec_ipv4(h) {
                Some(o) => if spec_v4_loopback(o) {
                    Some("not allow loopback address"@)
                } else if spec_v4_private(o) {
                    Some("not allow private ip"@)
                } else {
                    None
                },
                None => if h == "::1"@ || h == "[::1]"@ {
                    Some("not allow loopback address"@)
                } else {
                    None
                },
            }
        }
    }
}

/// A URL is admissible when the guard has no rejection for it.
pub open spec fn spec_admissible(
    scheme: Seq<char>,
    host: Option<Seq<char>>,
    enable_private_ip: bool,
) -> bool {
    spec_guard_msg(scheme, host, enable_private_ip) is None
}

/// The SSRF guard. Only http and https pass; with private targets
/// disabled, localhost, IPv4 loopback and private ranges, and the
/// textual IPv6 loopback are refused with 400. Hosts that are plain
/// names pass: no name resolution is performed here.
pub fn can_access(u: &UrlParts, enable_private_ip: bool) -> (r: Result<(), Error>)
    ensures
        r is Ok <==> spec_admissible(
            u.scheme@,
            match u.host {
                Some(h) => Some(h@),
                None => None,
            },
            enable_private_ip,
        ),
        r is Err ==> r->Err_0.status_code == BAD_REQUEST && Some(r->Err_0.message@)
            == spec_guard_msg(
            u.scheme@,
            match u.host {
                Some(h) => Some(h@),
                None => None,
            },
            enable_private_ip,
        ),
{
    if !str_eq(u.scheme.as_str(), "http") && !str_eq(u.scheme.as_str(), "https") {
        return Err(Error::new(BAD_REQUEST, "only support http/https"));
    }
    if enable_private_ip {
        return Ok(());
    }
    let host = match &u.host {
        Some(h) => h.as_str(),
        None => {
            return Ok(());
        },
    };
    if eq_ignore_case(host, "localhost") {
        proof {
            reveal_strlit("localhost");
            assert(spec_lower("localhost"@) =~= "localhost"@);
        }
        return Err(Error::new(BAD_REQUEST, "not allow localhost"));
    }
    proof {
        reveal_strlit("localhost");
        assert(spec_lower("localhost"@) =~= "localhost"@);
    }
    match parse_ipv4(host) {
        Some((a, b, _c, _d)) => {
            if a == 127 {
                Err(Error::new(BAD_REQUEST, "not allow loopback address"))
            } else if a == 10 || (a == 172 && 16 <= b && b < 32) || (a == 192 && b == 168) {
                Err(Error::new(BAD_REQUEST, "not allow private ip"))
            } else {
                Ok(())
            }
        },
        None => {
            if str_eq(host, "::1") || str_eq(host, "[::1]") {
                Err(Error::new(BAD_REQUEST, "not allow loopback address"))
            } else {
                Ok(())
            }
        },
    }
}

/// The host a response's default file name is derived from: the
/// parsed host, or empty when the URL has none.
pub fn host_or_empty(u: &UrlParts) -> (r: String)
    ensures
        u.host matches Some(h) ==> r@ == h@,
        u.host is None ==> r@.len() == 0,
{
    match &u.host {
        Some(h) => h.clone(),
        None => String::new(),
    }
}

/// Parse a URL and run it through the guard: the entry every render
/// request passes. It succeeds exactly when the string parses and the
/// parsed scheme and host are admissible, and what it returns are the
/// parsed parts; a string the URL parser refuses is rejected with 400
/// carrying the parser's message, an inadmissible URL with 400
/// carrying the guard's.
pub fn admit_url(s: &str, enable_private_ip: bool) -> (r: Result<UrlParts, Error>)
    ensures
        r is Ok <==> (url_parts_of(s@) matches Some(p) && spec_admissible(
            p.0,
            p.1,
            enable_private_ip,
        )),
        r matches Ok(u) ==> url_parts_of(s@) == Some(spec_parts_view(u)),
        r is Err ==> r->Err_0.status_code == BAD_REQUEST,
        url_parts_of(s@) matches Some(p) ==> (!spec_admissible(p.0, p.1, enable_private_ip)
            ==> (r matches Err(e) && Some(e.message@) == spec_guard_msg(
            p.0,
            p.1,
            enable_private_ip,
        ))),
{
    match parse_url(s) {
        Err(msg) => Err(Error::new(BAD_REQUEST, msg.as_str())),
        Ok(parts) => {
            match can_access(&parts, enable_private_ip) {
                Ok(_) => Ok(parts),
                Err(e) => Err(e),
            }
        },
    }
}

/// SSRF closure: with private targets disabled, no URL of a scheme
/// other than http/https, none naming localhost, and none whose host
/// is an IPv4 loopback or private address is admitted.
pub proof fn lemma_ssrf_closure(scheme: Seq<char>, host: Seq<char>)
    ensures
        scheme != "http"@ && scheme != "https"@ ==> !spec_admissible(scheme, Some(host), false),
        spec_lower(host) == "localhost"@ ==> !spec_admissible(scheme, Some(host), false),
        (spec_ipv4(host) matches Some(o) && spec_v4_loopback(o)) ==> !spec_admissible(
            scheme,
            Some(host),
            false,
        ),
        (spec_ipv4(host) matches Some(o) && spec_v4_private(o)) ==> !spec_admissible(
            scheme,
            Some(host),
            false,
        ),
        host == "::1"@ || host == "[::1]"@ ==> !spec_admissible(scheme, Some(host), false),
{
    if host == "::1"@ || host == "[::1]"@ {
        reveal_strlit("::1");
        reveal_strlit("[::1]");
        assert("::1"@.len() == 3);
        assert("[::1]"@.len() == 5);
        assert(spec_run_end("::1"@, 0) == 0) by {
            assert(!spec_is_digit("::1"@[0]));
        }
        assert(spec_run_end("[::1]"@, 0) == 0) by {
            assert(!spec_is_digit("[::1]"@[0]));
        }
        assert(spec_ipv4("::1"@) is None);
        assert(spec_ipv4("[::1]"@) is None);
    }
}

} // verus!
