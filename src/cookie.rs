//! The session cookies and the host of the grading service, read from a page's cookie string
//! and origin.

use vstd::prelude::*;

use crate::text::{
    chars_of, contains, decimal, find_char, first_char_at, includes, prefix, push_decimal, same,
    string_of, suffix, trim, trimmed,
};

verus! {

/// The host of an absolute url and its explicit port, if any. `None` when the url does not parse
/// or has no host.
pub uninterp spec fn url_host_port(origin: Seq<char>) -> Option<(Seq<char>, Option<u16>)>;

/// Relies on url::Url::parse, Url::host_str and Url::port (the port only where it is not the
/// scheme's default).
#[verifier::external_body]
fn host_and_port(origin: &str) -> (r: Option<(String, Option<u16>)>)
    ensures
        match r {
            Some((h, p)) => url_host_port(origin@) == Some((h@, p)),
            None => url_host_port(origin@) is None,
        },
{
    let u = url::Url::parse(origin).ok()?;
    u.host_str().map(|h| (h.to_string(), u.port()))
}

/// What the grading service needs from a page's cookies and origin.
#[derive(Clone, Debug, PartialEq, Eq)]
pub struct CookieInfo {
    pub login: Option<String>,
    pub connect_sid: Option<String>,
    pub chost: Option<String>,
}

/// The pieces of `s` between `;` separators.
pub open spec fn pieces(s: Seq<char>) -> Seq<Seq<char>>
    decreases s.len(),
{
    if s.len() == 0 {
        seq![Seq::empty()]
    } else {
        let p = pieces(s.drop_last());
        if s.last() == ';' {
            p.push(Seq::empty())
        } else {
            p.drop_last().push(p.last().push(s.last()))
        }
    }
}

/// (login, connect.sid) after one `key=value` piece: a later piece overrides an earlier one.
pub open spec fn cookie_step(
    state: (Option<Seq<char>>, Option<Seq<char>>),
    piece: Seq<char>,
) -> (Option<Seq<char>>, Option<Seq<char>>) {
    let p = trim(piece);
    match first_char_at(p, '=', 0) {
        Some(k) => {
            let key = trim(p.take(k));
            let value = trim(p.skip(k + 1));
            if key == "login"@ {
                (Some(value), state.1)
            } else if key == "connect.sid"@ {
                (state.0, Some(value))
            } else {
                state
            }
        },
        None => state,
    }
}

pub open spec fn cookies_of(ps: Seq<Seq<char>>) -> (Option<Seq<char>>, Option<Seq<char>>)
    decreases ps.len(),
{
    if ps.len() == 0 {
        (None, None)
    } else {
        cookie_step(cookies_of(ps.drop_last()), ps.last())
    }
}

/// The host of the grading service: the service's own hosts by name, else the origin's host and
/// explicit port.
pub open spec fn chost_of(origin: Seq<char>) -> Option<Seq<char>> {
    if contains(origin, "oj.7fa4.cn"@) {
        Some("oj.7fa4.cn"@)
    } else if contains(origin, "jx.7fa4.cn"@) {
        Some("jx.7fa4.cn:8888"@)
    } else if contains(origin, "in.7fa4.cn"@) {
        Some("in.7fa4.cn:8888"@)
    } else {
        match url_host_port(origin) {
            Some((h, Some(port))) => Some(h + seq![':'] + decimal(port as nat)),
            Some((h, None)) => Some(h),
            None => None,
        }
    }
}

pub open spec fn opt_string(o: Option<String>) -> Option<Seq<char>> {
    match o {
        Some(s) => Some(s@),
        None => None,
    }
}

fn cookie_step_of(
    login: Option<Vec<char>>,
    sid: Option<Vec<char>>,
    piece: &Vec<char>,
) -> (r: (Option<Vec<char>>, Option<Vec<char>>))
    ensures
        (crate::markup::opt_chars(r.0), crate::markup::opt_chars(r.1)) == cookie_step(
            (crate::markup::opt_chars(login), crate::markup::opt_chars(sid)),
            piece@,
        ),
{
    let p = trimmed(piece);
    match find_char(&p, '=') {
        Some(k) => {
            let key = trimmed(&prefix(&p, k));
            assert(p@.len() == p.len());
            let value = trimmed(&suffix(&p, k + 1));
            if same(&key, &chars_of("login")) {
                (Some(value), sid)
            } else if same(&key, &chars_of("connect.sid")) {
                (login, Some(value))
            } else {
                (login, sid)
            }
        },
        None => (login, sid),
    }
}

/// Reads the `login` and `connect.sid` cookies from a cookie string and the service host from
/// the page's origin.
pub fn parse_cookie(cookie_str: &str, origin: &str) -> (r: CookieInfo)
    ensures
        (opt_string(r.login), opt_string(r.connect_sid)) == cookies_of(pieces(cookie_str@)),
        opt_string(r.chost) == chost_of(origin@),
{
    let s = chars_of(cookie_str);
    let mut login: Option<Vec<char>> = None;
    let mut sid: Option<Vec<char>> = None;
    let mut current: Vec<char> = Vec::new();
    assert(s@.take(0) =~= Seq::<char>::empty());
    for i in 0..s.len()
        invariant
            s@ == cookie_str@,
            pieces(s@.take(i as int)).len() >= 1,
            pieces(s@.take(i as int)).last() == current@,
            (crate::markup::opt_chars(login), crate::markup::opt_chars(sid)) == cookies_of(
                pieces(s@.take(i as int)).drop_last(),
            ),
    {
        let ghost before = pieces(s@.take(i as int));
        assert(s@.take(i + 1).drop_last() =~= s@.take(i as int));
        let c = s[i];
        if c == ';' {
            let (l, d) = cookie_step_of(login, sid, &current);
            login = l;
            sid = d;
            current = Vec::new();
            assert(pieces(s@.take(i + 1)).drop_last() =~= before);
        } else {
            current.push(c);
            assert(pieces(s@.take(i + 1)).drop_last() =~= before.drop_last());
        }
    }
    assert(s@.take(s@.len() as int) =~= s@);
    let (login, sid) = cookie_step_of(login, sid, &current);
    CookieInfo {
        login: match login {
            Some(v) => Some(string_of(&v)),
            None => None,
        },
        connect_sid: match sid {
            Some(v) => Some(string_of(&v)),
            None => None,
        },
        chost: chost(origin),
    }
}

fn chost(origin: &str) -> (r: Option<String>)
    ensures
        opt_string(r) == chost_of(origin@),
{
    let o = chars_of(origin);
    if includes(&o, &chars_of("oj.7fa4.cn")) {
        Some("oj.7fa4.cn".to_string())
    } else if includes(&o, &chars_of("jx.7fa4.cn")) {
        Some("jx.7fa4.cn:8888".to_string())
    } else if includes(&o, &chars_of("in.7fa4.cn")) {
        Some("in.7fa4.cn:8888".to_string())
    } else {
        match host_and_port(origin) {
            Some((h, Some(port))) => {
                let mut r = chars_of(h.as_str());
                r.push(':');
                push_decimal(&mut r, port);
                assert(r@ =~= h@ + seq![':'] + decimal(port as nat));
                Some(string_of(&r))
            },
            Some((h, None)) => Some(h),
            None => None,
        }
    }
}

} // verus!
