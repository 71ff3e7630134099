//! `URL`: a parsed URL held by its serialisation, the component getters and setters built on
//! the `url` crate, and the `host` setter's host/port split.
use vstd::prelude::*;
use vstd::string::StrSliceExecFns;

use crate::blob::opt_view;
use crate::fetch::url_search_params::{opt_str_view, query_pairs, serialize_pairs, URLSearchParams};
use crate::text::{chars_of, owned, push_chars, string_from_chars};

verus! {

/// `url::Url::parse` then `Url::as_str`: the serialised URL, when the text parses.
pub uninterp spec fn parsed_url(text: Seq<char>) -> Option<Seq<char>>;

/// `url::Url::parse(base)` then `Url::join(input)` and `as_str`: the serialisation of `input`
/// resolved against `base`, when both steps succeed.
pub uninterp spec fn joined_url(base: Seq<char>, input: Seq<char>) -> Option<Seq<char>>;

/// `Url::scheme` of the URL parsed from `href` (empty when it does not parse).
pub uninterp spec fn url_scheme(href: Seq<char>) -> Seq<char>;

/// `Url::username` of the URL parsed from `href` (empty when it does not parse).
pub uninterp spec fn url_username(href: Seq<char>) -> Seq<char>;

/// `Url::password` of the URL parsed from `href`.
pub uninterp spec fn url_password(href: Seq<char>) -> Option<Seq<char>>;

/// `Url::host_str` of the URL parsed from `href`.
pub uninterp spec fn url_host(href: Seq<char>) -> Option<Seq<char>>;

/// `Url::port` of the URL parsed from `href` (none for a scheme's default port).
pub uninterp spec fn url_port(href: Seq<char>) -> Option<u16>;

/// `Url::path` of the URL parsed from `href` (empty when it does not parse).
pub uninterp spec fn url_path(href: Seq<char>) -> Seq<char>;

/// `Url::query` of the URL parsed from `href`.
pub uninterp spec fn url_query(href: Seq<char>) -> Option<Seq<char>>;

/// `Url::fragment` of the URL parsed from `href`.
pub uninterp spec fn url_fragment(href: Seq<char>) -> Option<Seq<char>>;

/// The serialisation after `Url::set_scheme` (unchanged when the change is refused).
pub uninterp spec fn url_with_scheme(href: Seq<char>, scheme: Seq<char>) -> Seq<char>;

/// The serialisation after `Url::set_username` (unchanged when the change is refused).
pub uninterp spec fn url_with_username(href: Seq<char>, username: Seq<char>) -> Seq<char>;

/// The serialisation after `Url::set_password` (unchanged when the change is refused).
pub uninterp spec fn url_with_password(href: Seq<char>, password: Option<Seq<char>>) -> Seq<char>;

/// The serialisation after `Url::set_host`, when the host is accepted.
pub uninterp spec fn url_with_host(href: Seq<char>, host: Option<Seq<char>>) -> Option<Seq<char>>;

/// The serialisation after `Url::set_port` (unchanged when the change is refused).
pub uninterp spec fn url_with_port(href: Seq<char>, port: Option<u16>) -> Seq<char>;

/// The serialisation after `Url::set_path`.
pub uninterp spec fn url_with_path(href: Seq<char>, path: Seq<char>) -> Seq<char>;

/// The serialisation after `Url::set_query`.
pub uninterp spec fn url_with_query(href: Seq<char>, query: Option<Seq<char>>) -> Seq<char>;

/// The serialisation after `Url::set_fragment`.
pub uninterp spec fn url_with_fragment(href: Seq<char>, fragment: Option<Seq<char>>) -> Seq<char>;

/// `url::Url::parse(text)` and, on success, the serialisation (`Url::as_str`).
#[verifier::external_body]
pub(crate) fn parse_url(text: &str) -> (r: Option<String>)
    ensures
        opt_view(r) == parsed_url(text@),
{
    match url::Url::parse(text) {
        Ok(u) => Some(u.as_str().to_owned()),
        Err(_) => None,
    }
}

/// `url::Url::parse(base)`, `Url::join(input)` and the serialisation.
#[verifier::external_body]
fn join_url(base: &str, input: &str) -> (r: Option<String>)
    ensures
        opt_view(r) == joined_url(base@, input@),
{
    match url::Url::parse(base) {
        Ok(b) => match b.join(input) {
            Ok(u) => Some(u.as_str().to_owned()),
            Err(_) => None,
        },
        Err(_) => None,
    }
}

/// `Url::scheme` of `href` parsed.
#[verifier::external_body]
fn scheme_of(href: &str) -> (r: String)
    ensures
        r@ == url_scheme(href@),
{
    match url::Url::parse(href) {
        Ok(u) => u.scheme().to_owned(),
        Err(_) => String::new(),
    }
}

/// `Url::username` of `href` parsed.
#[verifier::external_body]
fn username_of(href: &str) -> (r: String)
    ensures
        r@ == url_username(href@),
{
    match url::Url::parse(href) {
        Ok(u) => u.username().to_owned(),
        Err(_) => String::new(),
    }
}

/// `Url::password` of `href` parsed.
#[verifier::external_body]
fn password_of(href: &str) -> (r: Option<String>)
    ensures
        opt_view(r) == url_password(href@),
{
    match url::Url::parse(href) {
        Ok(u) => match u.password() {
            Some(p) => Some(p.to_owned()),
            None => None,
        },
        Err(_) => None,
    }
}

/// `Url::host_str` of `href` parsed.
#[verifier::external_body]
fn host_of(href: &str) -> (r: Option<String>)
    ensures
        opt_view(r) == url_host(href@),
{
    match url::Url::parse(href) {
        Ok(u) => match u.host_str() {
            Some(h) => Some(h.to_owned()),
            None => None,
        },
        Err(_) => None,
    }
}

/// `Url::port` of `href` parsed.
#[verifier::external_body]
fn port_of(href: &str) -> (r: Option<u16>)
    ensures
        r == url_port(href@),
{
    match url::Url::parse(href) {
        Ok(u) => u.port(),
        Err(_) => None,
    }
}

/// `Url::path` of `href` parsed.
#[verifier::external_body]
fn path_of(href: &str) -> (r: String)
    ensures
        r@ == url_path(href@),
{
    match url::Url::parse(href) {
        Ok(u) => u.path().to_owned(),
        Err(_) => String::new(),
    }
}

/// `Url::query` of `href` parsed.
#[verifier::external_body]
fn query_of(href: &str) -> (r: Option<String>)
    ensures
        opt_view(r) == url_query(href@),
{
    match url::Url::parse(href) {
        Ok(u) => match u.query() {
            Some(q) => Some(q.to_owned()),
            None => None,
        },
        Err(_) => None,
    }
}

/// `Url::fragment` of `href` parsed.
#[verifier::external_body]
fn fragment_of(href: &str) -> (r: Option<String>)
    ensures
        opt_view(r) == url_fragment(href@),
{
    match url::Url::parse(href) {
        Ok(u) => match u.fragment() {
            Some(f) => Some(f.to_owned()),
            None => None,
        },
        Err(_) => None,
    }
}

/// `Url::set_scheme` on `href` parsed; the serialisation after it.
#[verifier::external_body]
fn set_scheme_of(href: &str, scheme: &str) -> (r: String)
    ensures
        r@ == url_with_scheme(href@, scheme@),
{
    match url::Url::parse(href) {
        Ok(mut u) => {
            let _ = u.set_scheme(scheme);
            u.as_str().to_owned()
        },
        Err(_) => href.to_owned(),
    }
}

/// `Url::set_username` on `href` parsed; the serialisation after it.
#[verifier::external_body]
fn set_username_of(href: &str, username: &str) -> (r: String)
    ensures
        r@ == url_with_username(href@, username@),
{
    match url::Url::parse(href) {
        Ok(mut u) => {
            let _ = u.set_username(username);
            u.as_str().to_owned()
        },
        Err(_) => href.to_owned(),
    }
}

/// `Url::set_password` on `href` parsed; the serialisation after it.
#[verifier::external_body]
fn set_password_of(href: &str, password: Option<&str>) -> (r: String)
    ensures
        r@ == url_with_password(href@, opt_str_view(password)),
{
    match url::Url::parse(href) {
        Ok(mut u) => {
            let _ = u.set_password(password);
            u.as_str().to_owned()
        },
        Err(_) => href.to_owned(),
    }
}

/// `Url::set_host` on `href` parsed; the serialisation after it when the host is accepted.
#[verifier::external_body]
fn set_host_of(href: &str, host: Option<&str>) -> (r: Option<String>)
    ensures
        opt_view(r) == url_with_host(href@, opt_str_view(host)),
{
    match url::Url::parse(href) {
        Ok(mut u) => match u.set_host(host) {
            Ok(()) => Some(u.as_str().to_owned()),
            Err(_) => None,
        },
        Err(_) => None,
    }
}

/// `Url::set_port` on `href` parsed; the serialisation after it.
#[verifier::external_body]
fn set_port_of(href: &str, port: Option<u16>) -> (r: String)
    ensures
        r@ == url_with_port(href@, port),
{
    match url::Url::parse(href) {
        Ok(mut u) => {
            let _ = u.set_port(port);
            u.as_str().to_owned()
        },
        Err(_) => href.to_owned(),
    }
}

/// `Url::set_path` on `href` parsed; the serialisation after it.
#[verifier::external_body]
fn set_path_of(href: &str, path: &str) -> (r: String)
    ensures
        r@ == url_with_path(href@, path@),
{
    match url::Url::parse(href) {
        Ok(mut u) => {
            u.set_path(path);
            u.as_str().to_owned()
        },
        Err(_) => href.to_owned(),
    }
}

/// `Url::set_query` on `href` parsed; the serialisation after it.
#[verifier::external_body]
fn set_query_of(href: &str, query: Option<&str>) -> (r: String)
    ensures
        r@ == url_with_query(href@, opt_str_view(query)),
{
    match url::Url::parse(href) {
        Ok(mut u) => {
            u.set_query(query);
            u.as_str().to_owned()
        },
        Err(_) => href.to_owned(),
    }
}

/// `Url::set_fragment` on `href` parsed; the serialisation after it.
#[verifier::external_body]
fn set_fragment_of(href: &str, fragment: Option<&str>) -> (r: String)
    ensures
        r@ == url_with_fragment(href@, opt_str_view(fragment)),
{
    match url::Url::parse(href) {
        Ok(mut u) => {
            u.set_fragment(fragment);
            u.as_str().to_owned()
        },
        Err(_) => href.to_owned(),
    }
}

/// The decimal digit for `d` (below 10).
pub open spec fn digit_char(d: nat) -> char {
    (48 + d) as char
}

/// The decimal text of `n`.
pub open spec fn decimal(n: nat) -> Seq<char>
    decreases n,
{
    if n < 10 {
        seq![digit_char(n)]
    } else {
        decimal(n / 10).push(digit_char(n % 10))
    }
}

fn digit_of(d: u16) -> (c: char)
    requires
        d < 10,
    ensures
        c == digit_char(d as nat),
{
    let b: u8 = 48 + (d as u8);
    b as char
}

fn decimal_chars(n: u16) -> (r: Vec<char>)
    ensures
        r@ == decimal(n as nat),
    decreases n,
{
    if n < 10 {
        let mut v: Vec<char> = Vec::new();
        v.push(digit_of(n));
        v
    } else {
        let mut v = decimal_chars(n / 10);
        v.push(digit_of(n % 10));
        v
    }
}

/// The value of a run of ASCII digits.
pub open spec fn digits_value(s: Seq<char>) -> nat
    decreases s.len(),
{
    if s.len() == 0 {
        0
    } else {
        digits_value(s.drop_last()) * 10 + ((s.last() as nat) - 48) as nat
    }
}

/// What `str::parse::<u16>` gives: an optional `+`, then one or more ASCII digits whose value
/// fits in 16 bits.
pub open spec fn u16_text(s: Seq<char>) -> Option<u16> {
    let d = if s.len() > 0 && s[0] == '+' {
        s.drop_first()
    } else {
        s
    };
    if all_ascii_digits(d) && digits_value(d) <= 65535 {
        Some(digits_value(d) as u16)
    } else {
        None
    }
}

proof fn lemma_digits_value_grows(s: Seq<char>, i: int, j: int)
    requires
        0 <= i <= j <= s.len(),
        forall|k: int| 0 <= k < s.len() ==> '0' <= #[trigger] s[k] <= '9',
    ensures
        digits_value(s.subrange(0, i)) <= digits_value(s.subrange(0, j)),
    decreases j - i,
{
    if i < j {
        lemma_digits_value_grows(s, i, j - 1);
        assert(s.subrange(0, j).drop_last() =~= s.subrange(0, j - 1));
    }
}

/// `str::parse::<u16>`.
pub fn parse_u16(text: &str) -> (r: Option<u16>)
    ensures
        r == u16_text(text@),
{
    let cs = chars_of(text);
    let start: usize = if cs.len() > 0 && cs[0] == '+' {
        1
    } else {
        0
    };
    let ghost d = if cs@.len() > 0 && cs@[0] == '+' {
        cs@.drop_first()
    } else {
        cs@
    };
    assert(d =~= cs@.subrange(start as int, cs@.len() as int));
    let ghost expected = if all_ascii_digits(d) && digits_value(d) <= 65535 {
        Some(digits_value(d) as u16)
    } else {
        None
    };
    assert(u16_text(text@) == expected);
    if start == cs.len() {
        return None;
    }
    assert(cs@.subrange(start as int, start as int) =~= Seq::<char>::empty());
    let mut acc: u32 = 0;
    let mut i: usize = start;
    while i < cs.len()
        invariant
            cs@ == text@,
            start <= i <= cs@.len(),
            d == cs@.subrange(start as int, cs@.len() as int),
            forall|k: int| start <= k < i ==> '0' <= #[trigger] cs@[k] <= '9',
            acc == digits_value(cs@.subrange(start as int, i as int)),
            acc <= 65535,
            u16_text(text@) == expected,
            expected == (if all_ascii_digits(d) && digits_value(d) <= 65535 {
                Some(digits_value(d) as u16)
            } else {
                None
            }),
        decreases cs.len() - i,
    {
        let c = cs[i];
        if !('0' <= c && c <= '9') {
            assert(d[i - start] == c);
            assert(!all_ascii_digits(d));
            return None;
        }
        let v: u32 = (c as u32) - 48;
        assert(cs@.subrange(start as int, i + 1).drop_last() =~= cs@.subrange(start as int, i as int));
        let next: u32 = acc * 10 + v;
        if next > 65535 {
            proof {
                if all_ascii_digits(d) {
                    lemma_digits_value_grows(d, i + 1 - start, d.len() as int);
                    assert(d.subrange(0, i + 1 - start) =~= cs@.subrange(start as int, i + 1));
                    assert(d.subrange(0, d.len() as int) =~= d);
                }
            }
            return None;
        }
        acc = next;
        i = i + 1;
    }
    assert(cs@.subrange(start as int, cs@.len() as int) == d);
    Some(acc as u16)
}

/// The decimal text of a port.
pub fn port_text(n: u16) -> (r: String)
    ensures
        r@ == decimal(n as nat),
{
    let v = decimal_chars(n);
    string_from_chars(&v)
}

/// `i` is the first position of `c` in `s`.
pub open spec fn is_first_index(s: Seq<char>, c: char, i: int) -> bool {
    &&& 0 <= i < s.len()
    &&& s[i] == c
    &&& forall|k: int| 0 <= k < i ==> s[k] != c
}

/// `i` is the last position of `c` in `s`.
pub open spec fn is_last_index(s: Seq<char>, c: char, i: int) -> bool {
    &&& 0 <= i < s.len()
    &&& s[i] == c
    &&& forall|k: int| i < k < s.len() ==> s[k] != c
}

/// `s` is non-empty and made of ASCII digits only.
pub open spec fn all_ascii_digits(s: Seq<char>) -> bool {
    s.len() > 0 && forall|k: int| 0 <= k < s.len() ==> '0' <= #[trigger] s[k] <= '9'
}

/// How `host[:port]` splits: a bracketed IPv6 literal keeps everything up to its first `]` as
/// the host, and a port is what follows a `:` right after it; otherwise the port is what
/// follows the last `:`. Either way there is a port only when it is a non-empty run of ASCII
/// digits.
pub open spec fn host_port_split(s: Seq<char>) -> (Seq<char>, Option<Seq<char>>) {
    if s.len() > 0 && s[0] == '[' {
        if exists|e: int| is_first_index(s, ']', e) {
            let e = choose|e: int| is_first_index(s, ']', e);
            let rest = s.subrange(e + 1, s.len() as int);
            (
                s.subrange(0, e + 1),
                if rest.len() > 1 && rest[0] == ':' && all_ascii_digits(rest.subrange(1, rest.len() as int)) {
                    Some(rest.subrange(1, rest.len() as int))
                } else {
                    None
                },
            )
        } else {
            (s, None)
        }
    } else if exists|j: int| is_last_index(s, ':', j) {
        let j = choose|j: int| is_last_index(s, ':', j);
        let port = s.subrange(j + 1, s.len() as int);
        if all_ascii_digits(port) {
            (s.subrange(0, j), Some(port))
        } else {
            (s, None)
        }
    } else {
        (s, None)
    }
}

/// Splits a `URL.host` value into host and optional port, as described by
/// [`host_port_split`].
pub fn split_host_port(input: &str) -> (res: (&str, Option<&str>))
    ensures
        res.0@ == host_port_split(input@).0,
        res.1 matches Some(p) ==> host_port_split(input@).1 == Some(p@),
        res.1 is None ==> host_port_split(input@).1 is None,
{
    let cs = chars_of(input);
    if cs.len() > 0 && cs[0] == '[' {
        split_bracketed(input, &cs)
    } else {
        split_last_colon(input, &cs)
    }
}

fn split_bracketed<'a>(input: &'a str, cs: &Vec<char>) -> (res: (&'a str, Option<&'a str>))
    requires
        cs@ == input@,
        cs@.len() > 0,
        cs@[0] == '[',
    ensures
        res.0@ == host_port_split(input@).0,
        res.1 matches Some(p) ==> host_port_split(input@).1 == Some(p@),
        res.1 is None ==> host_port_split(input@).1 is None,
{
    let n = cs.len();
    let ghost s = input@;
    let mut i: usize = 0;
    while i < n
        invariant
            cs@ == s,
            s == input@,
            n == s.len(),
            s[0] == '[',
            i <= n,
            forall|k: int| 0 <= k < i ==> s[k] != ']',
        decreases n - i,
    {
        if cs[i] == ']' {
            let host = input.substring_char(0, i + 1);
            proof {
                assert(is_first_index(s, ']', i as int));
                let e = choose|e: int| is_first_index(s, ']', e);
                if e < i {
                    assert(s[e] != ']');
                } else if e > i {
                    assert(s[i as int] != ']');
                }
                assert(e == i);
                assert(host@ == host_port_split(s).0);
            }
            if n - i > 2 && cs[i + 1] == ':' && all_digits_from(cs, i + 2) {
                let port = input.substring_char(i + 2, n);
                proof {
                    let rest = s.subrange(i + 1, n as int);
                    assert(rest[0] == s[i + 1]);
                    assert(rest.subrange(1, rest.len() as int) =~= s.subrange(i + 2, n as int));
                    assert(Some(port@) == host_port_split(s).1);
                }
                return (host, Some(port));
            }
            proof {
                let rest = s.subrange(i + 1, n as int);
                if rest.len() > 1 {
                    assert(rest[0] == s[i + 1]);
                    assert(rest.subrange(1, rest.len() as int) =~= s.subrange(i + 2, n as int));
                }
                assert(host_port_split(s).1 is None);
            }
            return (host, None);
        }
        i = i + 1;
    }
    (input, None)
}

fn split_last_colon<'a>(input: &'a str, cs: &Vec<char>) -> (res: (&'a str, Option<&'a str>))
    requires
        cs@ == input@,
        !(cs@.len() > 0 && cs@[0] == '['),
    ensures
        res.0@ == host_port_split(input@).0,
        res.1 matches Some(p) ==> host_port_split(input@).1 == Some(p@),
        res.1 is None ==> host_port_split(input@).1 is None,
{
    let n = cs.len();
    let ghost s = input@;
    let mut j: usize = n;
    while j > 0
        invariant
            cs@ == s,
            s == input@,
            n == s.len(),
            !(n > 0 && s[0] == '['),
            j <= n,
            forall|k: int| j <= k < n ==> s[k] != ':',
        decreases j,
    {
        if cs[j - 1] == ':' {
            let ghost jj = (j - 1) as int;
            proof {
                assert(is_last_index(s, ':', jj));
                let e = choose|e: int| is_last_index(s, ':', e);
                if e < jj {
                    assert(s[jj] != ':');
                } else if e > jj {
                    assert(s[e] != ':');
                }
                assert(e == jj);
            }
            let ok = all_digits_from(cs, j);
            if ok {
                let host = input.substring_char(0, j - 1);
                let port = input.substring_char(j, n);
                return (host, Some(port));
            }
            return (input, None);
        }
        j = j - 1;
    }
    (input, None)
}

/// Whether `cs[from..]` is a non-empty run of ASCII digits.
fn all_digits_from(cs: &Vec<char>, from: usize) -> (ok: bool)
    requires
        from <= cs@.len(),
    ensures
        ok == all_ascii_digits(cs@.subrange(from as int, cs@.len() as int)),
{
    let n = cs.len();
    let ghost tail = cs@.subrange(from as int, n as int);
    if from == n {
        return false;
    }
    let mut k: usize = from;
    while k < n
        invariant
            n == cs@.len(),
            tail == cs@.subrange(from as int, n as int),
            from <= k <= n,
            forall|t: int| from <= t < k ==> '0' <= #[trigger] cs@[t] <= '9',
        decreases n - k,
    {
        if !('0' <= cs[k] && cs[k] <= '9') {
            assert(tail[k - from] == cs@[k as int]);
            return false;
        }
        k = k + 1;
    }
    assert forall|t: int| 0 <= t < tail.len() implies '0' <= #[trigger] tail[t] <= '9' by {
        assert(tail[t] == cs@[t + from]);
    }
    true
}

/// The search parameters that a URL's query holds.
pub open spec fn params_of(href: Seq<char>) -> Seq<(Seq<char>, Seq<char>)> {
    query_pairs(url_query(href))
}

/// Why a URL could not be made.
#[derive(Debug, Clone, Copy, PartialEq, Eq, Structural)]
pub enum UrlError {
    /// The text does not parse as a URL (against the base, when one is given).
    Invalid,
}

/// `URL`: the serialisation and the search parameters linked to it.
pub struct Url {
    href: String,
    params: URLSearchParams,
}

/// The view of a URL.
pub struct UrlView {
    pub href: Seq<char>,
    pub params: Seq<(Seq<char>, Seq<char>)>,
}

impl View for Url {
    type V = UrlView;

    closed spec fn view(&self) -> UrlView {
        UrlView { href: self.href@, params: self.params@ }
    }
}

/// `text` with every trailing `:` removed.
pub open spec fn trim_colons(text: Seq<char>) -> Seq<char>
    decreases text.len(),
{
    if text.len() > 0 && text.last() == ':' {
        trim_colons(text.drop_last())
    } else {
        text
    }
}

/// `None` for the empty string, the text otherwise.
pub open spec fn non_empty(text: Seq<char>) -> Option<Seq<char>> {
    if text.len() == 0 {
        None
    } else {
        Some(text)
    }
}

/// `text` without one leading `c`.
pub open spec fn strip_one(text: Seq<char>, c: char) -> Seq<char> {
    if text.len() > 0 && text[0] == c {
        text.drop_first()
    } else {
        text
    }
}

/// `host`: the host, with `:port` when the URL has a non-default port; empty without a host.
pub open spec fn host_text(href: Seq<char>) -> Seq<char> {
    match url_host(href) {
        None => Seq::empty(),
        Some(h) => match url_port(href) {
            Some(p) => h + seq![':'] + decimal(p as nat),
            None => h,
        },
    }
}

/// `origin`: `null` without a host, else `scheme://host[:port]`.
pub open spec fn origin_text(href: Seq<char>) -> Seq<char> {
    match url_host(href) {
        None => "null"@,
        Some(h) => match url_port(href) {
            Some(p) => url_scheme(href) + seq![':', '/', '/'] + h + seq![':'] + decimal(p as nat),
            None => url_scheme(href) + seq![':', '/', '/'] + h,
        },
    }
}

/// A query or fragment shown with its sigil, or the empty string when absent or empty.
pub open spec fn with_sigil(part: Option<Seq<char>>, sigil: char) -> Seq<char> {
    match part {
        Some(q) => if q.len() > 0 {
            seq![sigil] + q
        } else {
            Seq::empty()
        },
        None => Seq::empty(),
    }
}

/// The serialisation after the `host` setter: an empty value clears the host; otherwise the
/// host part is set and, when that succeeds and a port part parses, the port too.
pub open spec fn host_set(href: Seq<char>, value: Seq<char>) -> Seq<char> {
    if value.len() == 0 {
        match url_with_host(href, None) {
            Some(h) => h,
            None => href,
        }
    } else {
        let (host, port) = host_port_split(value);
        match url_with_host(href, Some(host)) {
            None => href,
            Some(h) => match port {
                Some(p) => match u16_text(p) {
                    Some(n) => url_with_port(h, Some(n)),
                    None => h,
                },
                None => h,
            },
        }
    }
}

/// The serialisation after the `port` setter: empty clears it, a value that parses as a 16-bit
/// number sets it, anything else is ignored.
pub open spec fn port_set(href: Seq<char>, value: Seq<char>) -> Seq<char> {
    if value.len() == 0 {
        url_with_port(href, None)
    } else {
        match u16_text(value) {
            Some(n) => url_with_port(href, Some(n)),
            None => href,
        }
    }
}

fn strip_leading(text: &str, c: char) -> (r: String)
    ensures
        r@ == strip_one(text@, c),
{
    let cs = chars_of(text);
    let mut out: Vec<char> = Vec::new();
    let start: usize = if cs.len() > 0 && cs[0] == c {
        1
    } else {
        0
    };
    let mut i: usize = start;
    while i < cs.len()
        invariant
            cs@ == text@,
            start <= i <= cs@.len(),
            out@ == cs@.subrange(start as int, i as int),
        decreases cs.len() - i,
    {
        out.push(cs[i]);
        i = i + 1;
        assert(out@ =~= cs@.subrange(start as int, i as int));
    }
    assert(strip_one(text@, c) =~= cs@.subrange(start as int, cs@.len() as int));
    string_from_chars(&out)
}

fn trim_trailing_colons(text: &str) -> (r: String)
    ensures
        r@ == trim_colons(text@),
{
    let cs = chars_of(text);
    let mut n: usize = cs.len();
    assert(cs@.subrange(0, n as int) =~= cs@);
    while n > 0 && cs[n - 1] == ':'
        invariant
            cs@ == text@,
            n <= cs@.len(),
            trim_colons(cs@.subrange(0, n as int)) == trim_colons(text@),
        decreases n,
    {
        assert(cs@.subrange(0, n as int).drop_last() =~= cs@.subrange(0, n - 1));
        n = n - 1;
    }
    let mut out: Vec<char> = Vec::new();
    let mut i: usize = 0;
    while i < n
        invariant
            cs@ == text@,
            n <= cs@.len(),
            i <= n,
            out@ == cs@.subrange(0, i as int),
        decreases n - i,
    {
        out.push(cs[i]);
        i = i + 1;
        assert(out@ =~= cs@.subrange(0, i as int));
    }
    string_from_chars(&out)
}

fn params_for(href: &str) -> (p: URLSearchParams)
    ensures
        p@ == params_of(href@),
{
    let q = query_of(href);
    URLSearchParams::from_query(opt_as_str(&q))
}

fn opt_as_str(o: &Option<String>) -> (r: Option<&str>)
    ensures
        opt_str_view(r) == opt_view(*o),
{
    match o {
        Some(s) => Some(s.as_str()),
        None => None,
    }
}

/// A URL given as text or as a URL.
pub enum StringOrUrl<'a> {
    String(&'a str),
    Url(&'a Url),
}

impl<'a> StringOrUrl<'a> {
    /// The text: the string itself, or the URL's serialisation.
    pub open spec fn text(&self) -> Seq<char> {
        match self {
            StringOrUrl::String(s) => s@,
            StringOrUrl::Url(u) => u@.href,
        }
    }

    /// The text, as an owned string.
    pub fn as_str(&self) -> (r: String)
        ensures
            r@ == self.text(),
    {
        match self {
            StringOrUrl::String(s) => owned(s),
            StringOrUrl::Url(u) => u.get_href(),
        }
    }

    /// The URL: the text parsed, or the URL itself copied.
    pub fn to_url(&self) -> (r: Result<Url, UrlError>)
        ensures
            match r {
                Ok(u) => constructed(self.text(), *self is Url, None) == Some(u@.href)
                    && u@.params == params_of(u@.href),
                Err(_) => constructed(self.text(), *self is Url, None) is None,
            },
    {
        match self {
            StringOrUrl::String(s) => Url::from_str(s),
            StringOrUrl::Url(u) => Ok(u.duplicate()),
        }
    }
}

/// The text of an optional `StringOrUrl`.
pub open spec fn opt_text(o: Option<StringOrUrl>) -> Option<Seq<char>> {
    match o {
        Some(x) => Some(x.text()),
        None => None,
    }
}

/// What the constructor makes of `url` (its text, and whether it is already a URL) and an
/// optional base text: the join when there is a base, the copy of a URL, or the text parsed.
pub open spec fn constructed(url: Seq<char>, is_url: bool, base: Option<Seq<char>>) -> Option<Seq<char>> {
    match base {
        Some(b) => joined_url(b, url),
        None => if is_url {
            Some(url)
        } else {
            parsed_url(url)
        },
    }
}

impl Url {
    fn from_href(href: String) -> (u: Url)
        ensures
            u@.href == href@,
            u@.params == params_of(href@),
    {
        let params = params_for(href.as_str());
        Url { href, params }
    }

    /// Parses `url` on its own.
    pub fn from_str(url: &str) -> (r: Result<Url, UrlError>)
        ensures
            match r {
                Ok(u) => parsed_url(url@) == Some(u@.href) && u@.params == params_of(u@.href),
                Err(_) => parsed_url(url@) is None,
            },
    {
        match parse_url(url) {
            Some(h) => Ok(Url::from_href(h)),
            None => Err(UrlError::Invalid),
        }
    }

    /// `new URL(url, base)`: `url` resolved against `base` when one is given; otherwise `url`
    /// parsed, or, for a URL, an independent copy of it.
    pub fn new(url: StringOrUrl, base: Option<StringOrUrl>) -> (r: Result<Url, UrlError>)
        ensures
            match r {
                Ok(u) => constructed(url.text(), url is Url, opt_text(base)) == Some(u@.href)
                    && u@.params == params_of(u@.href),
                Err(_) => constructed(url.text(), url is Url, opt_text(base)) is None,
            },
    {
        match base {
            Some(b) => {
                let input = url.as_str();
                let base_text = b.as_str();
                match join_url(base_text.as_str(), input.as_str()) {
                    Some(h) => Ok(Url::from_href(h)),
                    None => Err(UrlError::Invalid),
                }
            },
            None => match url {
                StringOrUrl::String(s) => Url::from_str(s),
                StringOrUrl::Url(u) => Ok(u.duplicate()),
            },
        }
    }

    /// An independent copy.
    pub fn duplicate(&self) -> (u: Url)
        ensures
            u@.href == self@.href,
            u@.params == params_of(self@.href),
    {
        Url::from_href(owned(self.href.as_str()))
    }

    /// `URL.canParse(url, base)`: whether `url` parses, against `base` when one is given.
    pub fn can_parse(url: StringOrUrl, base: Option<StringOrUrl>) -> (b: bool)
        ensures
            b == match opt_text(base) {
                Some(bs) => joined_url(bs, url.text()) is Some,
                None => parsed_url(url.text()) is Some,
            },
    {
        let input = url.as_str();
        match base {
            Some(b) => {
                let base_text = b.as_str();
                join_url(base_text.as_str(), input.as_str()).is_some()
            },
            None => parse_url(input.as_str()).is_some(),
        }
    }

    /// The serialisation.
    pub fn to_stdstring(&self) -> (h: String)
        ensures
            h@ == self@.href,
    {
        self.get_href()
    }

    /// `toString()`: the serialisation.
    pub fn to_string(&self) -> (h: String)
        ensures
            h@ == self@.href,
    {
        self.get_href()
    }

    /// `toJSON()`: the serialisation.
    pub fn to_json(&self) -> (h: String)
        ensures
            h@ == self@.href,
    {
        self.get_href()
    }

    /// `href`.
    pub fn get_href(&self) -> (h: String)
        ensures
            h@ == self@.href,
    {
        owned(self.href.as_str())
    }

    /// `href = value`: the URL is replaced by `value` parsed, and the search parameters follow.
    pub fn set_href(&mut self, value: &str) -> (r: Result<(), UrlError>)
        ensures
            match r {
                Ok(()) => parsed_url(value@) == Some(final(self)@.href) && final(self)@.params == params_of(
                    final(self)@.href,
                ),
                Err(_) => parsed_url(value@) is None && final(self)@ == old(self)@,
            },
    {
        match parse_url(value) {
            Some(h) => {
                *self = Url::from_href(h);
                Ok(())
            },
            None => Err(UrlError::Invalid),
        }
    }

    /// `protocol`: the scheme and a colon.
    pub fn get_protocol(&self) -> (p: String)
        ensures
            p@ == url_scheme(self@.href) + seq![':'],
    {
        let mut out: Vec<char> = Vec::new();
        let scheme = scheme_of(self.href.as_str());
        push_chars(&mut out, &scheme);
        out.push(':');
        assert(out@ =~= url_scheme(self@.href) + seq![':']);
        string_from_chars(&out)
    }

    /// `protocol = value`: the scheme without its trailing colons (a refused change leaves the
    /// URL as it is).
    pub fn set_protocol(&mut self, value: &str)
        ensures
            final(self)@ == (UrlView { href: url_with_scheme(old(self)@.href, trim_colons(value@)), ..old(self)@ }),
    {
        let scheme = trim_trailing_colons(value);
        self.href = set_scheme_of(self.href.as_str(), scheme.as_str());
    }

    /// `username`.
    pub fn get_username(&self) -> (u: String)
        ensures
            u@ == url_username(self@.href),
    {
        username_of(self.href.as_str())
    }

    /// `username = value`.
    pub fn set_username(&mut self, value: &str)
        ensures
            final(self)@ == (UrlView { href: url_with_username(old(self)@.href, value@), ..old(self)@ }),
    {
        self.href = set_username_of(self.href.as_str(), value);
    }

    /// `password`: empty when there is none.
    pub fn get_password(&self) -> (p: String)
        ensures
            p@ == match url_password(self@.href) {
                Some(p) => p,
                None => Seq::<char>::empty(),
            },
    {
        match password_of(self.href.as_str()) {
            Some(p) => p,
            None => String::new(),
        }
    }

    /// `password = value`: the empty string removes the password.
    pub fn set_password(&mut self, value: &str)
        ensures
            final(self)@ == (UrlView { href: url_with_password(old(self)@.href, non_empty(value@)), ..old(self)@ }),
    {
        let p = if value.is_empty() {
            None
        } else {
            Some(value)
        };
        self.href = set_password_of(self.href.as_str(), p);
    }

    /// `hostname`: empty without a host.
    pub fn get_hostname(&self) -> (h: String)
        ensures
            h@ == match url_host(self@.href) {
                Some(h) => h,
                None => Seq::<char>::empty(),
            },
    {
        match host_of(self.href.as_str()) {
            Some(h) => h,
            None => String::new(),
        }
    }

    /// `hostname = value`: the empty string clears the host; a refused host leaves the URL as
    /// it is.
    pub fn set_hostname(&mut self, value: &str)
        ensures
            final(self)@ == (UrlView {
                href: match url_with_host(old(self)@.href, non_empty(value@)) {
                    Some(h) => h,
                    None => old(self)@.href,
                },
                ..old(self)@
            }),
    {
        let host = if value.is_empty() {
            None
        } else {
            Some(value)
        };
        match set_host_of(self.href.as_str(), host) {
            Some(h) => {
                self.href = h;
            },
            None => {},
        }
    }

    /// `host`: the host with `:port` when there is a non-default port.
    pub fn get_host(&self) -> (h: String)
        ensures
            h@ == host_text(self@.href),
    {
        match host_of(self.href.as_str()) {
            None => String::new(),
            Some(h) => match port_of(self.href.as_str()) {
                Some(p) => {
                    let mut out: Vec<char> = Vec::new();
                    push_chars(&mut out, &h);
                    out.push(':');
                    let pt = port_text(p);
                    push_chars(&mut out, &pt);
                    assert(out@ =~= h@ + seq![':'] + decimal(p as nat));
                    string_from_chars(&out)
                },
                None => h,
            },
        }
    }

    /// `host = value`.
    pub fn set_host(&mut self, value: &str)
        ensures
            final(self)@ == (UrlView { href: host_set(old(self)@.href, value@), ..old(self)@ }),
    {
        if value.is_empty() {
            match set_host_of(self.href.as_str(), None) {
                Some(h) => {
                    self.href = h;
                },
                None => {},
            }
            return;
        }
        let (host, port) = split_host_port(value);
        match set_host_of(self.href.as_str(), Some(host)) {
            None => {},
            Some(h) => {
                let next = match port {
                    Some(p) => match parse_u16(p) {
                        Some(n) => set_port_of(h.as_str(), Some(n)),
                        None => h,
                    },
                    None => h,
                };
                self.href = next;
            },
        }
    }

    /// `port`: empty for a default or absent port.
    pub fn get_port(&self) -> (p: String)
        ensures
            p@ == match url_port(self@.href) {
                Some(n) => decimal(n as nat),
                None => Seq::<char>::empty(),
            },
    {
        match port_of(self.href.as_str()) {
            Some(n) => port_text(n),
            None => String::new(),
        }
    }

    /// `port = value`.
    pub fn set_port(&mut self, value: &str)
        ensures
            final(self)@ == (UrlView { href: port_set(old(self)@.href, value@), ..old(self)@ }),
    {
        if value.is_empty() {
            self.href = set_port_of(self.href.as_str(), None);
        } else {
            match parse_u16(value) {
                Some(n) => {
                    self.href = set_port_of(self.href.as_str(), Some(n));
                },
                None => {},
            }
        }
    }

    /// `pathname`.
    pub fn get_pathname(&self) -> (p: String)
        ensures
            p@ == url_path(self@.href),
    {
        path_of(self.href.as_str())
    }

    /// `pathname = value`.
    pub fn set_pathname(&mut self, value: &str)
        ensures
            final(self)@ == (UrlView { href: url_with_path(old(self)@.href, value@), ..old(self)@ }),
    {
        self.href = set_path_of(self.href.as_str(), value);
    }

    /// `search`: `?` and the query, or empty when it is absent or empty.
    pub fn get_search(&self) -> (s: String)
        ensures
            s@ == with_sigil(url_query(self@.href), '?'),
    {
        match query_of(self.href.as_str()) {
            Some(q) => if q.as_str().is_empty() {
                String::new()
            } else {
                let mut out: Vec<char> = Vec::new();
                out.push('?');
                push_chars(&mut out, &q);
                assert(out@ =~= seq!['?'] + q@);
                string_from_chars(&out)
            },
            None => String::new(),
        }
    }

    /// `search = value`: one leading `?` is dropped, the empty string removes the query, and
    /// the search parameters are read again from the new query.
    pub fn set_search(&mut self, value: &str)
        ensures
            final(self)@.href == url_with_query(old(self)@.href, non_empty(strip_one(value@, '?'))),
            final(self)@.params == params_of(final(self)@.href),
    {
        let trimmed = strip_leading(value, '?');
        let q = if trimmed.as_str().is_empty() {
            None
        } else {
            Some(trimmed.as_str())
        };
        let h = set_query_of(self.href.as_str(), q);
        *self = Url::from_href(h);
    }

    /// `hash`: `#` and the fragment, or empty when it is absent or empty.
    pub fn get_hash(&self) -> (s: String)
        ensures
            s@ == with_sigil(url_fragment(self@.href), '#'),
    {
        match fragment_of(self.href.as_str()) {
            Some(f) => if f.as_str().is_empty() {
                String::new()
            } else {
                let mut out: Vec<char> = Vec::new();
                out.push('#');
                push_chars(&mut out, &f);
                assert(out@ =~= seq!['#'] + f@);
                string_from_chars(&out)
            },
            None => String::new(),
        }
    }

    /// `hash = value`: one leading `#` is dropped and the empty string removes the fragment.
    pub fn set_hash(&mut self, value: &str)
        ensures
            final(self)@ == (UrlView {
                href: url_with_fragment(old(self)@.href, non_empty(strip_one(value@, '#'))),
                ..old(self)@
            }),
    {
        let trimmed = strip_leading(value, '#');
        let f = if trimmed.as_str().is_empty() {
            None
        } else {
            Some(trimmed.as_str())
        };
        self.href = set_fragment_of(self.href.as_str(), f);
    }

    /// `origin`.
    pub fn get_origin(&self) -> (o: String)
        ensures
            o@ == origin_text(self@.href),
    {
        match host_of(self.href.as_str()) {
            None => owned("null"),
            Some(h) => {
                let scheme = scheme_of(self.href.as_str());
                let mut out: Vec<char> = Vec::new();
                push_chars(&mut out, &scheme);
                out.push(':');
                out.push('/');
                out.push('/');
                push_chars(&mut out, &h);
                match port_of(self.href.as_str()) {
                    Some(p) => {
                        out.push(':');
                        let pt = port_text(p);
                        push_chars(&mut out, &pt);
                        assert(out@ =~= url_scheme(self@.href) + seq![':', '/', '/'] + h@ + seq![':'] + decimal(p as nat));
                    },
                    None => {
                        assert(out@ =~= url_scheme(self@.href) + seq![':', '/', '/'] + h@);
                    },
                }
                string_from_chars(&out)
            },
        }
    }

    /// `searchParams`.
    pub fn search_params(&self) -> (p: &URLSearchParams)
        ensures
            p@ == self@.params,
    {
        &self.params
    }

    /// Writes a query serialised by the linked search parameters back into the URL: the empty
    /// query removes it. The search parameters themselves are left as they are.
    pub fn set_query_from_search_params(&mut self, query: &str)
        ensures
            final(self)@.href == url_with_query(old(self)@.href, non_empty(query@)),
            final(self)@.params == old(self)@.params,
    {
        let q = if query.is_empty() {
            None
        } else {
            Some(query)
        };
        self.href = set_query_of(self.href.as_str(), q);
    }

    /// Replaces the search parameters (after they were changed through `searchParams`) and
    /// writes their serialisation back as the query.
    pub fn set_search_params(&mut self, params: URLSearchParams)
        ensures
            final(self)@.params == params@,
            final(self)@.href == url_with_query(old(self)@.href, non_empty(serialize_pairs(params@))),
    {
        let query = params.to_string();
        self.set_query_from_search_params(query.as_str());
        self.params = params;
    }
}

} // verus!
