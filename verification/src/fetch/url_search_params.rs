//! `URLSearchParams`: an ordered list of name/value pairs, parsed from and serialised to an
//! `application/x-www-form-urlencoded` query.
use vstd::prelude::*;
use vstd::string::StrSliceExecFns;

use crate::text::{chars_of, owned, push_chars, string_from_chars};

verus! {

/// The pairs of `application/x-www-form-urlencoded` text, in order (`+` and percent escapes
/// decoded, invalid UTF-8 replaced).
pub uninterp spec fn form_pairs(input: Seq<char>) -> Seq<(Seq<char>, Seq<char>)>;

/// `urlencoding::encode`: percent-encoding of every byte of the UTF-8 text except ASCII
/// alphanumerics and `-`, `_`, `.`, `~`.
pub uninterp spec fn percent_encoded(text: Seq<char>) -> Seq<char>;

/// The view of owned pairs.
pub open spec fn pairs_view(v: Seq<(String, String)>) -> Seq<(Seq<char>, Seq<char>)> {
    Seq::new(v.len(), |i: int| (v[i].0@, v[i].1@))
}

/// `form_urlencoded::parse` over the query's bytes, each decoded pair made owned.
#[verifier::external_body]
pub(crate) fn parse_form(query: &str) -> (pairs: Vec<(String, String)>)
    ensures
        pairs_view(pairs@) == form_pairs(query@),
{
    form_urlencoded::parse(query.as_bytes()).map(|(k, v)| (k.into_owned(), v.into_owned())).collect()
}

/// `urlencoding::encode`, made owned.
#[verifier::external_body]
fn encode_component(text: &str) -> (s: String)
    ensures
        s@ == percent_encoded(text@),
{
    urlencoding::encode(text).into_owned()
}

/// The query without one leading `?`.
pub open spec fn strip_question(q: Seq<char>) -> Seq<char> {
    if q.len() > 0 && q[0] == '?' {
        q.drop_first()
    } else {
        q
    }
}

/// The value of the first pair named `k`.
pub open spec fn first_value<V>(s: Seq<(Seq<char>, V)>, k: Seq<char>) -> Option<V>
    decreases s.len(),
{
    if s.len() == 0 {
        None
    } else if s[0].0 == k {
        Some(s[0].1)
    } else {
        first_value(s.drop_first(), k)
    }
}

/// The values of every pair named `k`, in order.
pub open spec fn all_values<V>(s: Seq<(Seq<char>, V)>, k: Seq<char>) -> Seq<V>
    decreases s.len(),
{
    if s.len() == 0 {
        Seq::empty()
    } else if s.last().0 == k {
        all_values(s.drop_last(), k).push(s.last().1)
    } else {
        all_values(s.drop_last(), k)
    }
}

/// The pairs not named `k`, in order.
pub open spec fn without_key<V>(s: Seq<(Seq<char>, V)>, k: Seq<char>) -> Seq<(Seq<char>, V)>
    decreases s.len(),
{
    if s.len() == 0 {
        s
    } else if s.last().0 == k {
        without_key(s.drop_last(), k)
    } else {
        without_key(s.drop_last(), k).push(s.last())
    }
}

/// Some pair is named `k`.
pub open spec fn has_key<V>(s: Seq<(Seq<char>, V)>, k: Seq<char>) -> bool {
    exists|i: int| 0 <= i < s.len() && #[trigger] s[i].0 == k
}

/// `i` is the first pair named `k`.
pub open spec fn is_first_key<V>(s: Seq<(Seq<char>, V)>, k: Seq<char>, i: int) -> bool {
    0 <= i < s.len() && s[i].0 == k && forall|j: int| 0 <= j < i ==> #[trigger] s[j].0 != k
}

/// `set(k, v)`: the first pair named `k` takes value `v` in place and every later one is
/// removed; with no such pair, `(k, v)` is appended.
pub open spec fn set_pairs<V>(s: Seq<(Seq<char>, V)>, k: Seq<char>, v: V) -> Seq<(Seq<char>, V)> {
    if has_key(s, k) {
        let i = choose|i: int| is_first_key(s, k, i);
        s.subrange(0, i).push((k, v)) + without_key(s.subrange(i + 1, s.len() as int), k)
    } else {
        s.push((k, v))
    }
}

/// The serialised query: `name=value` pairs, each side percent-encoded, joined by `&`.
pub open spec fn serialize_pairs(s: Seq<(Seq<char>, Seq<char>)>) -> Seq<char>
    decreases s.len(),
{
    if s.len() == 0 {
        Seq::empty()
    } else {
        let last = percent_encoded(s.last().0) + seq!['='] + percent_encoded(s.last().1);
        if s.len() == 1 {
            last
        } else {
            serialize_pairs(s.drop_last()) + seq!['&'] + last
        }
    }
}

/// The characters of an optional string.
pub open spec fn opt_str_view(o: Option<&str>) -> Option<Seq<char>> {
    match o {
        Some(s) => Some(s@),
        None => None,
    }
}

/// The pairs of an optional query: those of the query without a leading `?`, none without one.
pub open spec fn query_pairs(q: Option<Seq<char>>) -> Seq<(Seq<char>, Seq<char>)> {
    match q {
        Some(q) => form_pairs(strip_question(q)),
        None => Seq::empty(),
    }
}

/// `URLSearchParams`.
pub struct URLSearchParams {
    entries: Vec<(String, String)>,
}

impl View for URLSearchParams {
    type V = Seq<(Seq<char>, Seq<char>)>;

    closed spec fn view(&self) -> Seq<(Seq<char>, Seq<char>)> {
        pairs_view(self.entries@)
    }
}

proof fn lemma_pairs_view_push(v: Seq<(String, String)>, p: (String, String))
    ensures
        pairs_view(v.push(p)) == pairs_view(v).push((p.0@, p.1@)),
{
    assert(pairs_view(v.push(p)) =~= pairs_view(v).push((p.0@, p.1@)));
}

impl URLSearchParams {
    /// Empty parameters.
    pub fn new() -> (r: URLSearchParams)
        ensures
            r@ == Seq::<(Seq<char>, Seq<char>)>::empty(),
    {
        let r = URLSearchParams { entries: Vec::new() };
        assert(r@ =~= Seq::<(Seq<char>, Seq<char>)>::empty());
        r
    }

    /// Parameters holding these pairs, in order (from a sequence or record init).
    pub fn from_pairs(pairs: Vec<(String, String)>) -> (r: URLSearchParams)
        ensures
            r@ == pairs_view(pairs@),
    {
        URLSearchParams { entries: pairs }
    }

    /// Parses a query string (with or without a leading `?`), as the string form of the init
    /// does.
    pub fn from_str(qs: &str) -> (r: URLSearchParams)
        ensures
            r@ == form_pairs(strip_question(qs@)),
    {
        let rest = strip_leading_question(qs);
        let pairs = parse_form(rest);
        URLSearchParams { entries: pairs }
    }

    /// The parameters of a URL's query: none without a query.
    pub fn from_query(query: Option<&str>) -> (r: URLSearchParams)
        ensures
            r@ == query_pairs(opt_str_view(query)),
    {
        match query {
            Some(q) => URLSearchParams::from_str(q),
            None => URLSearchParams::new(),
        }
    }

    /// Replaces the whole contents with the parameters of a new query.
    pub fn reset_from_query(&mut self, query: Option<&str>)
        ensures
            final(self)@ == query_pairs(opt_str_view(query)),
    {
        *self = URLSearchParams::from_query(query);
    }

    /// The pairs, in order.
    pub fn entries(&self) -> (r: Vec<(String, String)>)
        ensures
            pairs_view(r@) == self@,
    {
        let mut out: Vec<(String, String)> = Vec::new();
        let mut i: usize = 0;
        while i < self.entries.len()
            invariant
                i <= self.entries@.len(),
                pairs_view(out@) == pairs_view(self.entries@).subrange(0, i as int),
            decreases self.entries.len() - i,
        {
            let (k, v) = &self.entries[i];
            let pair = (k.clone(), v.clone());
            proof {
                lemma_pairs_view_push(out@, pair);
            }
            out.push(pair);
            i = i + 1;
            assert(pairs_view(out@) =~= pairs_view(self.entries@).subrange(0, i as int));
        }
        assert(pairs_view(self.entries@).subrange(0, i as int) =~= pairs_view(self.entries@));
        out
    }

    /// The names of the pairs, in order.
    pub fn keys(&self) -> (r: Vec<String>)
        ensures
            r@.len() == self@.len(),
            forall|i: int| 0 <= i < r@.len() ==> #[trigger] r@[i]@ == self@[i].0,
    {
        let mut out: Vec<String> = Vec::new();
        let mut i: usize = 0;
        while i < self.entries.len()
            invariant
                i <= self.entries@.len(),
                out@.len() == i,
                forall|j: int| 0 <= j < i ==> #[trigger] out@[j]@ == self.entries@[j].0@,
            decreases self.entries.len() - i,
        {
            out.push(self.entries[i].0.clone());
            i = i + 1;
        }
        out
    }

    /// The values of the pairs, in order.
    pub fn values(&self) -> (r: Vec<String>)
        ensures
            r@.len() == self@.len(),
            forall|i: int| 0 <= i < r@.len() ==> #[trigger] r@[i]@ == self@[i].1,
    {
        let mut out: Vec<String> = Vec::new();
        let mut i: usize = 0;
        while i < self.entries.len()
            invariant
                i <= self.entries@.len(),
                out@.len() == i,
                forall|j: int| 0 <= j < i ==> #[trigger] out@[j]@ == self.entries@[j].1@,
            decreases self.entries.len() - i,
        {
            out.push(self.entries[i].1.clone());
            i = i + 1;
        }
        out
    }

    /// `size`: the number of pairs.
    pub fn size(&self) -> (n: usize)
        ensures
            n == self@.len(),
    {
        self.entries.len()
    }

    /// `get(name)`: the value of the first pair named `name`.
    pub fn get(&self, name: &str) -> (r: Option<String>)
        ensures
            match r {
                Some(v) => first_value(self@, name@) == Some(v@),
                None => first_value(self@, name@) is None,
            },
    {
        let ghost s = self@;
        let mut i: usize = 0;
        assert(s.skip(0) =~= s);
        while i < self.entries.len()
            invariant
                s == self@,
                s == pairs_view(self.entries@),
                i <= s.len(),
                first_value(s, name@) == first_value(s.skip(i as int), name@),
            decreases self.entries.len() - i,
        {
            let (k, v) = &self.entries[i];
            assert(s.skip(i as int)[0] == s[i as int]);
            if crate::text::str_equals(k.as_str(), name) {
                return Some(v.clone());
            }
            assert(s.skip(i as int).drop_first() =~= s.skip(i + 1));
            i = i + 1;
        }
        None
    }

    /// `has(name)`: whether some pair is named `name`.
    pub fn has(&self, name: &str) -> (b: bool)
        ensures
            b == has_key(self@, name@),
    {
        let ghost s = self@;
        let mut i: usize = 0;
        while i < self.entries.len()
            invariant
                s == self@,
                s == pairs_view(self.entries@),
                i <= s.len(),
                forall|j: int| 0 <= j < i ==> #[trigger] s[j].0 != name@,
            decreases self.entries.len() - i,
        {
            if crate::text::str_equals(self.entries[i].0.as_str(), name) {
                assert(s[i as int].0 == name@);
                return true;
            }
            i = i + 1;
        }
        false
    }

    /// `getAll(name)`: the values of every pair named `name`, in order.
    pub fn get_all(&self, name: &str) -> (r: Vec<String>)
        ensures
            Seq::new(r@.len(), |i: int| r@[i]@) == all_values(self@, name@),
    {
        let ghost s = self@;
        let mut out: Vec<String> = Vec::new();
        let mut i: usize = 0;
        while i < self.entries.len()
            invariant
                s == self@,
                s == pairs_view(self.entries@),
                i <= s.len(),
                Seq::new(out@.len(), |j: int| out@[j]@) == all_values(s.subrange(0, i as int), name@),
            decreases self.entries.len() - i,
        {
            let (k, v) = &self.entries[i];
            assert(s.subrange(0, i + 1).drop_last() =~= s.subrange(0, i as int));
            if crate::text::str_equals(k.as_str(), name) {
                out.push(v.clone());
            }
            i = i + 1;
            assert(Seq::new(out@.len(), |j: int| out@[j]@) =~= all_values(s.subrange(0, i as int), name@));
        }
        assert(s.subrange(0, s.len() as int) =~= s);
        out
    }

    /// `append(name, value)`: adds a pair at the end.
    pub fn append(&mut self, name: String, value: String)
        ensures
            final(self)@ == old(self)@.push((name@, value@)),
    {
        proof {
            lemma_pairs_view_push(self.entries@, (name, value));
        }
        self.entries.push((name, value));
    }

    /// `delete(name)`: removes every pair named `name`.
    pub fn delete(&mut self, name: &str)
        ensures
            final(self)@ == without_key(old(self)@, name@),
    {
        let ghost s = self@;
        let mut out: Vec<(String, String)> = Vec::new();
        let mut i: usize = 0;
        while i < self.entries.len()
            invariant
                s == pairs_view(self.entries@),
                i <= s.len(),
                pairs_view(out@) == without_key(s.subrange(0, i as int), name@),
            decreases self.entries.len() - i,
        {
            let (k, v) = &self.entries[i];
            assert(s.subrange(0, i + 1).drop_last() =~= s.subrange(0, i as int));
            if !crate::text::str_equals(k.as_str(), name) {
                let pair = (k.clone(), v.clone());
                proof {
                    lemma_pairs_view_push(out@, pair);
                }
                out.push(pair);
            }
            i = i + 1;
        }
        assert(s.subrange(0, s.len() as int) =~= s);
        self.entries = out;
    }

    /// `set(name, value)`: the first pair named `name` takes `value` in place and the others
    /// are removed; with none, the pair is appended.
    pub fn set(&mut self, name: String, value: String)
        ensures
            final(self)@ == set_pairs(old(self)@, name@, value@),
    {
        let ghost s = self@;
        let mut out: Vec<(String, String)> = Vec::new();
        let mut found = false;
        let ghost mut first: int = 0;
        let mut i: usize = 0;
        while i < self.entries.len()
            invariant
                s == pairs_view(self.entries@),
                i <= s.len(),
                !found ==> forall|j: int| 0 <= j < i ==> #[trigger] s[j].0 != name@,
                !found ==> pairs_view(out@) == s.subrange(0, i as int),
                found ==> is_first_key(s, name@, first) && first < i,
                found ==> pairs_view(out@) == s.subrange(0, first).push((name@, value@)) + without_key(
                    s.subrange(first + 1, i as int),
                    name@,
                ),
            decreases self.entries.len() - i,
        {
            let (k, v) = &self.entries[i];
            if crate::text::str_equals(k.as_str(), name.as_str()) {
                if !found {
                    let pair = (name.clone(), value.clone());
                    proof {
                        first = i as int;
                        lemma_pairs_view_push(out@, pair);
                        assert(without_key(s.subrange(first + 1, i + 1), name@) =~= Seq::empty());
                    }
                    out.push(pair);
                    found = true;
                    proof {
                        assert(pairs_view(out@) =~= s.subrange(0, first).push((name@, value@)) + without_key(
                            s.subrange(first + 1, i + 1),
                            name@,
                        ));
                    }
                } else {
                    proof {
                        assert(s.subrange(first + 1, i + 1).drop_last() =~= s.subrange(first + 1, i as int));
                    }
                }
            } else {
                let pair = (k.clone(), v.clone());
                proof {
                    lemma_pairs_view_push(out@, pair);
                    if found {
                        assert(s.subrange(first + 1, i + 1).drop_last() =~= s.subrange(first + 1, i as int));
                    }
                }
                out.push(pair);
                proof {
                    if found {
                        assert(pairs_view(out@) =~= s.subrange(0, first).push((name@, value@)) + without_key(
                            s.subrange(first + 1, i + 1),
                            name@,
                        ));
                    } else {
                        assert(pairs_view(out@) =~= s.subrange(0, i + 1));
                    }
                }
            }
            i = i + 1;
        }
        if !found {
            proof {
                lemma_pairs_view_push(out@, (name, value));
                assert(s.subrange(0, s.len() as int) =~= s);
                if has_key(s, name@) {
                    let j = choose|j: int| 0 <= j < s.len() && #[trigger] s[j].0 == name@;
                    assert(s[j].0 != name@);
                }
            }
            out.push((name, value));
        } else {
            proof {
                assert(has_key(s, name@)) by {
                    assert(s[first].0 == name@);
                }
                let c = choose|c: int| is_first_key(s, name@, c);
                if c < first {
                    assert(s[c].0 != name@);
                } else if c > first {
                    assert(s[first].0 != name@);
                }
                assert(s.subrange(first + 1, s.len() as int) =~= s.subrange(first + 1, i as int));
            }
        }
        self.entries = out;
    }

    /// The `application/x-www-form-urlencoded` serialisation (`toString()`).
    pub fn to_string(&self) -> (s: String)
        ensures
            s@ == serialize_pairs(self@),
    {
        let ghost sv = self@;
        let mut out: Vec<char> = Vec::new();
        let mut i: usize = 0;
        while i < self.entries.len()
            invariant
                sv == pairs_view(self.entries@),
                i <= sv.len(),
                out@ == serialize_pairs(sv.subrange(0, i as int)),
            decreases self.entries.len() - i,
        {
            let (k, v) = &self.entries[i];
            if i > 0 {
                out.push('&');
            }
            let ek = encode_component(k.as_str());
            let ev = encode_component(v.as_str());
            let ghost before = out@;
            push_chars(&mut out, &ek);
            out.push('=');
            push_chars(&mut out, &ev);
            proof {
                assert(sv.subrange(0, i + 1).drop_last() =~= sv.subrange(0, i as int));
                assert(sv.subrange(0, i + 1).last() == sv[i as int]);
                if i == 0 {
                    assert(out@ =~= serialize_pairs(sv.subrange(0, i + 1)));
                } else {
                    assert(out@ =~= serialize_pairs(sv.subrange(0, i + 1)));
                }
            }
            i = i + 1;
        }
        assert(sv.subrange(0, sv.len() as int) =~= sv);
        string_from_chars(&out)
    }
}

fn strip_leading_question(q: &str) -> (r: &str)
    ensures
        r@ == strip_question(q@),
{
    let cs = chars_of(q);
    if cs.len() > 0 && cs[0] == '?' {
        let r = q.substring_char(1, cs.len());
        assert(r@ =~= q@.drop_first());
        r
    } else {
        q
    }
}

/// Looking up a name after appending it finds the earlier value when there is one, the appended
/// value otherwise.
pub proof fn lemma_get_after_append<V>(s: Seq<(Seq<char>, V)>, k: Seq<char>, v: V)
    ensures
        first_value(s.push((k, v)), k) == match first_value(s, k) {
            Some(old) => Some(old),
            None => Some(v),
        },
    decreases s.len(),
{
    if s.len() > 0 {
        assert(s.push((k, v)).drop_first() =~= s.drop_first().push((k, v)));
        lemma_get_after_append(s.drop_first(), k, v);
    }
}

/// After `delete(k)` no pair is named `k`.
pub proof fn lemma_delete_removes_key<V>(s: Seq<(Seq<char>, V)>, k: Seq<char>)
    ensures
        !has_key(without_key(s, k), k),
    decreases s.len(),
{
    if s.len() > 0 {
        lemma_delete_removes_key(s.drop_last(), k);
        let w = without_key(s.drop_last(), k);
        if s.last().0 != k {
            if has_key(w.push(s.last()), k) {
                let i = choose|i: int| 0 <= i < w.push(s.last()).len() && #[trigger] w.push(s.last())[i].0 == k;
                if i < w.len() {
                    assert(w[i].0 == k);
                }
            }
        }
    }
}

/// After `set(k, v)`, `get(k)` is `v` and `getAll(k)` is just `[v]`.
pub proof fn lemma_set_then_get<V>(s: Seq<(Seq<char>, V)>, k: Seq<char>, v: V)
    ensures
        first_value(set_pairs(s, k, v), k) == Some(v),
{
    if has_key(s, k) {
        lemma_first_key_exists(s, k);
        let i = choose|i: int| is_first_key(s, k, i);
        let pre = s.subrange(0, i);
        assert forall|j: int| 0 <= j < pre.len() implies #[trigger] pre[j].0 != k by {
            assert(s[j].0 != k);
        }
        lemma_first_value_prefix_free(pre, seq![(k, v)] + without_key(s.subrange(i + 1, s.len() as int), k), k);
        assert(pre.push((k, v)) + without_key(s.subrange(i + 1, s.len() as int), k) =~= pre + (seq![(k, v)]
            + without_key(s.subrange(i + 1, s.len() as int), k)));
    } else {
        assert forall|j: int| 0 <= j < s.len() implies #[trigger] s[j].0 != k by {
            if s[j].0 == k {
                assert(has_key(s, k));
            }
        }
        lemma_first_value_prefix_free(s, seq![(k, v)], k);
        assert(s.push((k, v)) =~= s + seq![(k, v)]);
    }
}

/// A name that occurs has a first occurrence.
pub proof fn lemma_first_key_exists<V>(s: Seq<(Seq<char>, V)>, k: Seq<char>)
    requires
        has_key(s, k),
    ensures
        exists|i: int| is_first_key(s, k, i),
    decreases s.len(),
{
    if s[0].0 == k {
        assert(is_first_key(s, k, 0));
    } else {
        let w = choose|i: int| 0 <= i < s.len() && #[trigger] s[i].0 == k;
        assert(s.drop_first()[w - 1].0 == k);
        lemma_first_key_exists(s.drop_first(), k);
        let i = choose|i: int| is_first_key(s.drop_first(), k, i);
        assert forall|j: int| 0 <= j < i + 1 implies #[trigger] s[j].0 != k by {
            if j > 0 {
                assert(s.drop_first()[j - 1].0 != k);
            }
        }
        assert(is_first_key(s, k, i + 1));
    }
}

/// Looking past a prefix with no pair named `k`.
proof fn lemma_first_value_prefix_free<V>(pre: Seq<(Seq<char>, V)>, rest: Seq<(Seq<char>, V)>, k: Seq<char>)
    requires
        forall|j: int| 0 <= j < pre.len() ==> #[trigger] pre[j].0 != k,
    ensures
        first_value(pre + rest, k) == first_value(rest, k),
    decreases pre.len(),
{
    if pre.len() > 0 {
        assert((pre + rest).drop_first() =~= pre.drop_first() + rest);
        assert(pre[0].0 != k);
        assert forall|j: int| 0 <= j < pre.drop_first().len() implies #[trigger] pre.drop_first()[j].0 != k by {
            assert(pre[j + 1].0 != k);
        }
        lemma_first_value_prefix_free(pre.drop_first(), rest, k);
    }
}

} // verus!
