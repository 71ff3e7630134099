//! `Headers`: a case-insensitive multimap from header names to the list of values given for
//! them. Names are stored lowercased; `get` combines a name's values with `", "`; iteration
//! lists each name once, sorted, with its combined value.
use vstd::prelude::*;

use crate::text::{push_chars, seq_lt, str_equals, str_less, string_from_chars};

verus! {

/// `str::to_lowercase` of the text: its Unicode lowercase mapping.
pub uninterp spec fn lowercased(text: Seq<char>) -> Seq<char>;

/// `str::to_lowercase`.
#[verifier::external_body]
fn to_lowercase(text: &str) -> (r: String)
    ensures
        r@ == lowercased(text@),
{
    text.to_lowercase()
}

/// A byte that `http::HeaderValue::to_str` accepts: visible ASCII or a tab.
pub open spec fn visible_ascii(b: u8) -> bool {
    (32 <= b && b < 127) || b == 9
}

/// Every byte is [`visible_ascii`].
pub open spec fn all_visible_ascii(bytes: Seq<u8>) -> bool {
    forall|i: int| 0 <= i < bytes.len() ==> visible_ascii(#[trigger] bytes[i])
}

/// The bytes read as ASCII characters.
pub open spec fn ascii_chars(bytes: Seq<u8>) -> Seq<char> {
    Seq::new(bytes.len(), |i: int| bytes[i] as char)
}

/// `http::HeaderValue::from_bytes` followed by `HeaderValue::to_str`: the value's text when
/// every byte is visible ASCII or a tab (`from_bytes` accepts a superset of those bytes, and
/// `to_str` accepts exactly those), nothing otherwise.
#[verifier::external_body]
fn header_value_text(bytes: &[u8]) -> (r: Option<String>)
    ensures
        r is Some <==> all_visible_ascii(bytes@),
        r matches Some(t) ==> t@ == ascii_chars(bytes@),
{
    match http::HeaderValue::from_bytes(bytes) {
        Ok(v) => match v.to_str() {
            Ok(t) => Some(t.to_owned()),
            Err(_) => None,
        },
        Err(_) => None,
    }
}

/// The values of one name combined as `get` reports them: joined by `", "`.
pub open spec fn joined(vs: Seq<Seq<char>>) -> Seq<char>
    decreases vs.len(),
{
    if vs.len() == 0 {
        Seq::empty()
    } else if vs.len() == 1 {
        vs[0]
    } else {
        joined(vs.drop_last()) + seq![',', ' '] + vs.last()
    }
}

/// The header map after appending `v` under the (already lowercased) name `k`.
pub open spec fn appended(m: Map<Seq<char>, Seq<Seq<char>>>, k: Seq<char>, v: Seq<char>) -> Map<Seq<char>, Seq<Seq<char>>> {
    if m.contains_key(k) {
        m.insert(k, m[k].push(v))
    } else {
        m.insert(k, seq![v])
    }
}

/// The header map built by appending each pair in order, the name lowercased (the sequence and
/// record forms of `HeadersInit`).
pub open spec fn appended_all(pairs: Seq<(Seq<char>, Seq<char>)>) -> Map<Seq<char>, Seq<Seq<char>>>
    decreases pairs.len(),
{
    if pairs.len() == 0 {
        Map::empty()
    } else {
        appended(appended_all(pairs.drop_last()), lowercased(pairs.last().0), pairs.last().1)
    }
}

/// The header map built from native (name, value bytes) items: an item without a name, or
/// whose value is not visible ASCII, is skipped; the others are appended, the name lowercased.
pub open spec fn native_all(items: Seq<(Option<Seq<char>>, Seq<u8>)>) -> Map<Seq<char>, Seq<Seq<char>>>
    decreases items.len(),
{
    if items.len() == 0 {
        Map::empty()
    } else {
        let before = native_all(items.drop_last());
        match items.last().0 {
            Some(name) => if all_visible_ascii(items.last().1) {
                appended(before, lowercased(name), ascii_chars(items.last().1))
            } else {
                before
            },
            None => before,
        }
    }
}

/// `s` is strictly increasing in [`seq_lt`] order.
pub open spec fn strictly_sorted(s: Seq<Seq<char>>) -> bool {
    forall|i: int, j: int| 0 <= i < j < s.len() ==> seq_lt(#[trigger] s[i], #[trigger] s[j])
}

/// `s` lists the members of `names`, sorted.
pub open spec fn sorted_listing(s: Seq<Seq<char>>, names: Set<Seq<char>>) -> bool {
    &&& strictly_sorted(s)
    &&& forall|x: Seq<char>| #[trigger] s.contains(x) <==> names.contains(x)
}

/// The names of a header map in sorted order.
pub open spec fn sorted_names(m: Map<Seq<char>, Seq<Seq<char>>>) -> Seq<Seq<char>> {
    choose|s: Seq<Seq<char>>| sorted_listing(s, m.dom())
}

/// The view of a list of strings.
pub open spec fn strings_view(v: Seq<String>) -> Seq<Seq<char>> {
    Seq::new(v.len(), |i: int| v[i]@)
}

/// The view of the stored list: each name with its values.
pub open spec fn list_view(v: Seq<(String, Vec<String>)>) -> Seq<(Seq<char>, Seq<Seq<char>>)> {
    Seq::new(v.len(), |i: int| (v[i].0@, strings_view(v[i].1@)))
}

/// No name occurs twice.
pub open spec fn names_distinct(s: Seq<(Seq<char>, Seq<Seq<char>>)>) -> bool {
    forall|i: int, j: int| 0 <= i < j < s.len() ==> #[trigger] s[i].0 != #[trigger] s[j].0
}

/// The map that a list of (name, values) stands for.
pub open spec fn to_map(s: Seq<(Seq<char>, Seq<Seq<char>>)>) -> Map<Seq<char>, Seq<Seq<char>>>
    decreases s.len(),
{
    if s.len() == 0 {
        Map::empty()
    } else {
        to_map(s.drop_last()).insert(s.last().0, s.last().1)
    }
}

proof fn lemma_to_map_dom(s: Seq<(Seq<char>, Seq<Seq<char>>)>, k: Seq<char>)
    ensures
        to_map(s).dom().contains(k) <==> exists|j: int| 0 <= j < s.len() && #[trigger] s[j].0 == k,
    decreases s.len(),
{
    if s.len() > 0 {
        lemma_to_map_dom(s.drop_last(), k);
        if to_map(s.drop_last()).dom().contains(k) {
            let j = choose|j: int| 0 <= j < s.drop_last().len() && #[trigger] s.drop_last()[j].0 == k;
            assert(s[j].0 == k);
        }
        if exists|j: int| 0 <= j < s.len() && #[trigger] s[j].0 == k {
            let j = choose|j: int| 0 <= j < s.len() && #[trigger] s[j].0 == k;
            if j < s.len() - 1 {
                assert(s.drop_last()[j].0 == k);
            }
        }
    }
}

proof fn lemma_to_map_at(s: Seq<(Seq<char>, Seq<Seq<char>>)>, i: int)
    requires
        names_distinct(s),
        0 <= i < s.len(),
    ensures
        to_map(s).dom().contains(s[i].0),
        to_map(s)[s[i].0] == s[i].1,
    decreases s.len(),
{
    if i < s.len() - 1 {
        assert(names_distinct(s.drop_last()));
        lemma_to_map_at(s.drop_last(), i);
        assert(s[i].0 != s[s.len() - 1].0);
    }
}

proof fn lemma_to_map_push(s: Seq<(Seq<char>, Seq<Seq<char>>)>, p: (Seq<char>, Seq<Seq<char>>))
    ensures
        to_map(s.push(p)) == to_map(s).insert(p.0, p.1),
{
    assert(s.push(p).drop_last() =~= s);
}

proof fn lemma_to_map_update(s: Seq<(Seq<char>, Seq<Seq<char>>)>, i: int, vs: Seq<Seq<char>>)
    requires
        names_distinct(s),
        0 <= i < s.len(),
    ensures
        to_map(s.update(i, (s[i].0, vs))) == to_map(s).insert(s[i].0, vs),
    decreases s.len(),
{
    let k = s[i].0;
    let t = s.update(i, (k, vs));
    if i == s.len() - 1 {
        assert(t.drop_last() =~= s.drop_last());
        assert(to_map(t) =~= to_map(s).insert(k, vs));
    } else {
        assert(t.drop_last() =~= s.drop_last().update(i, (k, vs)));
        assert(names_distinct(s.drop_last()));
        lemma_to_map_update(s.drop_last(), i, vs);
        assert(s.last().0 != k);
        assert(to_map(t) =~= to_map(s).insert(k, vs));
    }
}

proof fn lemma_to_map_remove(s: Seq<(Seq<char>, Seq<Seq<char>>)>, i: int)
    requires
        names_distinct(s),
        0 <= i < s.len(),
    ensures
        to_map(s.remove(i)) == to_map(s).remove(s[i].0),
    decreases s.len(),
{
    let k = s[i].0;
    if i == s.len() - 1 {
        assert(s.remove(i) =~= s.drop_last());
        lemma_to_map_dom(s.drop_last(), k);
        if to_map(s.drop_last()).dom().contains(k) {
            let j = choose|j: int| 0 <= j < s.drop_last().len() && #[trigger] s.drop_last()[j].0 == k;
            assert(s[j].0 == k);
        }
        assert(to_map(s.remove(i)) =~= to_map(s).remove(k));
    } else {
        assert(s.remove(i).drop_last() =~= s.drop_last().remove(i));
        assert(s.remove(i).last() == s.last());
        assert(names_distinct(s.drop_last()));
        lemma_to_map_remove(s.drop_last(), i);
        assert(s.last().0 != k);
        assert(to_map(s.remove(i)) =~= to_map(s).remove(k));
    }
}

/// Two sorted listings of one set of names are the same sequence.
pub proof fn lemma_sorted_listing_unique(a: Seq<Seq<char>>, b: Seq<Seq<char>>, names: Set<Seq<char>>)
    requires
        sorted_listing(a, names),
        sorted_listing(b, names),
    ensures
        a == b,
    decreases a.len(),
{
    if a.len() == 0 {
        if b.len() > 0 {
            assert(b.contains(b[0]));
            assert(names.contains(b[0]));
            assert(a.contains(b[0]));
        }
        assert(a =~= b);
    } else if b.len() == 0 {
        assert(a.contains(a[0]));
        assert(b.contains(a[0]));
    } else {
        assert(a.contains(a[0]) && b.contains(b[0]));
        if a[0] != b[0] {
            assert(b.contains(a[0]));
            let m = choose|m: int| 0 <= m < b.len() && b[m] == a[0];
            assert(a.contains(b[0]));
            let k = choose|k: int| 0 <= k < a.len() && a[k] == b[0];
            assert(seq_lt(a[0], a[k]));
            assert(seq_lt(b[0], b[m]));
            crate::text::lemma_seq_lt_asymmetric(a[0], b[0]);
        }
        let na = names.remove(a[0]);
        assert forall|x: Seq<char>| #[trigger] a.drop_first().contains(x) <==> na.contains(x) by {
            if a.drop_first().contains(x) {
                let j = choose|j: int| 0 <= j < a.drop_first().len() && a.drop_first()[j] == x;
                assert(a[j + 1] == x);
                assert(seq_lt(a[0], a[j + 1]));
                if x == a[0] {
                    crate::text::lemma_seq_lt_irreflexive(x);
                }
                assert(a.contains(x));
            }
            if na.contains(x) {
                assert(a.contains(x));
                let j = choose|j: int| 0 <= j < a.len() && a[j] == x;
                assert(j != 0);
                assert(a.drop_first()[j - 1] == x);
            }
        }
        assert forall|x: Seq<char>| #[trigger] b.drop_first().contains(x) <==> na.contains(x) by {
            if b.drop_first().contains(x) {
                let j = choose|j: int| 0 <= j < b.drop_first().len() && b.drop_first()[j] == x;
                assert(b[j + 1] == x);
                assert(seq_lt(b[0], b[j + 1]));
                if x == b[0] {
                    crate::text::lemma_seq_lt_irreflexive(x);
                }
                assert(b.contains(x));
            }
            if na.contains(x) {
                assert(b.contains(x));
                let j = choose|j: int| 0 <= j < b.len() && b[j] == x;
                assert(j != 0);
                assert(b.drop_first()[j - 1] == x);
            }
        }
        assert(strictly_sorted(a.drop_first())) by {
            assert forall|i: int, j: int| 0 <= i < j < a.drop_first().len() implies seq_lt(
                #[trigger] a.drop_first()[i],
                #[trigger] a.drop_first()[j],
            ) by {
                assert(seq_lt(a[i + 1], a[j + 1]));
            }
        }
        assert(strictly_sorted(b.drop_first())) by {
            assert forall|i: int, j: int| 0 <= i < j < b.drop_first().len() implies seq_lt(
                #[trigger] b.drop_first()[i],
                #[trigger] b.drop_first()[j],
            ) by {
                assert(seq_lt(b[i + 1], b[j + 1]));
            }
        }
        lemma_sorted_listing_unique(a.drop_first(), b.drop_first(), na);
        assert(a =~= seq![a[0]] + a.drop_first());
        assert(b =~= seq![b[0]] + b.drop_first());
    }
}

/// `Headers`.
pub struct Headers {
    list: Vec<(String, Vec<String>)>,
}

impl View for Headers {
    type V = Map<Seq<char>, Seq<Seq<char>>>;

    closed spec fn view(&self) -> Map<Seq<char>, Seq<Seq<char>>> {
        to_map(list_view(self.list@))
    }
}

proof fn lemma_list_view_push(v: Seq<(String, Vec<String>)>, p: (String, Vec<String>))
    ensures
        list_view(v.push(p)) == list_view(v).push((p.0@, strings_view(p.1@))),
{
    assert(list_view(v.push(p)) =~= list_view(v).push((p.0@, strings_view(p.1@))));
}

proof fn lemma_list_view_update(v: Seq<(String, Vec<String>)>, i: int, p: (String, Vec<String>))
    requires
        0 <= i < v.len(),
    ensures
        list_view(v.remove(i).insert(i, p)) == list_view(v).update(i, (p.0@, strings_view(p.1@))),
{
    assert(list_view(v.remove(i).insert(i, p)) =~= list_view(v).update(i, (p.0@, strings_view(p.1@))));
}

proof fn lemma_list_view_remove(v: Seq<(String, Vec<String>)>, i: int)
    requires
        0 <= i < v.len(),
    ensures
        list_view(v.remove(i)) == list_view(v).remove(i),
{
    assert(list_view(v.remove(i)) =~= list_view(v).remove(i));
}

/// The values joined by `", "`.
fn join_values(vs: &Vec<String>) -> (r: String)
    ensures
        r@ == joined(strings_view(vs@)),
{
    let ghost sv = strings_view(vs@);
    let mut out: Vec<char> = Vec::new();
    let mut i: usize = 0;
    while i < vs.len()
        invariant
            sv == strings_view(vs@),
            i <= vs@.len(),
            out@ == joined(sv.subrange(0, i as int)),
        decreases vs.len() - i,
    {
        if i > 0 {
            out.push(',');
            out.push(' ');
        }
        push_chars(&mut out, &vs[i]);
        proof {
            assert(sv.subrange(0, i + 1).drop_last() =~= sv.subrange(0, i as int));
            assert(out@ =~= joined(sv.subrange(0, i + 1)));
        }
        i = i + 1;
    }
    assert(sv.subrange(0, vs@.len() as int) =~= sv);
    string_from_chars(&out)
}

impl Headers {
    #[verifier::type_invariant]
    spec fn wf(&self) -> bool {
        names_distinct(list_view(self.list@))
    }

    /// Empty headers.
    pub fn new() -> (r: Headers)
        ensures
            r@ == Map::<Seq<char>, Seq<Seq<char>>>::empty(),
    {
        let r = Headers { list: Vec::new() };
        assert(list_view(r.list@) =~= Seq::<(Seq<char>, Seq<Seq<char>>)>::empty());
        r
    }

    /// The index of the (lowercased) name `k`.
    fn find(&self, k: &str) -> (r: Option<usize>)
        ensures
            match r {
                Some(i) => i < self.list@.len() && list_view(self.list@)[i as int].0 == k@,
                None => !self@.dom().contains(k@),
            },
    {
        let mut i: usize = 0;
        while i < self.list.len()
            invariant
                i <= self.list@.len(),
                forall|j: int| 0 <= j < i ==> #[trigger] list_view(self.list@)[j].0 != k@,
            decreases self.list.len() - i,
        {
            if str_equals(self.list[i].0.as_str(), k) {
                return Some(i);
            }
            i = i + 1;
        }
        proof {
            lemma_to_map_dom(list_view(self.list@), k@);
        }
        None
    }

    /// Appends `value` under a name that is already lowercased.
    fn append_lowered(&mut self, k: String, value: String)
        ensures
            final(self)@ == appended(old(self)@, k@, value@),
    {
        proof {
            use_type_invariant(&*self);
        }
        let ghost s = list_view(self.list@);
        let found = self.find(k.as_str());
        let mut list: Vec<(String, Vec<String>)> = Vec::new();
        std::mem::swap(&mut list, &mut self.list);
        match found {
            Some(i) => {
                let (name, mut vs) = list.remove(i);
                let ghost old_vs = strings_view(vs@);
                vs.push(value);
                assert(strings_view(vs@) =~= old_vs.push(value@));
                proof {
                    lemma_list_view_update(old(self).list@, i as int, (name, vs));
                    lemma_to_map_update(s, i as int, strings_view(vs@));
                    lemma_to_map_at(s, i as int);
                }
                list.insert(i, (name, vs));
                assert(names_distinct(list_view(list@))) by {
                    assert forall|a: int, b: int| 0 <= a < b < list_view(list@).len() implies #[trigger] list_view(list@)[a].0
                        != #[trigger] list_view(list@)[b].0 by {
                        assert(s[a].0 != s[b].0);
                    }
                }
            },
            None => {
                let ghost vs = seq![value@];
                let v: Vec<String> = vec![value];
                assert(strings_view(v@) =~= vs);
                proof {
                    lemma_list_view_push(list@, (k, v));
                    lemma_to_map_push(s, (k@, vs));
                    lemma_to_map_dom(s, k@);
                }
                list.push((k, v));
                assert(names_distinct(list_view(list@))) by {
                    assert forall|a: int, b: int| 0 <= a < b < list_view(list@).len() implies #[trigger] list_view(list@)[a].0
                        != #[trigger] list_view(list@)[b].0 by {
                        if b == s.len() {
                            assert(s[a].0 == list_view(list@)[a].0);
                        } else {
                            assert(s[a].0 != s[b].0);
                        }
                    }
                }
            },
        }
        self.list = list;
    }

    /// `append(name, value)`: adds `value` to the values of the lowercased name.
    pub fn append(&mut self, name: &str, value: String)
        ensures
            final(self)@ == appended(old(self)@, lowercased(name@), value@),
    {
        let k = to_lowercase(name);
        self.append_lowered(k, value);
    }

    /// `set(name, value)`: `value` becomes the only value of the lowercased name.
    pub fn set(&mut self, name: &str, value: String)
        ensures
            final(self)@ == old(self)@.insert(lowercased(name@), seq![value@]),
    {
        proof {
            use_type_invariant(&*self);
        }
        let k = to_lowercase(name);
        let ghost s = list_view(self.list@);
        let found = self.find(k.as_str());
        let mut list: Vec<(String, Vec<String>)> = Vec::new();
        std::mem::swap(&mut list, &mut self.list);
        let ghost vs = seq![value@];
        let v: Vec<String> = vec![value];
        assert(strings_view(v@) =~= vs);
        match found {
            Some(i) => {
                let (name_owned, _) = list.remove(i);
                proof {
                    lemma_list_view_update(old(self).list@, i as int, (name_owned, v));
                    lemma_to_map_update(s, i as int, vs);
                }
                list.insert(i, (name_owned, v));
                assert(names_distinct(list_view(list@))) by {
                    assert forall|a: int, b: int| 0 <= a < b < list_view(list@).len() implies #[trigger] list_view(list@)[a].0
                        != #[trigger] list_view(list@)[b].0 by {
                        assert(s[a].0 != s[b].0);
                    }
                }
            },
            None => {
                proof {
                    lemma_list_view_push(list@, (k, v));
                    lemma_to_map_push(s, (k@, vs));
                    lemma_to_map_dom(s, k@);
                }
                list.push((k, v));
                assert(names_distinct(list_view(list@))) by {
                    assert forall|a: int, b: int| 0 <= a < b < list_view(list@).len() implies #[trigger] list_view(list@)[a].0
                        != #[trigger] list_view(list@)[b].0 by {
                        if b == s.len() {
                            assert(s[a].0 == list_view(list@)[a].0);
                        } else {
                            assert(s[a].0 != s[b].0);
                        }
                    }
                }
            },
        }
        self.list = list;
    }

    /// `delete(name)`: removes the lowercased name and its values.
    pub fn delete(&mut self, name: &str)
        ensures
            final(self)@ == old(self)@.remove(lowercased(name@)),
    {
        proof {
            use_type_invariant(&*self);
        }
        let k = to_lowercase(name);
        let ghost s = list_view(self.list@);
        match self.find(k.as_str()) {
            Some(i) => {
                let mut list: Vec<(String, Vec<String>)> = Vec::new();
                std::mem::swap(&mut list, &mut self.list);
                proof {
                    lemma_list_view_remove(list@, i as int);
                    lemma_to_map_remove(s, i as int);
                }
                list.remove(i);
                assert(names_distinct(list_view(list@))) by {
                    assert forall|a: int, b: int| 0 <= a < b < list_view(list@).len() implies #[trigger] list_view(list@)[a].0
                        != #[trigger] list_view(list@)[b].0 by {
                        if a < i {
                            if b < i {
                                assert(s[a].0 != s[b].0);
                            } else {
                                assert(s[a].0 != s[b + 1].0);
                            }
                        } else {
                            assert(s[a + 1].0 != s[b + 1].0);
                        }
                    }
                }
                self.list = list;
            },
            None => {
                assert(old(self)@.remove(k@) =~= old(self)@);
            },
        }
    }

    /// `get(name)`: the values of the lowercased name joined by `", "`, if it has any entry.
    pub fn get(&self, name: &str) -> (r: Option<String>)
        ensures
            match r {
                Some(t) => self@.dom().contains(lowercased(name@)) && t@ == joined(self@[lowercased(name@)]),
                None => !self@.dom().contains(lowercased(name@)),
            },
    {
        let k = to_lowercase(name);
        self.combined_value(k.as_str())
    }

    /// Every value stored under `key` (a lowercased name) joined by `", "`, if it has any.
    fn combined_value(&self, key: &str) -> (r: Option<String>)
        ensures
            match r {
                Some(t) => self@.dom().contains(key@) && t@ == joined(self@[key@]),
                None => !self@.dom().contains(key@),
            },
    {
        proof {
            use_type_invariant(self);
        }
        match self.find(key) {
            Some(i) => {
                proof {
                    lemma_to_map_at(list_view(self.list@), i as int);
                }
                Some(join_values(&self.list[i].1))
            },
            None => None,
        }
    }

    /// `has(name)`: whether the lowercased name has an entry.
    pub fn has(&self, name: &str) -> (b: bool)
        ensures
            b == self@.dom().contains(lowercased(name@)),
    {
        proof {
            use_type_invariant(self);
        }
        let k = to_lowercase(name);
        match self.find(k.as_str()) {
            Some(i) => {
                proof {
                    lemma_to_map_at(list_view(self.list@), i as int);
                }
                true
            },
            None => false,
        }
    }
}

/// The names of a list of (name, value) pairs.
pub open spec fn pair_names(v: Seq<(String, String)>) -> Seq<Seq<char>> {
    Seq::new(v.len(), |i: int| v[i].0@)
}

/// Some name among the first `n` entries of `s` is `name`, with values joining to `value`.
spec fn entry_among(s: Seq<(Seq<char>, Seq<Seq<char>>)>, n: int, name: Seq<char>, value: Seq<char>) -> bool {
    exists|j: int| 0 <= j < n && #[trigger] s[j].0 == name && joined(s[j].1) == value
}

/// The view of native (name, value bytes) items.
pub open spec fn native_view(v: Seq<(Option<String>, Vec<u8>)>) -> Seq<(Option<Seq<char>>, Seq<u8>)> {
    Seq::new(
        v.len(),
        |i: int|
            (
                match v[i].0 {
                    Some(n) => Some(n@),
                    None => None,
                },
                v[i].1@,
            ),
    )
}

/// Inserts a pair into a list kept sorted by name.
fn insert_sorted(out: &mut Vec<(String, String)>, name: String, value: String)
    requires
        strictly_sorted(pair_names(old(out)@)),
        !pair_names(old(out)@).contains(name@),
    ensures
        strictly_sorted(pair_names(final(out)@)),
        exists|p: int| 0 <= p <= old(out)@.len() && final(out)@ == old(out)@.insert(p, (name, value)),
{
    let ghost ns = pair_names(out@);
    let mut p: usize = 0;
    while p < out.len() && str_less(out[p].0.as_str(), name.as_str())
        invariant
            ns == pair_names(out@),
            p <= out@.len(),
            forall|j: int| 0 <= j < p ==> seq_lt(#[trigger] ns[j], name@),
        decreases out.len() - p,
    {
        p = p + 1;
    }
    proof {
        if p < ns.len() {
            assert(ns[p as int] != name@) by {
                if ns[p as int] == name@ {
                    assert(ns.contains(name@));
                }
            }
            crate::text::lemma_seq_lt_total(ns[p as int], name@);
        }
    }
    let ghost before = out@;
    out.insert(p, (name, value));
    proof {
        let nn = pair_names(out@);
        assert(nn =~= ns.insert(p as int, name@));
        assert forall|i: int, j: int| 0 <= i < j < nn.len() implies seq_lt(#[trigger] nn[i], #[trigger] nn[j]) by {
            if j < p {
                assert(seq_lt(ns[i], ns[j]));
            } else if j == p {
                assert(seq_lt(ns[i], name@));
            } else if i < p {
                assert(seq_lt(ns[i], ns[j - 1]));
            } else if i == p {
                if j - 1 > p {
                    assert(seq_lt(ns[p as int], ns[j - 1]));
                    crate::text::lemma_seq_lt_transitive(name@, ns[p as int], ns[j - 1]);
                }
            } else {
                assert(seq_lt(ns[i - 1], ns[j - 1]));
            }
        }
        assert(out@ == before.insert(p as int, out@[p as int]));
    }
}

/// Copies of the strings.
fn clone_strings(v: &Vec<String>) -> (r: Vec<String>)
    ensures
        strings_view(r@) == strings_view(v@),
{
    let mut out: Vec<String> = Vec::new();
    let mut i: usize = 0;
    while i < v.len()
        invariant
            i <= v@.len(),
            out@.len() == i,
            forall|j: int| 0 <= j < i ==> #[trigger] out@[j]@ == v@[j]@,
        decreases v.len() - i,
    {
        out.push(v[i].clone());
        i = i + 1;
    }
    assert(strings_view(out@) =~= strings_view(v@));
    out
}

impl Headers {
    /// The names, each once and sorted, with their combined values: what `entries()`, `keys()`,
    /// `values()`, `forEach` and `for...of` walk.
    fn sorted_combined_entries(&self) -> (r: Vec<(String, String)>)
        ensures
            pair_names(r@) == sorted_names(self@),
            forall|i: int| 0 <= i < r@.len() ==> #[trigger] r@[i].1@ == joined(self@[r@[i].0@]),
    {
        proof {
            use_type_invariant(self);
        }
        let ghost s = list_view(self.list@);
        let mut out: Vec<(String, String)> = Vec::new();
        let mut i: usize = 0;
        while i < self.list.len()
            invariant
                s == list_view(self.list@),
                names_distinct(s),
                i <= s.len(),
                strictly_sorted(pair_names(out@)),
                forall|x: Seq<char>| #[trigger] pair_names(out@).contains(x) <==> exists|j: int| 0 <= j < i && #[trigger] s[j].0 == x,
                forall|q: int| 0 <= q < out@.len() ==> entry_among(s, i as int, #[trigger] out@[q].0@, out@[q].1@),
            decreases self.list.len() - i,
        {
            let name = self.list[i].0.clone();
            let value = join_values(&self.list[i].1);
            proof {
                if pair_names(out@).contains(name@) {
                    let j = choose|j: int| 0 <= j < i && #[trigger] s[j].0 == name@;
                    assert(s[j].0 != s[i as int].0);
                }
            }
            let ghost before = out@;
            insert_sorted(&mut out, name, value);
            proof {
                let p = choose|p: int| 0 <= p <= before.len() && out@ == before.insert(p, (name, value));
                assert(pair_names(out@) =~= pair_names(before).insert(p, name@));
                assert forall|x: Seq<char>| #[trigger] pair_names(out@).contains(x) <==> exists|j: int|
                    0 <= j < i + 1 && #[trigger] s[j].0 == x by {
                    if pair_names(out@).contains(x) {
                        let q = choose|q: int| 0 <= q < pair_names(out@).len() && pair_names(out@)[q] == x;
                        if q < p {
                            assert(pair_names(before)[q] == x);
                            assert(pair_names(before).contains(x));
                        } else if q > p {
                            assert(pair_names(before)[q - 1] == x);
                            assert(pair_names(before).contains(x));
                        } else {
                            assert(s[i as int].0 == x);
                        }
                    }
                    if exists|j: int| 0 <= j < i + 1 && #[trigger] s[j].0 == x {
                        let j = choose|j: int| 0 <= j < i + 1 && #[trigger] s[j].0 == x;
                        if j < i {
                            assert(pair_names(before).contains(x));
                            let q = choose|q: int| 0 <= q < pair_names(before).len() && pair_names(before)[q] == x;
                            if q < p {
                                assert(pair_names(out@)[q] == x);
                            } else {
                                assert(pair_names(out@)[q + 1] == x);
                            }
                        } else {
                            assert(pair_names(out@)[p] == x);
                        }
                    }
                }
                assert forall|q: int| 0 <= q < out@.len() implies entry_among(s, i + 1, #[trigger] out@[q].0@, out@[q].1@) by {
                    if q < p {
                        assert(entry_among(s, i as int, before[q].0@, before[q].1@));
                    } else if q > p {
                        assert(entry_among(s, i as int, before[q - 1].0@, before[q - 1].1@));
                    } else {
                        assert(s[i as int].0 == out@[q].0@);
                    }
                }
            }
            i = i + 1;
        }
        proof {
            let names = self@.dom();
            assert forall|x: Seq<char>| #[trigger] pair_names(out@).contains(x) <==> names.contains(x) by {
                lemma_to_map_dom(s, x);
            }
            assert(sorted_listing(pair_names(out@), names));
            lemma_sorted_listing_unique(pair_names(out@), sorted_names(self@), names);
            assert forall|q: int| 0 <= q < out@.len() implies #[trigger] out@[q].1@ == joined(self@[out@[q].0@]) by {
                assert(entry_among(s, s.len() as int, out@[q].0@, out@[q].1@));
                let j = choose|j: int| 0 <= j < s.len() && #[trigger] s[j].0 == out@[q].0@ && joined(s[j].1) == out@[q].1@;
                lemma_to_map_at(s, j);
            }
        }
        out
    }

    /// `entries()`: the names with their combined values, sorted by name.
    pub fn entries(&self) -> (r: Vec<(String, String)>)
        ensures
            pair_names(r@) == sorted_names(self@),
            forall|i: int| 0 <= i < r@.len() ==> #[trigger] r@[i].1@ == joined(self@[r@[i].0@]),
    {
        self.sorted_combined_entries()
    }

    /// The names, sorted (`keys()`).
    pub fn keys(&self) -> (r: Vec<String>)
        ensures
            strings_view(r@) == sorted_names(self@),
    {
        let es = self.sorted_combined_entries();
        let mut out: Vec<String> = Vec::new();
        let mut i: usize = 0;
        while i < es.len()
            invariant
                i <= es@.len(),
                out@.len() == i,
                forall|j: int| 0 <= j < i ==> #[trigger] out@[j]@ == es@[j].0@,
            decreases es.len() - i,
        {
            out.push(es[i].0.clone());
            i = i + 1;
        }
        assert(strings_view(out@) =~= pair_names(es@));
        out
    }

    /// The combined values in sorted name order (`values()`).
    pub fn values(&self) -> (r: Vec<String>)
        ensures
            r@.len() == sorted_names(self@).len(),
            forall|i: int| 0 <= i < r@.len() ==> #[trigger] r@[i]@ == joined(self@[sorted_names(self@)[i]]),
    {
        let es = self.sorted_combined_entries();
        let mut out: Vec<String> = Vec::new();
        let mut i: usize = 0;
        while i < es.len()
            invariant
                i <= es@.len(),
                out@.len() == i,
                forall|j: int| 0 <= j < i ==> #[trigger] out@[j]@ == es@[j].1@,
            decreases es.len() - i,
        {
            out.push(es[i].1.clone());
            i = i + 1;
        }
        proof {
            assert forall|j: int| 0 <= j < out@.len() implies #[trigger] out@[j]@ == joined(self@[sorted_names(self@)[j]]) by {
                assert(pair_names(es@)[j] == es@[j].0@);
            }
        }
        out
    }

    /// Headers holding each pair appended in order, names lowercased (a sequence of pairs or a
    /// record).
    pub fn from_pairs(pairs: Vec<(String, String)>) -> (r: Headers)
        ensures
            r@ == appended_all(crate::fetch::url_search_params::pairs_view(pairs@)),
    {
        let ghost pv = crate::fetch::url_search_params::pairs_view(pairs@);
        let mut h = Headers::new();
        let mut i: usize = 0;
        while i < pairs.len()
            invariant
                pv == crate::fetch::url_search_params::pairs_view(pairs@),
                i <= pairs@.len(),
                h@ == appended_all(pv.subrange(0, i as int)),
            decreases pairs.len() - i,
        {
            h.append(pairs[i].0.as_str(), pairs[i].1.clone());
            assert(pv.subrange(0, i + 1).drop_last() =~= pv.subrange(0, i as int));
            i = i + 1;
        }
        assert(pv.subrange(0, pairs@.len() as int) =~= pv);
        h
    }

    /// An independent copy (`new Headers(otherHeaders)`).
    pub fn duplicate(&self) -> (r: Headers)
        ensures
            r@ == self@,
    {
        proof {
            use_type_invariant(self);
        }
        let mut list: Vec<(String, Vec<String>)> = Vec::new();
        let mut i: usize = 0;
        while i < self.list.len()
            invariant
                i <= self.list@.len(),
                list_view(list@) == list_view(self.list@).subrange(0, i as int),
            decreases self.list.len() - i,
        {
            let pair = (self.list[i].0.clone(), clone_strings(&self.list[i].1));
            proof {
                lemma_list_view_push(list@, pair);
            }
            list.push(pair);
            i = i + 1;
            assert(list_view(list@) =~= list_view(self.list@).subrange(0, i as int));
        }
        assert(list_view(self.list@).subrange(0, i as int) =~= list_view(self.list@));
        Headers { list }
    }

    /// Headers from a native header list: items without a name, or whose value is not visible
    /// ASCII, are skipped; the others are appended under the lowercased name.
    pub fn from_native(items: Vec<(Option<String>, Vec<u8>)>) -> (r: Headers)
        ensures
            r@ == native_all(native_view(items@)),
    {
        let ghost nv = native_view(items@);
        let mut h = Headers::new();
        let mut i: usize = 0;
        while i < items.len()
            invariant
                nv == native_view(items@),
                i <= items@.len(),
                h@ == native_all(nv.subrange(0, i as int)),
            decreases items.len() - i,
        {
            assert(nv.subrange(0, i + 1).drop_last() =~= nv.subrange(0, i as int));
            match &items[i].0 {
                Some(name) => {
                    match header_value_text(items[i].1.as_slice()) {
                        Some(text) => {
                            let k = to_lowercase(name.as_str());
                            h.append_lowered(k, text);
                        },
                        None => {},
                    }
                },
                None => {},
            }
            i = i + 1;
        }
        assert(nv.subrange(0, items@.len() as int) =~= nv);
        h
    }
}

/// After `set(k, v)`, `get(k)` is exactly `v`.
pub proof fn lemma_get_after_set(m: Map<Seq<char>, Seq<Seq<char>>>, k: Seq<char>, v: Seq<char>)
    ensures
        m.insert(k, seq![v]).dom().contains(k),
        joined(m.insert(k, seq![v])[k]) == v,
{
}

/// Appending `a` then `b` under a name with no values makes `get` answer `a, b`.
pub proof fn lemma_two_appends_join(m: Map<Seq<char>, Seq<Seq<char>>>, k: Seq<char>, a: Seq<char>, b: Seq<char>)
    requires
        !m.dom().contains(k),
    ensures
        joined(appended(appended(m, k, a), k, b)[k]) == a + seq![',', ' '] + b,
{
    let vs = appended(appended(m, k, a), k, b)[k];
    assert(appended(m, k, a)[k] == seq![a]);
    assert(vs == seq![a].push(b));
    assert(vs.len() == 2);
    assert(vs.drop_last() =~= seq![a]);
    assert(joined(vs.drop_last()) == a);
    assert(vs.last() == b);
}

/// Appending never drops a value already stored: the earlier values stay, in order, and the
/// new one comes last.
pub proof fn lemma_append_keeps_earlier_values(m: Map<Seq<char>, Seq<Seq<char>>>, k: Seq<char>, v: Seq<char>)
    requires
        m.dom().contains(k),
    ensures
        appended(m, k, v)[k] == m[k].push(v),
        forall|q: Seq<char>| q != k ==> #[trigger] appended(m, k, v).dom().contains(q) == m.dom().contains(q),
{
}

/// After `delete(k)` the name has no entry, and other names are untouched.
pub proof fn lemma_delete_removes_only_that_name(m: Map<Seq<char>, Seq<Seq<char>>>, k: Seq<char>, q: Seq<char>)
    requires
        q != k,
    ensures
        !m.remove(k).dom().contains(k),
        m.remove(k).dom().contains(q) == m.dom().contains(q),
{
}

/// A sorted listing names each member once.
pub proof fn lemma_sorted_listing_no_repeats(s: Seq<Seq<char>>, names: Set<Seq<char>>, i: int, j: int)
    requires
        sorted_listing(s, names),
        0 <= i < j < s.len(),
    ensures
        s[i] != s[j],
{
    assert(seq_lt(s[i], s[j]));
    if s[i] == s[j] {
        crate::text::lemma_seq_lt_irreflexive(s[i]);
    }
}

} // verus!
