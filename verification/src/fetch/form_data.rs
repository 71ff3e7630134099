//! `FormData`: an ordered list of named entries whose values are strings or files, and its
//! `multipart/form-data` encoding.
use std::hash::{BuildHasher, Hasher};
use vstd::prelude::*;

use crate::blob::{extend_bytes, extend_utf8, Blob, BlobView, File, FileView};
use crate::fetch::url_search_params::{all_values, first_value, has_key, is_first_key, set_pairs, without_key};
use crate::text::{chars_of, owned, str_equals, string_from_chars};

verus! {

/// An entry's value as stored: a string or a file.
pub enum FormDataValue {
    Text(String),
    File(File),
}

/// The view of a stored value.
pub enum FormDataValueView {
    Text(Seq<char>),
    File(FileView),
}

impl View for FormDataValue {
    type V = FormDataValueView;

    open spec fn view(&self) -> FormDataValueView {
        match self {
            FormDataValue::Text(s) => FormDataValueView::Text(s@),
            FormDataValue::File(f) => FormDataValueView::File(f@),
        }
    }
}

impl FormDataValue {
    /// An independent copy.
    pub fn duplicate(&self) -> (r: FormDataValue)
        ensures
            r@ == self@,
    {
        match self {
            FormDataValue::Text(s) => FormDataValue::Text(s.clone()),
            FormDataValue::File(f) => FormDataValue::File(f.duplicate()),
        }
    }
}

/// A value handed to `append` or `set`: a string, a file or a blob.
pub enum FormDataEntryValue {
    Text(String),
    File(File),
    Blob(Blob),
}

/// The view of a value handed to `append` or `set`.
pub enum FormDataEntryValueView {
    Text(Seq<char>),
    File(FileView),
    Blob(BlobView),
}

impl View for FormDataEntryValue {
    type V = FormDataEntryValueView;

    open spec fn view(&self) -> FormDataEntryValueView {
        match self {
            FormDataEntryValue::Text(s) => FormDataEntryValueView::Text(s@),
            FormDataEntryValue::File(f) => FormDataEntryValueView::File(f@),
            FormDataEntryValue::Blob(b) => FormDataEntryValueView::Blob(b@),
        }
    }
}

/// How a value is stored: a string as it is; a blob or file as a file named `filename` when one
/// is given, else by the file's own name, else `"blob"`.
pub open spec fn resolved(v: FormDataEntryValueView, filename: Option<Seq<char>>) -> FormDataValueView {
    match v {
        FormDataEntryValueView::Text(s) => FormDataValueView::Text(s),
        FormDataEntryValueView::File(f) => match filename {
            Some(n) => FormDataValueView::File(FileView { blob: f.blob, name: n }),
            None => FormDataValueView::File(f),
        },
        FormDataEntryValueView::Blob(b) => FormDataValueView::File(
            FileView {
                blob: b,
                name: match filename {
                    Some(n) => n,
                    None => "blob"@,
                },
            },
        ),
    }
}

/// Converts a value handed to `append` or `set` into a stored value.
pub fn resolve_value(value: FormDataEntryValue, filename: Option<String>) -> (r: FormDataValue)
    ensures
        r@ == resolved(value@, crate::blob::opt_view(filename)),
{
    match value {
        FormDataEntryValue::Text(s) => FormDataValue::Text(s),
        FormDataEntryValue::File(f) => match filename {
            Some(n) => FormDataValue::File(File::from_blob(f.blob(), n)),
            None => FormDataValue::File(f),
        },
        FormDataEntryValue::Blob(b) => {
            let name = match filename {
                Some(n) => n,
                None => owned("blob"),
            };
            FormDataValue::File(File::from_blob(&b, name))
        },
    }
}

/// The percent-escape of one character in a `name` or `filename` parameter.
pub open spec fn escaped_char(c: char) -> Seq<char> {
    if c == '\r' {
        seq!['%', '0', 'D']
    } else if c == '\n' {
        seq!['%', '0', 'A']
    } else if c == '"' {
        seq!['%', '2', '2']
    } else {
        seq![c]
    }
}

/// The text with CR, LF and `"` percent-escaped (a backslash is left alone).
pub open spec fn escaped(s: Seq<char>) -> Seq<char>
    decreases s.len(),
{
    if s.len() == 0 {
        Seq::empty()
    } else {
        escaped(s.drop_last()) + escaped_char(s.last())
    }
}

/// Escapes CR, LF and `"` in a `name` or `filename` parameter.
pub fn escape_field(input: &str) -> (r: String)
    ensures
        r@ == escaped(input@),
{
    let cs = chars_of(input);
    let mut out: Vec<char> = Vec::new();
    let mut i: usize = 0;
    while i < cs.len()
        invariant
            cs@ == input@,
            i <= cs@.len(),
            out@ == escaped(cs@.subrange(0, i as int)),
        decreases cs.len() - i,
    {
        let c = cs[i];
        if c == '\r' {
            out.push('%');
            out.push('0');
            out.push('D');
        } else if c == '\n' {
            out.push('%');
            out.push('0');
            out.push('A');
        } else if c == '"' {
            out.push('%');
            out.push('2');
            out.push('2');
        } else {
            out.push(c);
        }
        assert(cs@.subrange(0, i + 1).drop_last() =~= cs@.subrange(0, i as int));
        i = i + 1;
        assert(out@ =~= escaped(cs@.subrange(0, i as int)));
    }
    assert(cs@.subrange(0, cs@.len() as int) =~= cs@);
    string_from_chars(&out)
}

/// The media type written for a file part: its own, or `application/octet-stream` when it has
/// none or an empty one.
pub open spec fn part_content_type(t: Option<Seq<char>>) -> Seq<char> {
    match t {
        Some(t) => if t.len() > 0 {
            t
        } else {
            "application/octet-stream"@
        },
        None => "application/octet-stream"@,
    }
}

/// The UTF-8 bytes of a text.
pub open spec fn enc(s: Seq<char>) -> Seq<u8> {
    vstd::utf8::encode_utf8(s)
}

/// The bytes of one entry between boundaries.
pub open spec fn entry_bytes(boundary: Seq<char>, name: Seq<char>, v: FormDataValueView) -> Seq<u8> {
    let head = enc("--"@) + enc(boundary) + enc("\r\n"@) + enc("Content-Disposition: form-data; name=\""@) + enc(
        escaped(name),
    ) + enc("\""@);
    let body = match v {
        FormDataValueView::Text(t) => enc("\r\n\r\n"@) + enc(t),
        FormDataValueView::File(f) => enc("; filename=\""@) + enc(escaped(f.name)) + enc("\"\r\n"@) + enc(
            "Content-Type: "@,
        ) + enc(part_content_type(f.blob.content_type)) + enc("\r\n\r\n"@) + f.blob.bytes,
    };
    head + body + enc("\r\n"@)
}

/// The bytes of the entries, in order.
pub open spec fn entries_bytes(boundary: Seq<char>, s: Seq<(Seq<char>, FormDataValueView)>) -> Seq<u8>
    decreases s.len(),
{
    if s.len() == 0 {
        Seq::empty()
    } else {
        entries_bytes(boundary, s.drop_last()) + entry_bytes(boundary, s.last().0, s.last().1)
    }
}

/// The `multipart/form-data` body of the entries with this boundary.
pub open spec fn multipart_bytes(boundary: Seq<char>, s: Seq<(Seq<char>, FormDataValueView)>) -> Seq<u8> {
    entries_bytes(boundary, s) + enc("--"@) + enc(boundary) + enc("--"@)
}

/// A lowercase hexadecimal digit.
pub open spec fn hex_char(d: int) -> char {
    if d < 10 {
        (48 + d) as char
    } else {
        (87 + d) as char
    }
}

/// The lowest `n` hexadecimal digits of `x`, most significant first.
pub open spec fn hex_digits(x: nat, n: nat) -> Seq<char>
    decreases n,
{
    if n == 0 {
        Seq::empty()
    } else {
        hex_digits(x / 16, (n - 1) as nat).push(hex_char((x % 16) as int))
    }
}

/// The boundary made of two random values: a fixed prefix and 32 hexadecimal digits.
pub open spec fn boundary_text(a: u64, b: u64) -> Seq<char> {
    "----KlaverFormBoundary"@ + hex_digits(a as nat, 16) + hex_digits(b as nat, 16)
}

fn hex_digit_char(d: u64) -> (c: char)
    requires
        d < 16,
    ensures
        c == hex_char(d as int),
{
    let v: u8 = d as u8;
    let b: u8 = if v < 10 {
        48 + v
    } else {
        87 + v
    };
    b as char
}

fn hex_of(x: u64, n: usize) -> (r: Vec<char>)
    ensures
        r@ == hex_digits(x as nat, n as nat),
        r@.len() == n,
    decreases n,
{
    if n == 0 {
        Vec::new()
    } else {
        let mut v = hex_of(x / 16, n - 1);
        v.push(hex_digit_char(x % 16));
        v
    }
}

/// The boundary for two random values.
pub fn boundary_from(a: u64, b: u64) -> (r: String)
    ensures
        r@ == boundary_text(a, b),
{
    let mut out = chars_of("----KlaverFormBoundary");
    let ha = hex_of(a, 16);
    let hb = hex_of(b, 16);
    let ghost start = out@;
    let mut i: usize = 0;
    while i < 16
        invariant
            ha@.len() == 16,
            out@ == start + ha@.subrange(0, i as int),
            i <= 16,
        decreases 16 - i,
    {
        out.push(ha[i]);
        i = i + 1;
        assert(out@ =~= start + ha@.subrange(0, i as int));
    }
    let ghost mid = out@;
    let mut j: usize = 0;
    while j < 16
        invariant
            hb@.len() == 16,
            out@ == mid + hb@.subrange(0, j as int),
            j <= 16,
        decreases 16 - j,
    {
        out.push(hb[j]);
        j = j + 1;
        assert(out@ =~= mid + hb@.subrange(0, j as int));
    }
    assert(ha@.subrange(0, 16) =~= ha@);
    assert(hb@.subrange(0, 16) =~= hb@);
    assert(out@ =~= boundary_text(a, b));
    string_from_chars(&out)
}

/// A value from a freshly seeded `std::collections::hash_map::RandomState` hasher (which seeds
/// each state from per-process randomness). Nothing is promised of the value.
#[verifier::external_body]
fn random_seed() -> (r: u64) {
    std::collections::hash_map::RandomState::new().build_hasher().finish()
}

/// A fresh boundary token: two per-call random 64-bit seeds written as hexadecimal after the
/// fixed prefix.
fn generate_boundary() -> (r: String)
    ensures
        exists|a: u64, b: u64| r@ == boundary_text(a, b),
{
    let a = random_seed();
    let b = random_seed();
    boundary_from(a, b)
}

/// `FormData`.
pub struct FormData {
    entries: Vec<(String, FormDataValue)>,
}

/// The view of stored entries.
pub open spec fn entries_view(v: Seq<(String, FormDataValue)>) -> Seq<(Seq<char>, FormDataValueView)> {
    Seq::new(v.len(), |i: int| (v[i].0@, v[i].1@))
}

impl View for FormData {
    type V = Seq<(Seq<char>, FormDataValueView)>;

    closed spec fn view(&self) -> Seq<(Seq<char>, FormDataValueView)> {
        entries_view(self.entries@)
    }
}

proof fn lemma_entries_view_remove(v: Seq<(String, FormDataValue)>, i: int)
    requires
        0 <= i < v.len(),
    ensures
        entries_view(v.remove(i)) == entries_view(v).remove(i),
{
    assert(entries_view(v.remove(i)) =~= entries_view(v).remove(i));
}

proof fn lemma_entries_view_push(v: Seq<(String, FormDataValue)>, p: (String, FormDataValue))
    ensures
        entries_view(v.push(p)) == entries_view(v).push((p.0@, p.1@)),
{
    assert(entries_view(v.push(p)) =~= entries_view(v).push((p.0@, p.1@)));
}

impl FormData {
    /// An empty form.
    pub fn new() -> (r: FormData)
        ensures
            r@ == Seq::<(Seq<char>, FormDataValueView)>::empty(),
    {
        let r = FormData { entries: Vec::new() };
        assert(r@ =~= Seq::<(Seq<char>, FormDataValueView)>::empty());
        r
    }

    /// Adds a string entry at the end (used when a parsed body fills a form).
    pub fn push_string(&mut self, name: String, value: String)
        ensures
            final(self)@ == old(self)@.push((name@, FormDataValueView::Text(value@))),
    {
        proof {
            lemma_entries_view_push(self.entries@, (name, FormDataValue::Text(value)));
        }
        self.entries.push((name, FormDataValue::Text(value)));
    }

    /// Adds a file entry at the end (used when a parsed body fills a form).
    pub fn push_file(&mut self, name: String, file: File)
        ensures
            final(self)@ == old(self)@.push((name@, FormDataValueView::File(file@))),
    {
        proof {
            lemma_entries_view_push(self.entries@, (name, FormDataValue::File(file)));
        }
        self.entries.push((name, FormDataValue::File(file)));
    }

    /// `append(name, value, filename)`: adds the resolved value at the end.
    pub fn append(&mut self, name: String, value: FormDataEntryValue, filename: Option<String>)
        ensures
            final(self)@ == old(self)@.push((name@, resolved(value@, crate::blob::opt_view(filename)))),
    {
        let v = resolve_value(value, filename);
        proof {
            lemma_entries_view_push(self.entries@, (name, v));
        }
        self.entries.push((name, v));
    }

    /// The index of the first entry named `name`.
    fn first_index(&self, name: &str) -> (r: Option<usize>)
        ensures
            match r {
                Some(i) => is_first_key(self@, name@, i as int),
                None => !has_key(self@, name@),
            },
    {
        let ghost s = self@;
        let mut i: usize = 0;
        while i < self.entries.len()
            invariant
                s == entries_view(self.entries@),
                i <= s.len(),
                forall|j: int| 0 <= j < i ==> #[trigger] s[j].0 != name@,
            decreases self.entries.len() - i,
        {
            if str_equals(self.entries[i].0.as_str(), name) {
                return Some(i);
            }
            i = i + 1;
        }
        None
    }

    /// `set(name, value, filename)`: the first entry named `name` takes the resolved value in
    /// place and the later ones are removed; with none, the entry is appended.
    pub fn set(&mut self, name: String, value: FormDataEntryValue, filename: Option<String>)
        ensures
            final(self)@ == set_pairs(old(self)@, name@, resolved(value@, crate::blob::opt_view(filename))),
    {
        let v = resolve_value(value, filename);
        let ghost s = self@;
        let ghost vv = v@;
        match self.first_index(name.as_str()) {
            None => {
                proof {
                    lemma_entries_view_push(self.entries@, (name, v));
                }
                self.entries.push((name, v));
            },
            Some(i) => {
                proof {
                    crate::fetch::url_search_params::lemma_first_key_exists(s, name@);
                    let c = choose|c: int| is_first_key(s, name@, c);
                    if c < i {
                        assert(s[c].0 != name@);
                    } else if c > i {
                        assert(s[i as int].0 != name@);
                    }
                    assert(c == i);
                }
                let ghost key = name@;
                assert(i < self.entries@.len());
                self.entries.remove(i);
                self.entries.insert(i, (name, v));
                assert(self@ =~= s.subrange(0, i as int).push((key, vv)) + s.subrange(i + 1, s.len() as int));
                let n = self.entries.len();
                assert(i < n);
                let mut j: usize = i + 1;
                assert(s.subrange(i + 1, i + 1) =~= Seq::<(Seq<char>, FormDataValueView)>::empty());
                let ghost mut consumed: int = i + 1;
                while j < self.entries.len()
                    invariant
                        i < j <= self.entries@.len(),
                        i + 1 <= consumed <= s.len(),
                        self@ == s.subrange(0, i as int).push((key, vv)) + without_key(s.subrange(i + 1, consumed), key)
                            + s.subrange(consumed, s.len() as int),
                        j == i + 1 + without_key(s.subrange(i + 1, consumed), key).len(),
                        self@[i as int].0 == key,
                    decreases self.entries.len() - j,
                {
                    let ghost before = self@;
                    let ghost w = without_key(s.subrange(i + 1, consumed), key);
                    let ghost rest = s.subrange(consumed, s.len() as int);
                    let ghost pre = s.subrange(0, i as int).push((key, vv));
                    assert(before[j as int] == s[consumed]);
                    assert(s.subrange(i + 1, consumed + 1).drop_last() =~= s.subrange(i + 1, consumed));
                    assert(s.subrange(i + 1, consumed + 1).last() == s[consumed]);
                    assert(rest.drop_first() =~= s.subrange(consumed + 1, s.len() as int));
                    if str_equals(self.entries[j].0.as_str(), self.entries[i].0.as_str()) {
                        assert(s[consumed].0 == key);
                        assert(without_key(s.subrange(i + 1, consumed + 1), key) == w);
                        proof {
                            lemma_entries_view_remove(self.entries@, j as int);
                        }
                        self.entries.remove(j);
                        assert(before.remove(j as int) =~= pre + w + rest.drop_first());
                        proof {
                            consumed = consumed + 1;
                        }
                    } else {
                        assert(s[consumed].0 != key);
                        assert(without_key(s.subrange(i + 1, consumed + 1), key) == w.push(s[consumed]));
                        assert(before =~= pre + w.push(s[consumed]) + rest.drop_first());
                        j = j + 1;
                        proof {
                            consumed = consumed + 1;
                        }
                    }
                }
                proof {
                    let w = without_key(s.subrange(i + 1, consumed), key);
                    assert(self@.len() == i + 1 + w.len() + (s.len() - consumed));
                    assert(consumed == s.len());
                    assert(s.subrange(consumed, s.len() as int) =~= Seq::<(Seq<char>, FormDataValueView)>::empty());
                    assert(self@ =~= s.subrange(0, i as int).push((key, vv)) + without_key(
                        s.subrange(i + 1, s.len() as int),
                        key,
                    ));
                }
            },
        }
    }

    /// `get(name)`: a copy of the value of the first entry named `name`.
    pub fn get(&self, name: &str) -> (r: Option<FormDataValue>)
        ensures
            match r {
                Some(v) => first_value(self@, name@) == Some(v@),
                None => first_value(self@, name@) is None,
            },
    {
        let ghost s = self@;
        let mut i: usize = 0;
        assert(s.skip(0) =~= s);
        while i < self.entries.len()
            invariant
                s == entries_view(self.entries@),
                i <= s.len(),
                first_value(s, name@) == first_value(s.skip(i as int), name@),
            decreases self.entries.len() - i,
        {
            assert(s.skip(i as int)[0] == s[i as int]);
            if str_equals(self.entries[i].0.as_str(), name) {
                return Some(self.entries[i].1.duplicate());
            }
            assert(s.skip(i as int).drop_first() =~= s.skip(i + 1));
            i = i + 1;
        }
        None
    }

    /// `getAll(name)`: copies of the values of every entry named `name`, in order.
    pub fn get_all(&self, name: &str) -> (r: Vec<FormDataValue>)
        ensures
            Seq::new(r@.len(), |i: int| r@[i]@) == all_values(self@, name@),
    {
        let ghost s = self@;
        let mut out: Vec<FormDataValue> = Vec::new();
        let mut i: usize = 0;
        while i < self.entries.len()
            invariant
                s == entries_view(self.entries@),
                i <= s.len(),
                Seq::new(out@.len(), |j: int| out@[j]@) == all_values(s.subrange(0, i as int), name@),
            decreases self.entries.len() - i,
        {
            assert(s.subrange(0, i + 1).drop_last() =~= s.subrange(0, i as int));
            if str_equals(self.entries[i].0.as_str(), name) {
                out.push(self.entries[i].1.duplicate());
            }
            i = i + 1;
            assert(Seq::new(out@.len(), |j: int| out@[j]@) =~= all_values(s.subrange(0, i as int), name@));
        }
        assert(s.subrange(0, s.len() as int) =~= s);
        out
    }

    /// `has(name)`: whether some entry is named `name`.
    pub fn has(&self, name: &str) -> (b: bool)
        ensures
            b == has_key(self@, name@),
    {
        match self.first_index(name) {
            Some(i) => {
                assert(self@[i as int].0 == name@);
                true
            },
            None => false,
        }
    }

    /// `delete(name)`: removes every entry named `name`.
    pub fn delete(&mut self, name: &str)
        ensures
            final(self)@ == without_key(old(self)@, name@),
    {
        let ghost s = self@;
        let mut j: usize = 0;
        let ghost mut consumed: int = 0;
        assert(s.subrange(0, 0) =~= Seq::<(Seq<char>, FormDataValueView)>::empty());
        assert(s.subrange(0, s.len() as int) =~= s);
        while j < self.entries.len()
            invariant
                0 <= consumed <= s.len(),
                self@ == without_key(s.subrange(0, consumed), name@) + s.subrange(consumed, s.len() as int),
                j == without_key(s.subrange(0, consumed), name@).len(),
                j <= self.entries@.len(),
            decreases self.entries.len() - j,
        {
            let ghost before = self@;
            let ghost w = without_key(s.subrange(0, consumed), name@);
            let ghost rest = s.subrange(consumed, s.len() as int);
            assert(before[j as int] == s[consumed]);
            assert(s.subrange(0, consumed + 1).drop_last() =~= s.subrange(0, consumed));
            assert(s.subrange(0, consumed + 1).last() == s[consumed]);
            assert(rest.drop_first() =~= s.subrange(consumed + 1, s.len() as int));
            if str_equals(self.entries[j].0.as_str(), name) {
                assert(without_key(s.subrange(0, consumed + 1), name@) == w);
                proof {
                    lemma_entries_view_remove(self.entries@, j as int);
                }
                self.entries.remove(j);
                assert(before.remove(j as int) =~= w + rest.drop_first());
            } else {
                assert(without_key(s.subrange(0, consumed + 1), name@) == w.push(s[consumed]));
                assert(before =~= w.push(s[consumed]) + rest.drop_first());
                j = j + 1;
            }
            proof {
                consumed = consumed + 1;
            }
        }
        proof {
            assert(self@.len() == j + (s.len() - consumed));
            assert(s.subrange(consumed, s.len() as int) =~= Seq::<(Seq<char>, FormDataValueView)>::empty());
            assert(s.subrange(0, consumed) =~= s);
            assert(self@ =~= without_key(s, name@));
        }
    }

    /// Copies of the entries, in order (`entries()`, `forEach`, `for...of`).
    pub fn entries(&self) -> (r: Vec<(String, FormDataValue)>)
        ensures
            entries_view(r@) == self@,
    {
        let mut out: Vec<(String, FormDataValue)> = Vec::new();
        let mut i: usize = 0;
        while i < self.entries.len()
            invariant
                i <= self.entries@.len(),
                entries_view(out@) == entries_view(self.entries@).subrange(0, i as int),
            decreases self.entries.len() - i,
        {
            let pair = (self.entries[i].0.clone(), self.entries[i].1.duplicate());
            proof {
                lemma_entries_view_push(out@, pair);
            }
            out.push(pair);
            i = i + 1;
            assert(entries_view(out@) =~= entries_view(self.entries@).subrange(0, i as int));
        }
        assert(entries_view(self.entries@).subrange(0, i as int) =~= entries_view(self.entries@));
        out
    }

    /// The names of the entries, in order (`keys()`).
    pub fn keys(&self) -> (r: Vec<String>)
        ensures
            r@.len() == self@.len(),
            forall|i: int| 0 <= i < r@.len() ==> #[trigger] r@[i]@ == self@[i].0,
    {
        let mut out: Vec<String> = Vec::new();
        let mut i: usize = 0;
        while i < self.entries.len()
            invariant
                i <= self.entries@.len(),
                out@.len() == i,
                forall|j: int| 0 <= j < i ==> #[trigger] out@[j]@ == self.entries@[j].0@,
            decreases self.entries.len() - i,
        {
            out.push(self.entries[i].0.clone());
            i = i + 1;
        }
        out
    }

    /// Copies of the values, in order (`values()`).
    pub fn values(&self) -> (r: Vec<FormDataValue>)
        ensures
            r@.len() == self@.len(),
            forall|i: int| 0 <= i < r@.len() ==> #[trigger] r@[i]@ == self@[i].1,
    {
        let mut out: Vec<FormDataValue> = Vec::new();
        let mut i: usize = 0;
        while i < self.entries.len()
            invariant
                i <= self.entries@.len(),
                out@.len() == i,
                forall|j: int| 0 <= j < i ==> #[trigger] out@[j]@ == self.entries@[j].1@,
            decreases self.entries.len() - i,
        {
            out.push(self.entries[i].1.duplicate());
            i = i + 1;
        }
        out
    }

    /// The `multipart/form-data` body with the given boundary.
    pub fn encode_multipart_with(&self, boundary: &str) -> (r: Vec<u8>)
        ensures
            r@ == multipart_bytes(boundary@, self@),
    {
        let ghost s = self@;
        let mut buf: Vec<u8> = Vec::new();
        let mut i: usize = 0;
        while i < self.entries.len()
            invariant
                s == entries_view(self.entries@),
                i <= s.len(),
                buf@ == entries_bytes(boundary@, s.subrange(0, i as int)),
            decreases self.entries.len() - i,
        {
            let (name, value) = &self.entries[i];
            push_entry(&mut buf, boundary, name, value);
            assert(s.subrange(0, i + 1).drop_last() =~= s.subrange(0, i as int));
            assert(s[i as int] == (name@, value@));
            i = i + 1;
        }
        assert(s.subrange(0, s.len() as int) =~= s);
        extend_utf8(&mut buf, "--");
        extend_utf8(&mut buf, boundary);
        extend_utf8(&mut buf, "--");
        buf
    }

    /// Encodes the form as a `multipart/form-data` body under a fresh random boundary, and
    /// returns the boundary (for the `Content-Type` header) with the body.
    pub fn encode_multipart(&self) -> (r: (String, Vec<u8>))
        ensures
            exists|a: u64, b: u64| r.0@ == boundary_text(a, b),
            r.1@ == multipart_bytes(r.0@, self@),
    {
        let boundary = generate_boundary();
        let body = self.encode_multipart_with(boundary.as_str());
        (boundary, body)
    }
}

/// Appends the head of an entry: the boundary line and the `Content-Disposition` name.
fn push_entry_head(buf: &mut Vec<u8>, boundary: &str, name: &String)
    ensures
        final(buf)@ == old(buf)@ + (enc("--"@) + enc(boundary@) + enc("\r\n"@) + enc(
            "Content-Disposition: form-data; name=\""@,
        ) + enc(escaped(name@)) + enc("\""@)),
{
    let ghost start = buf@;
    extend_utf8(buf, "--");
    extend_utf8(buf, boundary);
    extend_utf8(buf, "\r\n");
    extend_utf8(buf, "Content-Disposition: form-data; name=\"");
    let en = escape_field(name.as_str());
    extend_utf8(buf, en.as_str());
    extend_utf8(buf, "\"");
    assert(buf@ =~= start + (enc("--"@) + enc(boundary@) + enc("\r\n"@) + enc(
        "Content-Disposition: form-data; name=\""@,
    ) + enc(escaped(name@)) + enc("\""@)));
}

/// Appends the part of a file entry after its name.
fn push_file_body(buf: &mut Vec<u8>, f: &File)
    ensures
        final(buf)@ == old(buf)@ + (enc("; filename=\""@) + enc(escaped(f@.name)) + enc("\"\r\n"@) + enc(
            "Content-Type: "@,
        ) + enc(part_content_type(f@.blob.content_type)) + enc("\r\n\r\n"@) + f@.blob.bytes),
{
    let ghost start = buf@;
    extend_utf8(buf, "; filename=\"");
    let fname = f.name();
    let ef = escape_field(fname.as_str());
    extend_utf8(buf, ef.as_str());
    extend_utf8(buf, "\"\r\n");
    extend_utf8(buf, "Content-Type: ");
    let ct = file_part_type(f.blob());
    extend_utf8(buf, ct.as_str());
    extend_utf8(buf, "\r\n\r\n");
    let data = f.blob().bytes();
    extend_bytes(buf, data.as_slice());
    assert(buf@ =~= start + (enc("; filename=\""@) + enc(escaped(f@.name)) + enc("\"\r\n"@) + enc(
        "Content-Type: "@,
    ) + enc(part_content_type(f@.blob.content_type)) + enc("\r\n\r\n"@) + f@.blob.bytes));
}

/// Appends one entry.
fn push_entry(buf: &mut Vec<u8>, boundary: &str, name: &String, value: &FormDataValue)
    ensures
        final(buf)@ == old(buf)@ + entry_bytes(boundary@, name@, value@),
{
    let ghost start = buf@;
    push_entry_head(buf, boundary, name);
    let ghost head = buf@;
    match value {
        FormDataValue::Text(t) => {
            extend_utf8(buf, "\r\n\r\n");
            extend_utf8(buf, t.as_str());
        },
        FormDataValue::File(f) => {
            push_file_body(buf, f);
        },
    }
    extend_utf8(buf, "\r\n");
    assert(buf@ =~= start + entry_bytes(boundary@, name@, value@));
}

/// The media type written for a file part.
fn file_part_type(b: &Blob) -> (r: String)
    ensures
        r@ == part_content_type(b@.content_type),
{
    match b.media_type() {
        Some(t) => if !t.as_str().is_empty() {
            t
        } else {
            owned("application/octet-stream")
        },
        None => owned("application/octet-stream"),
    }
}

} // verus!
