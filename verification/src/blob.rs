//! `Blob` and `File`: immutable byte contents with an optional media type (and, for a file, a
//! name), built from parts and cut into slices.
use vstd::prelude::*;

verus! {

/// `std::str::from_utf8`: the text of the bytes when they are valid UTF-8.
#[verifier::external_body]
fn utf8_text(bytes: &[u8]) -> (r: Option<String>)
    ensures
        r is Some <==> vstd::utf8::valid_utf8(bytes@),
        r matches Some(t) ==> t@ == vstd::utf8::decode_utf8(bytes@),
{
    match std::str::from_utf8(bytes) {
        Ok(t) => Some(t.to_owned()),
        Err(_) => None,
    }
}

/// Appends `bytes` to `out`.
pub fn extend_bytes(out: &mut Vec<u8>, bytes: &[u8])
    ensures
        final(out)@ == old(out)@ + bytes@,
{
    let ghost start = out@;
    let mut i: usize = 0;
    while i < bytes.len()
        invariant
            i <= bytes@.len(),
            out@ == start + bytes@.subrange(0, i as int),
        decreases bytes.len() - i,
    {
        out.push(bytes[i]);
        i = i + 1;
        assert(out@ =~= start + bytes@.subrange(0, i as int));
    }
    assert(bytes@.subrange(0, bytes@.len() as int) =~= bytes@);
}

/// Appends the UTF-8 bytes of `s` to `out`.
pub fn extend_utf8(out: &mut Vec<u8>, s: &str)
    ensures
        final(out)@ == old(out)@ + vstd::utf8::encode_utf8(s@),
{
    extend_bytes(out, s.as_bytes());
}

/// The view of a `Blob`: its bytes and its media type, if one was given.
pub struct BlobView {
    pub bytes: Seq<u8>,
    pub content_type: Option<Seq<char>>,
}

/// `Blob`.
pub struct Blob {
    bytes: Vec<u8>,
    content_type: Option<String>,
}

/// The view of an optional string.
pub open spec fn opt_view(o: Option<String>) -> Option<Seq<char>> {
    match o {
        Some(s) => Some(s@),
        None => None,
    }
}

impl View for Blob {
    type V = BlobView;

    closed spec fn view(&self) -> BlobView {
        BlobView { bytes: self.bytes@, content_type: opt_view(self.content_type) }
    }
}

/// One part of a `Blob`'s contents.
pub enum BlobInit {
    /// A string, taken as its UTF-8 bytes.
    Text(String),
    /// Raw bytes (a buffer or a view of one).
    Bytes(Vec<u8>),
    /// The contents of another blob.
    Blob(Blob),
}

/// The bytes a part contributes.
pub open spec fn part_bytes(p: BlobInit) -> Seq<u8> {
    match p {
        BlobInit::Text(s) => vstd::utf8::encode_utf8(s@),
        BlobInit::Bytes(b) => b@,
        BlobInit::Blob(b) => b@.bytes,
    }
}

/// The bytes of the parts, concatenated in order.
pub open spec fn parts_bytes(ps: Seq<BlobInit>) -> Seq<u8>
    decreases ps.len(),
{
    if ps.len() == 0 {
        Seq::empty()
    } else {
        parts_bytes(ps.drop_last()) + part_bytes(ps.last())
    }
}

/// A slice index resolved against the size: a negative index counts from the end (stopping at
/// 0), a positive one stops at the size.
pub open spec fn clamp_index(idx: int, size: int) -> int {
    if idx < 0 {
        if size + idx > 0 {
            size + idx
        } else {
            0
        }
    } else if idx < size {
        idx
    } else {
        size
    }
}

/// Where a slice starts: the clamped start, or 0.
pub open spec fn slice_start(start: Option<i64>, size: int) -> int {
    match start {
        Some(s) => clamp_index(s as int, size),
        None => 0,
    }
}

/// Where a slice ends: the clamped end (or the size), but never before the start.
pub open spec fn slice_end(start: Option<i64>, end: Option<i64>, size: int) -> int {
    let e = match end {
        Some(e) => clamp_index(e as int, size),
        None => size,
    };
    let s = slice_start(start, size);
    if e < s {
        s
    } else {
        e
    }
}

fn clamp(idx: i64, size: usize) -> (r: usize)
    ensures
        r == clamp_index(idx as int, size as int),
{
    let size_i: i128 = size as i128;
    let idx_i: i128 = idx as i128;
    if idx_i < 0 {
        let v: i128 = size_i + idx_i;
        if v > 0 {
            v as usize
        } else {
            0
        }
    } else if idx_i < size_i {
        idx as usize
    } else {
        size
    }
}

fn copy_string(s: &String) -> (r: String)
    ensures
        r@ == s@,
{
    s.clone()
}

fn copy_opt_string(o: &Option<String>) -> (r: Option<String>)
    ensures
        opt_view(r) == opt_view(*o),
{
    match o {
        Some(s) => Some(copy_string(s)),
        None => None,
    }
}

impl Blob {
    /// A blob of the given parts' bytes, in order, with the given media type.
    pub fn new(parts: &Vec<BlobInit>, content_type: Option<String>) -> (b: Blob)
        ensures
            b@.bytes == parts_bytes(parts@),
            b@.content_type == opt_view(content_type),
    {
        let mut data: Vec<u8> = Vec::new();
        let mut i: usize = 0;
        while i < parts.len()
            invariant
                i <= parts@.len(),
                data@ == parts_bytes(parts@.subrange(0, i as int)),
            decreases parts.len() - i,
        {
            match &parts[i] {
                BlobInit::Text(s) => extend_utf8(&mut data, s.as_str()),
                BlobInit::Bytes(b) => extend_bytes(&mut data, b.as_slice()),
                BlobInit::Blob(b) => extend_bytes(&mut data, b.bytes.as_slice()),
            }
            assert(parts@.subrange(0, i + 1).drop_last() =~= parts@.subrange(0, i as int));
            i = i + 1;
        }
        assert(parts@.subrange(0, parts@.len() as int) =~= parts@);
        Blob { bytes: data, content_type }
    }

    /// A blob holding exactly these bytes.
    pub fn from_bytes(bytes: Vec<u8>, content_type: Option<String>) -> (b: Blob)
        ensures
            b@.bytes == bytes@,
            b@.content_type == opt_view(content_type),
    {
        Blob { bytes, content_type }
    }

    /// `size`: the number of bytes.
    pub fn size(&self) -> (n: usize)
        ensures
            n == self@.bytes.len(),
    {
        self.bytes.len()
    }

    /// `type`: the media type, or the empty string when none was given.
    pub fn content_type(&self) -> (t: String)
        ensures
            t@ == match self@.content_type {
                Some(c) => c,
                None => Seq::<char>::empty(),
            },
    {
        match &self.content_type {
            Some(t) => copy_string(t),
            None => String::new(),
        }
    }

    /// The media type as given.
    pub fn media_type(&self) -> (t: Option<String>)
        ensures
            opt_view(t) == self@.content_type,
    {
        copy_opt_string(&self.content_type)
    }

    /// `bytes()` / `arrayBuffer()`: a copy of the contents.
    pub fn bytes(&self) -> (b: Vec<u8>)
        ensures
            b@ == self@.bytes,
    {
        let mut out: Vec<u8> = Vec::new();
        extend_bytes(&mut out, self.bytes.as_slice());
        out
    }

    /// `text()`: the contents decoded as UTF-8; `None` when they are not valid UTF-8.
    pub fn text(&self) -> (t: Option<String>)
        ensures
            t is Some <==> vstd::utf8::valid_utf8(self@.bytes),
            t matches Some(s) ==> s@ == vstd::utf8::decode_utf8(self@.bytes),
    {
        utf8_text(self.bytes.as_slice())
    }

    /// `slice(start, end, contentType)`: the bytes between the resolved start and end, with
    /// the given media type (none when it is not given).
    pub fn slice(&self, start: Option<i64>, end: Option<i64>, content_type: Option<String>) -> (b: Blob)
        ensures
            b@.bytes == self@.bytes.subrange(
                slice_start(start, self@.bytes.len() as int),
                slice_end(start, end, self@.bytes.len() as int),
            ),
            b@.content_type == opt_view(content_type),
    {
        let size = self.bytes.len();
        let s: usize = match start {
            Some(v) => clamp(v, size),
            None => 0,
        };
        let e0: usize = match end {
            Some(v) => clamp(v, size),
            None => size,
        };
        let e: usize = if e0 < s {
            s
        } else {
            e0
        };
        let mut out: Vec<u8> = Vec::new();
        let mut i: usize = s;
        while i < e
            invariant
                s <= i <= e <= size,
                size == self.bytes@.len(),
                out@ == self.bytes@.subrange(s as int, i as int),
            decreases e - i,
        {
            out.push(self.bytes[i]);
            i = i + 1;
            assert(out@ =~= self.bytes@.subrange(s as int, i as int));
        }
        Blob { bytes: out, content_type }
    }

    /// An independent copy.
    pub fn duplicate(&self) -> (b: Blob)
        ensures
            b@ == self@,
    {
        Blob { bytes: self.bytes(), content_type: copy_opt_string(&self.content_type) }
    }
}

/// `File`: a blob with a name.
pub struct File {
    blob: Blob,
    name: String,
}

/// The view of a `File`: its contents and its name.
pub struct FileView {
    pub blob: BlobView,
    pub name: Seq<char>,
}

impl View for File {
    type V = FileView;

    closed spec fn view(&self) -> FileView {
        FileView { blob: self.blob@, name: self.name@ }
    }
}

impl File {
    /// A file of the given parts' bytes, with a name and an optional media type.
    pub fn new(parts: &Vec<BlobInit>, name: String, content_type: Option<String>) -> (f: File)
        ensures
            f@.blob.bytes == parts_bytes(parts@),
            f@.blob.content_type == opt_view(content_type),
            f@.name == name@,
    {
        File { blob: Blob::new(parts, content_type), name }
    }

    /// A file with the contents and media type of `blob`, under `name`.
    pub fn from_blob(blob: &Blob, name: String) -> (f: File)
        ensures
            f@.blob == blob@,
            f@.name == name@,
    {
        File { blob: blob.duplicate(), name }
    }

    /// `name`.
    pub fn name(&self) -> (n: String)
        ensures
            n@ == self@.name,
    {
        copy_string(&self.name)
    }

    /// The file's contents as a blob.
    pub fn blob(&self) -> (b: &Blob)
        ensures
            b@ == self@.blob,
    {
        &self.blob
    }

    /// An independent copy.
    pub fn duplicate(&self) -> (f: File)
        ensures
            f@ == self@,
    {
        File { blob: self.blob.duplicate(), name: copy_string(&self.name) }
    }
}

/// A slice lies within the contents: `0 <= start <= end <= size`.
pub proof fn lemma_slice_within_bounds(start: Option<i64>, end: Option<i64>, size: int)
    requires
        size >= 0,
    ensures
        0 <= slice_start(start, size) <= slice_end(start, end, size) <= size,
{
}

/// Slicing without bounds keeps every byte, and slicing between two in-range offsets keeps
/// exactly the bytes between them.
pub proof fn lemma_slice_in_range(start: i64, end: i64, size: int)
    requires
        0 <= start <= end <= size,
    ensures
        slice_start(None, size) == 0 && slice_end(None, None, size) == size,
        slice_start(Some(start), size) == start && slice_end(Some(start), Some(end), size) == end,
{
}

/// A negative start counts from the end: `slice(-n)` keeps the last `n` bytes (all of them
/// when `n` exceeds the size).
pub proof fn lemma_slice_from_end(n: i64, size: int)
    requires
        size >= 0,
        n > 0,
    ensures
        slice_start(Some(-n as i64), size) == if n < size {
            size - n
        } else {
            0
        },
        slice_end(Some(-n as i64), None, size) == size,
{
}

/// The characters of the string parts, joined in order.
pub open spec fn parts_text(ps: Seq<BlobInit>) -> Seq<char>
    decreases ps.len(),
{
    if ps.len() == 0 {
        Seq::empty()
    } else {
        parts_text(ps.drop_last()) + match ps.last() {
            BlobInit::Text(t) => t@,
            _ => Seq::empty(),
        }
    }
}

proof fn lemma_encode_utf8_concat(a: Seq<char>, b: Seq<char>)
    ensures
        vstd::utf8::encode_utf8(a + b) == vstd::utf8::encode_utf8(a) + vstd::utf8::encode_utf8(b),
    decreases a.len(),
{
    if a.len() == 0 {
        assert(a + b =~= b);
    } else {
        assert((a + b).drop_first() =~= a.drop_first() + b);
        lemma_encode_utf8_concat(a.drop_first(), b);
        assert(vstd::utf8::encode_utf8(a + b) =~= vstd::utf8::encode_utf8(a) + vstd::utf8::encode_utf8(b));
    }
}

/// A blob made only of strings holds their UTF-8 encoding, so `text()` gives the strings
/// joined in order.
pub proof fn lemma_text_parts_read_back(ps: Seq<BlobInit>)
    requires
        forall|i: int| 0 <= i < ps.len() ==> #[trigger] ps[i] is Text,
    ensures
        parts_bytes(ps) == vstd::utf8::encode_utf8(parts_text(ps)),
        vstd::utf8::valid_utf8(parts_bytes(ps)),
        vstd::utf8::decode_utf8(parts_bytes(ps)) == parts_text(ps),
    decreases ps.len(),
{
    if ps.len() > 0 {
        let init = ps.drop_last();
        assert forall|i: int| 0 <= i < init.len() implies #[trigger] init[i] is Text by {
            assert(init[i] == ps[i]);
        }
        lemma_text_parts_read_back(init);
        assert(ps[ps.len() - 1] is Text);
        let t = match ps.last() {
            BlobInit::Text(t) => t@,
            _ => Seq::empty(),
        };
        lemma_encode_utf8_concat(parts_text(init), t);
    } else {
        assert(vstd::utf8::encode_utf8(Seq::<char>::empty()) =~= Seq::<u8>::empty());
    }
    vstd::utf8::encode_utf8_valid_utf8(parts_text(ps));
    vstd::utf8::encode_utf8_decode_utf8(parts_text(ps));
}

} // verus!
