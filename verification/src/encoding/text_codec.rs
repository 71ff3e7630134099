//! `TextEncoder` and `TextDecoder`: an encoding chosen by label, and text converted to and from
//! its bytes.
use vstd::prelude::*;

use crate::text::{ascii_lowercase, lower_seq, owned};

verus! {

/// `encoding_rs::Encoding::for_label` followed by `Encoding::name`: the canonical name of the
/// encoding a label denotes, if it denotes one.
pub uninterp spec fn label_encoding(label: Seq<char>) -> Option<Seq<char>>;

/// `Encoding::for_label`, then `Encoding::output_encoding` and `Encoding::name`: the name of the
/// encoding that encoding to the label's encoding writes.
pub uninterp spec fn label_output_encoding(label: Seq<char>) -> Seq<char>;

/// `Encoding::decode` (with BOM sniffing and replacement of malformed input) under the
/// label's encoding.
pub uninterp spec fn decoded(label: Seq<char>, bytes: Seq<u8>) -> Seq<char>;

/// `Encoding::encode` (unmappable characters written as numeric character references) under
/// the label's encoding.
pub uninterp spec fn encoded(label: Seq<char>, text: Seq<char>) -> Seq<u8>;

/// `Encoding::for_label(label)` and the encoding's `name()`. The crate's documentation shows
/// that the label `utf-8` denotes `UTF_8`, whose name is `UTF-8`.
#[verifier::external_body]
fn lookup_label(label: &str) -> (r: Option<String>)
    ensures
        crate::blob::opt_view(r) == label_encoding(label@),
        label@ == "utf-8"@ ==> crate::blob::opt_view(r) == Some("UTF-8"@),
{
    match encoding_rs::Encoding::for_label(label.as_bytes()) {
        Some(e) => Some(e.name().to_owned()),
        None => None,
    }
}

/// `Encoding::for_label(label)`, `output_encoding()` and its `name()`. The source maps every
/// encoding to itself but `replacement`, `UTF-16BE` and `UTF-16LE` (which map to `UTF_8`), so
/// the label `utf-8` gives `UTF-8`.
#[verifier::external_body]
fn lookup_output_name(label: &str) -> (r: String)
    requires
        label_encoding(label@) is Some,
    ensures
        r@ == label_output_encoding(label@),
        label@ == "utf-8"@ ==> r@ == "UTF-8"@,
{
    encoding_rs::Encoding::for_label(label.as_bytes()).unwrap().output_encoding().name().to_owned()
}

/// The bytes begin with the UTF-8 byte-order mark `EF BB BF`.
pub open spec fn starts_with_utf8_bom(bytes: Seq<u8>) -> bool {
    bytes.len() >= 3 && bytes[0] == 0xEFu8 && bytes[1] == 0xBBu8 && bytes[2] == 0xBFu8
}

/// `Encoding::decode` under the encoding of `label`. The source sniffs a byte-order mark
/// (`EF BB BF`, `FF FE` or `FE FF`, none of which begins valid UTF-8 but the first) and, for
/// `UTF_8` on input that is valid UTF-8 throughout, returns that input as it is.
#[verifier::external_body]
fn decode_by_label(label: &str, bytes: &[u8]) -> (r: String)
    requires
        label_encoding(label@) is Some,
    ensures
        r@ == decoded(label@, bytes@),
        label_encoding(label@) == Some("UTF-8"@) && vstd::utf8::valid_utf8(bytes@) && !starts_with_utf8_bom(bytes@)
            ==> r@ == vstd::utf8::decode_utf8(bytes@),
{
    encoding_rs::Encoding::for_label(label.as_bytes()).unwrap().decode(bytes).0.into_owned()
}

/// `Encoding::encode` under the encoding of `label`. The source returns the text's own UTF-8
/// bytes when the output encoding is `UTF-8`.
#[verifier::external_body]
fn encode_by_label(label: &str, text: &str) -> (r: Vec<u8>)
    requires
        label_encoding(label@) is Some,
    ensures
        r@ == encoded(label@, text@),
        label_output_encoding(label@) == "UTF-8"@ ==> r@ == vstd::utf8::encode_utf8(text@),
{
    encoding_rs::Encoding::for_label(label.as_bytes()).unwrap().encode(text).0.into_owned()
}

/// The label an encoder or decoder is made with: the one given, or `utf-8`.
pub open spec fn effective_label(label: Option<Seq<char>>) -> Seq<char> {
    match label {
        Some(l) => l,
        None => "utf-8"@,
    }
}

/// A label that denotes no encoding.
#[derive(Debug, Clone, Copy, PartialEq, Eq, Structural)]
pub struct UnknownEncoding;

/// `TextDecoder`.
pub struct TextDecoder {
    label: String,
    name: String,
}

impl TextDecoder {
    #[verifier::type_invariant]
    spec fn wf(&self) -> bool {
        label_encoding(self.label@) == Some(self.name@)
    }

    /// The label the decoder was made with.
    pub closed spec fn label(&self) -> Seq<char> {
        self.label@
    }

    /// `new TextDecoder(label)`: the encoding the label denotes (`utf-8` when none is given).
    pub fn new(label: Option<&str>) -> (r: Result<TextDecoder, UnknownEncoding>)
        ensures
            match r {
                Ok(d) => label_encoding(effective_label(opt_str(label))) is Some && d.label() == effective_label(
                    opt_str(label),
                ),
                Err(_) => label_encoding(effective_label(opt_str(label))) is None,
            },
            label is None ==> r is Ok,
    {
        let l = match label {
            Some(l) => owned(l),
            None => owned("utf-8"),
        };
        match lookup_label(l.as_str()) {
            Some(name) => Ok(TextDecoder { label: l, name }),
            None => Err(UnknownEncoding),
        }
    }

    /// `encoding`: the encoding's name, ASCII-lowercased.
    pub fn encoding(&self) -> (r: String)
        ensures
            label_encoding(self.label()) matches Some(n) && r@ == lower_seq(n),
    {
        proof {
            use_type_invariant(self);
        }
        ascii_lowercase(self.name.as_str())
    }

    /// `decode(bytes)`. A UTF-8 decoder gives valid UTF-8 input without a byte-order mark back
    /// as its characters.
    pub fn decode(&self, bytes: &[u8]) -> (r: String)
        ensures
            r@ == decoded(self.label(), bytes@),
            label_encoding(self.label()) == Some("UTF-8"@) && vstd::utf8::valid_utf8(bytes@)
                && !starts_with_utf8_bom(bytes@) ==> r@ == vstd::utf8::decode_utf8(bytes@),
    {
        proof {
            use_type_invariant(self);
        }
        decode_by_label(self.label.as_str(), bytes)
    }
}

/// `TextEncoder`.
pub struct TextEncoder {
    label: String,
}

impl TextEncoder {
    #[verifier::type_invariant]
    spec fn wf(&self) -> bool {
        label_encoding(self.label@) is Some
    }

    /// The label the encoder was made with.
    pub closed spec fn label(&self) -> Seq<char> {
        self.label@
    }

    /// `new TextEncoder(label)`: the encoding the label denotes (`utf-8` when none is given).
    pub fn new(label: Option<&str>) -> (r: Result<TextEncoder, UnknownEncoding>)
        ensures
            match r {
                Ok(e) => label_encoding(effective_label(opt_str(label))) is Some && e.label() == effective_label(
                    opt_str(label),
                ),
                Err(_) => label_encoding(effective_label(opt_str(label))) is None,
            },
            label is None ==> r is Ok,
    {
        let l = match label {
            Some(l) => owned(l),
            None => owned("utf-8"),
        };
        match lookup_label(l.as_str()) {
            Some(_) => Ok(TextEncoder { label: l }),
            None => Err(UnknownEncoding),
        }
    }

    /// `encoding`: the name of the encoding written, ASCII-lowercased.
    pub fn encoding(&self) -> (r: String)
        ensures
            r@ == lower_seq(label_output_encoding(self.label())),
    {
        proof {
            use_type_invariant(self);
        }
        let n = lookup_output_name(self.label.as_str());
        ascii_lowercase(n.as_str())
    }

    /// `encode(text)`.
    pub fn encode(&self, text: &str) -> (r: Vec<u8>)
        ensures
            r@ == encoded(self.label(), text@),
            label_output_encoding(self.label()) == "UTF-8"@ ==> r@ == vstd::utf8::encode_utf8(text@),
    {
        proof {
            use_type_invariant(self);
        }
        encode_by_label(self.label.as_str(), text)
    }
}

/// The view of an optional string slice.
pub open spec fn opt_str(o: Option<&str>) -> Option<Seq<char>> {
    match o {
        Some(s) => Some(s@),
        None => None,
    }
}

/// The UTF-8 encoding of a text that does not begin with U+FEFF is valid UTF-8 without a
/// byte-order mark, and decodes to the text: so a UTF-8 decoder gives back what a UTF-8
/// encoder wrote. (A text that begins with U+FEFF loses it: the decoder reads it as the mark.)
pub proof fn lemma_utf8_decode_after_encode(text: Seq<char>)
    requires
        !(text.len() > 0 && text[0] == '\u{FEFF}'),
    ensures
        vstd::utf8::valid_utf8(vstd::utf8::encode_utf8(text)),
        !starts_with_utf8_bom(vstd::utf8::encode_utf8(text)),
        vstd::utf8::decode_utf8(vstd::utf8::encode_utf8(text)) == text,
{
    vstd::utf8::encode_utf8_valid_utf8(text);
    vstd::utf8::encode_utf8_decode_utf8(text);
    if text.len() > 0 {
        let c = text[0];
        let v = c as u32;
        vstd::utf8::char_is_scalar(c);
        let b = vstd::utf8::encode_utf8(text);
        let first = vstd::utf8::encode_scalar(v);
        assert(b == first + vstd::utf8::encode_utf8(text.drop_first()));
        if vstd::utf8::has_width_1_encoding(v) {
            assert(((v & 0x7F) as u8) != 0xEFu8) by (bit_vector);
            assert(b[0] == first[0]);
        } else if vstd::utf8::has_width_2_encoding(v) {
            assert((0xC0u8 | ((v >> 6) & 0x1F) as u8) != 0xEFu8) by (bit_vector);
            assert(b[0] == first[0]);
        } else if vstd::utf8::has_width_3_encoding(v) {
            assert(b[0] == first[0] && b[1] == first[1] && b[2] == first[2]);
            assert(v != 0xFEFFu32) by {
                assert(c != '\u{FEFF}');
                vstd::utf8::char_u32_cast(c, v);
            }
            assert(v <= 0xFFFF && v != 0xFEFF ==> !((0xE0u8 | ((v >> 12) & 0x0F) as u8) == 0xEFu8 && (0x80u8 | ((v
                >> 6) & 0x3F) as u8) == 0xBBu8 && (0x80u8 | (v & 0x3F) as u8) == 0xBFu8)) by (bit_vector);
        } else {
            assert((0xF0u8 | ((v >> 18) & 0x7) as u8) != 0xEFu8) by (bit_vector);
            assert(b[0] == first[0]);
        }
    }
}

} // verus!
