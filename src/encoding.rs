//! Percent-encoding of identifiers and form-encoding of query strings,
//! both done by the `url` crate.
use vstd::prelude::*;
use vstd::utf8::{encode_utf8, is_ascii_chars, is_ascii_chars_encode_utf8};

verus! {

/// A list of query parameters as pairs of names and values.
pub type Pairs = Seq<(Seq<char>, Seq<char>)>;

pub open spec fn pairs_view(p: Seq<(String, String)>) -> Pairs {
    p.map_values(|kv: (String, String)| (kv.0@, kv.1@))
}

/// The bytes in the path-segment encode set: controls, non-ASCII, and
/// `space " # < > ` ? { } % /`.
pub open spec fn in_path_segment_set(b: u8) -> bool {
    b < 0x20 || b > 0x7e || b == 0x20 || b == 0x22 || b == 0x23 || b == 0x3c || b == 0x3e
        || b == 0x60 || b == 0x3f || b == 0x7b || b == 0x7d || b == 0x25 || b == 0x2f
}

pub open spec fn hex_upper(d: u8) -> char {
    if d < 10 {
        ((d + 0x30) as u8) as char
    } else {
        ((d - 10 + 0x41) as u8) as char
    }
}

/// How one byte is written in a path segment: `%XX` for a byte of the set,
/// else the byte's own character.
pub open spec fn segment_byte(b: u8) -> Seq<char> {
    if in_path_segment_set(b) {
        seq!['%', hex_upper(b / 16), hex_upper(b % 16)]
    } else {
        seq![b as char]
    }
}

pub open spec fn segment_of_bytes(bs: Seq<u8>) -> Seq<char>
    decreases bs.len(),
{
    if bs.len() == 0 {
        seq![]
    } else {
        segment_byte(bs[0]) + segment_of_bytes(bs.skip(1))
    }
}

/// The percent-encoding of `s` as a path segment, byte by byte over its
/// UTF-8 form.
pub open spec fn path_segment_encoded(s: Seq<char>) -> Seq<char> {
    segment_of_bytes(encode_utf8(s))
}

pub open spec fn is_hex_digit(c: char) -> bool {
    ('0' <= c && c <= '9') || ('A' <= c && c <= 'F') || ('a' <= c && c <= 'f')
}

pub open spec fn hex_value(c: char) -> int {
    if c <= '9' {
        c as int - 0x30
    } else if c <= 'F' {
        c as int - 0x41 + 10
    } else {
        c as int - 0x61 + 10
    }
}

/// The bytes that percent-decoding a text gives: `%` and two hex digits
/// stand for one byte, every other character for its own code.
pub open spec fn percent_decoded(cs: Seq<char>) -> Seq<u8>
    decreases cs.len(),
{
    if cs.len() == 0 {
        seq![]
    } else if cs.len() >= 3 && cs[0] == '%' && is_hex_digit(cs[1]) && is_hex_digit(cs[2]) {
        seq![(hex_value(cs[1]) * 16 + hex_value(cs[2])) as u8] + percent_decoded(cs.skip(3))
    } else {
        seq![(cs[0] as u32) as u8] + percent_decoded(cs.skip(1))
    }
}

/// `e` is a single path segment that stands for `id`: it holds no `/`,
/// `?` or `#`, and percent-decoding it gives back the UTF-8 bytes of `id`.
pub open spec fn one_segment(e: Seq<char>, id: Seq<char>) -> bool {
    &&& !e.contains('/')
    &&& !e.contains('?')
    &&& !e.contains('#')
    &&& percent_decoded(e) == encode_utf8(id)
}

proof fn lemma_hex_upper(d: u8)
    requires
        d < 16,
    ensures
        is_hex_digit(hex_upper(d)),
        hex_value(hex_upper(d)) == d,
        hex_upper(d) != '/' && hex_upper(d) != '?' && hex_upper(d) != '#' && hex_upper(d) != '%',
{
}

proof fn lemma_segment_of_bytes(bs: Seq<u8>)
    ensures
        !segment_of_bytes(bs).contains('/'),
        !segment_of_bytes(bs).contains('?'),
        !segment_of_bytes(bs).contains('#'),
        percent_decoded(segment_of_bytes(bs)) == bs,
    decreases bs.len(),
{
    if bs.len() > 0 {
        let b = bs[0];
        let rest = segment_of_bytes(bs.skip(1));
        lemma_segment_of_bytes(bs.skip(1));
        let cs = segment_of_bytes(bs);
        assert(cs == segment_byte(b) + rest);
        if in_path_segment_set(b) {
            lemma_hex_upper(b / 16);
            lemma_hex_upper(b % 16);
            assert(cs.skip(3) =~= rest);
            assert((b / 16) as int * 16 + (b % 16) as int == b as int);
            assert forall|c: char| c == '/' || c == '?' || c == '#' implies !cs.contains(c) by {
                if cs.contains(c) {
                    let i = choose|i: int| 0 <= i < cs.len() && cs[i] == c;
                    if i >= 3 {
                        assert(rest[i - 3] == c);
                    }
                }
            }
        } else {
            assert(cs.skip(1) =~= rest);
            assert forall|c: char| c == '/' || c == '?' || c == '#' implies !cs.contains(c) by {
                if cs.contains(c) {
                    let i = choose|i: int| 0 <= i < cs.len() && cs[i] == c;
                    if i >= 1 {
                        assert(rest[i - 1] == c);
                    }
                }
            }
        }
        assert(percent_decoded(cs) =~= bs);
    }
}

/// Encoding an identifier as a path segment gives one segment that decodes
/// back to the identifier.
pub proof fn lemma_path_segment(id: Seq<char>)
    ensures
        one_segment(path_segment_encoded(id), id),
{
    lemma_segment_of_bytes(encode_utf8(id));
}

/// Relies on url::percent_encoding::utf8_percent_encode with
/// PATH_SEGMENT_ENCODE_SET: each UTF-8 byte of the set, every non-ASCII byte
/// among them, becomes `%XX` with upper-case hex digits; other bytes stay.
#[verifier::external_body]
pub(crate) fn encode_path_segment(s: &str) -> (r: String)
    ensures
        r@ == path_segment_encoded(s@),
{
    url::percent_encoding::utf8_percent_encode(s, url::percent_encoding::PATH_SEGMENT_ENCODE_SET)
        .to_string()
}

/// The characters that form-encoding leaves as they are.
pub open spec fn form_unchanged(c: char) -> bool {
    c == '*' || c == '-' || c == '.' || c == '_' || ('0' <= c && c <= '9') || ('A' <= c && c
        <= 'Z') || ('a' <= c && c <= 'z')
}

pub open spec fn form_plain(s: Seq<char>) -> bool {
    forall|i: int| 0 <= i < s.len() ==> form_unchanged(#[trigger] s[i])
}

/// Pairs whose names are non-empty and whose names and values need no escaping.
pub open spec fn plain_pairs(p: Pairs) -> bool {
    forall|i: int|
        0 <= i < p.len() ==> (#[trigger] p[i]).0.len() > 0 && form_plain(p[i].0) && form_plain(
            p[i].1,
        )
}

/// `name=value` pairs joined by `&`, written as they are.
pub open spec fn joined_pairs(p: Pairs) -> Seq<char>
    decreases p.len(),
{
    if p.len() == 0 {
        seq![]
    } else if p.len() == 1 {
        p[0].0 + seq!['='] + p[0].1
    } else {
        joined_pairs(p.drop_last()) + seq!['&'] + p.last().0 + seq!['='] + p.last().1
    }
}

/// The bytes that form-encoding writes as they are: `*-._`, digits and
/// ASCII letters.
pub open spec fn form_unchanged_byte(b: u8) -> bool {
    b == 0x2a || b == 0x2d || b == 0x2e || b == 0x5f || (0x30 <= b && b <= 0x39) || (0x41 <= b
        && b <= 0x5a) || (0x61 <= b && b <= 0x7a)
}

/// How one byte is form-encoded: as itself, a space as `+`, else `%XX`.
pub open spec fn form_byte(b: u8) -> Seq<char> {
    if form_unchanged_byte(b) {
        seq![b as char]
    } else if b == 0x20 {
        seq!['+']
    } else {
        seq!['%', hex_upper(b / 16), hex_upper(b % 16)]
    }
}

pub open spec fn form_bytes(bs: Seq<u8>) -> Seq<char>
    decreases bs.len(),
{
    if bs.len() == 0 {
        seq![]
    } else {
        form_byte(bs[0]) + form_bytes(bs.skip(1))
    }
}

/// The form-encoding of a text, byte by byte over its UTF-8 form.
pub open spec fn form_text(s: Seq<char>) -> Seq<char> {
    form_bytes(encode_utf8(s))
}

/// The `application/x-www-form-urlencoded` serialization of a list of
/// pairs: each pair as `name=value`, joined by `&`.
pub open spec fn form_encoded(p: Pairs) -> Seq<char>
    decreases p.len(),
{
    if p.len() == 0 {
        seq![]
    } else if p.len() == 1 {
        form_text(p[0].0) + seq!['='] + form_text(p[0].1)
    } else {
        form_encoded(p.drop_last()) + seq!['&'] + form_text(p.last().0) + seq!['='] + form_text(
            p.last().1,
        )
    }
}

proof fn lemma_form_bytes_plain(bs: Seq<u8>, s: Seq<char>)
    requires
        bs.len() == s.len(),
        form_plain(s),
        forall|i: int| 0 <= i < s.len() ==> s[i] as u8 == #[trigger] bs[i],
    ensures
        form_bytes(bs) == s,
    decreases bs.len(),
{
    if bs.len() > 0 {
        assert(form_unchanged(s[0]));
        lemma_form_bytes_plain(bs.skip(1), s.skip(1));
        assert(form_bytes(bs) =~= s);
    }
}

proof fn lemma_form_text_plain(s: Seq<char>)
    requires
        form_plain(s),
    ensures
        form_text(s) == s,
{
    assert(is_ascii_chars(s)) by {
        assert forall|i: int| 0 <= i < s.len() implies '\0' <= #[trigger] s[i] <= '\u{7f}' by {
            assert(form_unchanged(s[i]));
        }
    }
    is_ascii_chars_encode_utf8(s);
    let bs = encode_utf8(s);
    assert forall|i: int| 0 <= i < s.len() implies s[i] as u8 == #[trigger] bs[i] by {
        assert(s[i] as u8 == encode_utf8(s)[i]);
    }
    lemma_form_bytes_plain(bs, s);
}

/// Pairs that need no escaping are form-encoded as they are written.
pub proof fn lemma_form_encoded_plain(p: Pairs)
    requires
        plain_pairs(p),
    ensures
        form_encoded(p) == joined_pairs(p),
    decreases p.len(),
{
    if p.len() > 0 {
        assert(plain_pairs(p.drop_last()));
        let l = p[p.len() - 1];
        assert(form_plain(l.0) && form_plain(l.1));
        lemma_form_text_plain(l.0);
        lemma_form_text_plain(l.1);
        if p.len() > 1 {
            lemma_form_encoded_plain(p.drop_last());
        }
    }
}

/// Relies on url::form_urlencoded::Serializer (extend_pairs, finish): pairs
/// are written `name=value` and joined by `&`, in order; each UTF-8 byte of
/// a name or value is written as itself if it is among `*-._`, digits and
/// ASCII letters, as `+` if it is a space, else as `%XX`.
#[verifier::external_body]
pub(crate) fn form_encode(pairs: &Vec<(String, String)>) -> (r: String)
    ensures
        r@ == form_encoded(pairs_view(pairs@)),
{
    url::form_urlencoded::Serializer::new(String::new()).extend_pairs(pairs.iter()).finish()
}

/// The pairs that parsing an `application/x-www-form-urlencoded` text gives.
pub uninterp spec fn form_decoded(s: Seq<char>) -> Pairs;

/// Relies on url::form_urlencoded::parse: the text is split on `&`, empty
/// pieces are skipped, each piece is split at its first `=`, and names and
/// values are decoded (`+` and `%XX`). So the serialization of any list of
/// pairs reads back as that list.
#[verifier::external_body]
pub(crate) fn form_decode(s: &str) -> (r: Vec<(String, String)>)
    ensures
        pairs_view(r@) == form_decoded(s@),
        forall|p: Pairs| s@ == #[trigger] form_encoded(p) ==> pairs_view(r@) == p,
{
    url::form_urlencoded::parse(s.as_bytes())
        .map(|(k, v)| (k.into_owned(), v.into_owned()))
        .collect()
}

} // verus!
