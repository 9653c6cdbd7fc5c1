use vstd::prelude::*;
use vstd::string::*;
use vstd::utf8::*;

verus! {

/// Bytes that are percent-encoded inside one path segment: controls,
/// non-ASCII, and the characters that would end or split a segment.
pub open spec fn in_segment_set(b: u8) -> bool {
    b < 0x20 || b > 0x7e || b == 0x20 || b == 0x22 || b == 0x23 || b == 0x3c || b == 0x3e
        || b == 0x60 || b == 0x3f || b == 0x7b || b == 0x7d || b == 0x25 || b == 0x2f
}

/// Upper-case hexadecimal digit of a value below sixteen.
pub open spec fn hex_digit(d: u8) -> char {
    if d < 10 {
        (0x30u8 + d) as char
    } else {
        (0x37u8 + d) as char
    }
}

/// Percent-encoding of one byte within a path segment.
pub open spec fn encoded_byte(b: u8) -> Seq<char> {
    if in_segment_set(b) {
        seq!['%', hex_digit(b / 16), hex_digit(b % 16)]
    } else {
        seq![b as char]
    }
}

/// Percent-encoding of a byte string as one path segment.
pub open spec fn encoded(bs: Seq<u8>) -> Seq<char>
    decreases bs.len(),
{
    if bs.len() == 0 {
        Seq::empty()
    } else {
        encoded_byte(bs[0]) + encoded(bs.drop_first())
    }
}

/// Value of a hexadecimal digit, either case.
pub open spec fn hex_value(c: char) -> Option<u8> {
    if '0' <= c && c <= '9' {
        Some((c as u8 - 0x30) as u8)
    } else if 'A' <= c && c <= 'F' {
        Some((c as u8 - 0x37) as u8)
    } else if 'a' <= c && c <= 'f' {
        Some((c as u8 - 0x57) as u8)
    } else {
        None
    }
}

/// How a server percent-decodes a path segment back into bytes.
pub open spec fn decoded(s: Seq<char>) -> Seq<u8>
    decreases s.len(),
{
    if s.len() == 0 {
        Seq::empty()
    } else if s[0] == '%' && s.len() >= 3 && hex_value(s[1]) is Some && hex_value(s[2]) is Some {
        seq![(hex_value(s[1])->0 * 16 + hex_value(s[2])->0) as u8] + decoded(s.skip(3))
    } else {
        seq![s[0] as u8] + decoded(s.drop_first())
    }
}

/// Decoding the encoding of any byte string gives the bytes back.
pub proof fn lemma_segment_round_trip(bs: Seq<u8>)
    ensures
        decoded(encoded(bs)) == bs,
    decreases bs.len(),
{
    if bs.len() > 0 {
        let b = bs[0];
        let rest = bs.drop_first();
        lemma_segment_round_trip(rest);
        let e = encoded(bs);
        assert(e == encoded_byte(b) + encoded(rest));
        if in_segment_set(b) {
            assert(b / 16 * 16 + b % 16 == b) by (nonlinear_arith);
            assert(e.skip(3) =~= encoded(rest));
        } else {
            assert(e.drop_first() =~= encoded(rest));
        }
        assert(decoded(e) =~= bs);
    }
}

/// Characters that would end a path segment or start a query or fragment.
pub open spec fn is_delimiter(c: char) -> bool {
    c == '/' || c == '?' || c == '#' || c == ' '
}

/// An encoded segment holds no delimiter.
pub proof fn lemma_encoded_has_no_delimiter(bs: Seq<u8>)
    ensures
        forall|i: int| 0 <= i < encoded(bs).len() ==> !is_delimiter(#[trigger] encoded(bs)[i]),
    decreases bs.len(),
{
    if bs.len() > 0 {
        lemma_encoded_has_no_delimiter(bs.drop_first());
        let b = bs[0];
        assert(b / 16 < 16 && b % 16 < 16);
        let head = encoded_byte(b);
        assert(forall|i: int| 0 <= i < head.len() ==> !is_delimiter(#[trigger] head[i]));
        assert(encoded(bs) == head + encoded(bs.drop_first()));
    }
}

/// Relies on url's `percent_encode` with `PATH_SEGMENT_ENCODE_SET`: each byte
/// of the set becomes `%` and two upper-case hex digits, every other byte
/// stands for itself.
#[verifier::external_body]
fn encode_segment(b: &[u8]) -> (r: String)
    ensures
        r@ == encoded(b@),
{
    url::percent_encoding::percent_encode(b, url::percent_encoding::PATH_SEGMENT_ENCODE_SET).to_string()
}

/// The decimal digit character of the last digit of `d`.
pub open spec fn decimal_digit(d: nat) -> char {
    (0x30 + d % 10) as char
}

/// Decimal notation of a natural number, without leading zeros.
pub open spec fn decimal(n: nat) -> Seq<char>
    decreases n,
{
    if n < 10 {
        seq![decimal_digit(n)]
    } else {
        decimal(n / 10) + seq![decimal_digit(n % 10)]
    }
}

/// Relies on std's `Display` for `usize`: plain decimal digits.
#[verifier::external_body]
fn decimal_string(n: usize) -> (r: String)
    ensures
        r@ == decimal(n as nat),
{
    n.to_string()
}

/// The encoded form of a container identifier.
pub open spec fn id_segment(id: Seq<char>) -> Seq<char> {
    encoded(encode_utf8(id))
}

/// Request paths, as character sequences.
pub open spec fn info_path_spec() -> Seq<char> {
    "/info"@
}

pub open spec fn inspect_path_spec(id: Seq<char>) -> Seq<char> {
    "/containers/"@ + id_segment(id) + "/json"@
}

pub open spec fn attach_path_spec(id: Seq<char>) -> Seq<char> {
    "/containers/"@ + id_segment(id) + "/attach?stream=1&stdin=1&stdout=1&stderr=1"@
}

pub open spec fn resize_path_spec(id: Seq<char>, width: nat, height: nat) -> Seq<char> {
    "/containers/"@ + id_segment(id) + "/resize?w="@ + decimal(width) + "&h="@ + decimal(height)
}

/// Path of the engine-wide information endpoint.
pub fn info_path() -> (r: String)
    ensures
        r@ == info_path_spec(),
{
    String::from_str("/info")
}

/// Path of the container inspection endpoint for `id`.
pub fn inspect_path(id: &str) -> (r: String)
    ensures
        r@ == inspect_path_spec(id@),
{
    let mut r = String::from_str("/containers/");
    let seg = encode_segment(id.as_bytes());
    r.append(seg.as_str());
    r.append("/json");
    r
}

/// Path of the interactive attach endpoint for `id`, with all three
/// standard streams and input enabled.
pub fn attach_path(id: &str) -> (r: String)
    ensures
        r@ == attach_path_spec(id@),
{
    let mut r = String::from_str("/containers/");
    let seg = encode_segment(id.as_bytes());
    r.append(seg.as_str());
    r.append("/attach?stream=1&stdin=1&stdout=1&stderr=1");
    r
}

/// Path of the console resize endpoint for `id`, carrying the size.
pub fn resize_path(id: &str, width: usize, height: usize) -> (r: String)
    ensures
        r@ == resize_path_spec(id@, width as nat, height as nat),
{
    let mut r = String::from_str("/containers/");
    let seg = encode_segment(id.as_bytes());
    r.append(seg.as_str());
    r.append("/resize?w=");
    let w = decimal_string(width);
    r.append(w.as_str());
    r.append("&h=");
    let h = decimal_string(height);
    r.append(h.as_str());
    r
}

} // verus!
