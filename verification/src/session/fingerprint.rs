//! Server-side fingerprints of stable request attributes.

use vstd::prelude::*;
use vstd::utf8::encode_utf8;
use sha2::Digest;
use crate::text::push_char;

verus! {

broadcast use vstd::string::group_string_axioms;

/// What SHA-256 computes for `data`.
pub uninterp spec fn sha256_spec(data: Seq<u8>) -> Seq<u8>;

/// Calls `Sha256::digest` of the `sha2` crate. Claimed: the digest is the
/// name `sha256_spec` applied to `data`, and it is 32 bytes long (the
/// output size of SHA-256).
#[verifier::external_body]
fn sha256(data: &[u8]) -> (r: Vec<u8>)
    ensures
        r@ == sha256_spec(data@),
        r@.len() == 32,
{
    sha2::Sha256::digest(data).to_vec()
}

/// The bytes that are hashed: the three attributes in UTF-8, separated by
/// NUL bytes.
pub open spec fn fingerprint_input(ua: Seq<char>, lang: Seq<char>, enc: Seq<char>) -> Seq<u8> {
    encode_utf8(ua) + seq![0u8] + encode_utf8(lang) + seq![0u8] + encode_utf8(enc)
}

/// A lowercase hexadecimal digit.
pub open spec fn hex_digit(d: nat) -> char {
    if d < 10 {
        (48 + d) as char
    } else {
        (87 + d) as char
    }
}

/// Two lowercase hexadecimal digits per byte, as `{:02x}` writes them.
pub open spec fn hex_lower(bytes: Seq<u8>) -> Seq<char>
    decreases bytes.len(),
{
    if bytes.len() == 0 {
        Seq::<char>::empty()
    } else {
        hex_lower(bytes.drop_last()) + seq![
            hex_digit((bytes.last() / 16) as nat),
            hex_digit((bytes.last() % 16) as nat),
        ]
    }
}

/// The fingerprint of three request attributes.
pub open spec fn fingerprint_of(ua: Seq<char>, lang: Seq<char>, enc: Seq<char>) -> Seq<char> {
    hex_lower(sha256_spec(fingerprint_input(ua, lang, enc)))
}

/// A hex encoding holds two characters per byte.
pub proof fn lemma_hex_len(bytes: Seq<u8>)
    ensures
        hex_lower(bytes).len() == 2 * bytes.len(),
    decreases bytes.len(),
{
    if bytes.len() > 0 {
        lemma_hex_len(bytes.drop_last());
    }
}

/// The value of a lowercase hexadecimal digit; -1 for any other character.
pub open spec fn hex_value(c: char) -> int {
    if '0' <= c <= '9' {
        c as int - '0' as int
    } else if 'a' <= c <= 'f' {
        c as int - 'a' as int + 10
    } else {
        -1
    }
}

proof fn lemma_hex_digit_value(d: nat)
    requires
        d < 16,
    ensures
        hex_value(hex_digit(d)) == d,
{
    if d < 10 {
        assert(hex_digit(d) as int == 48 + d);
    } else {
        assert(hex_digit(d) as int == 87 + d);
    }
}

/// Reading a hex encoding back: the two characters written for byte `i`
/// are lowercase hexadecimal digits, high half first, that spell the byte.
pub proof fn lemma_hex_spells_bytes(bytes: Seq<u8>)
    ensures
        hex_lower(bytes).len() == 2 * bytes.len(),
        forall|i: int|
            0 <= i < bytes.len() ==> hex_value(#[trigger] hex_lower(bytes)[2 * i]) * 16 + hex_value(
                hex_lower(bytes)[2 * i + 1],
            ) == bytes[i] && hex_value(hex_lower(bytes)[2 * i]) >= 0 && hex_value(
                hex_lower(bytes)[2 * i + 1],
            ) >= 0,
    decreases bytes.len(),
{
    lemma_hex_len(bytes);
    if bytes.len() > 0 {
        let init = bytes.drop_last();
        lemma_hex_spells_bytes(init);
        let b = bytes.last();
        lemma_hex_digit_value((b / 16) as nat);
        lemma_hex_digit_value((b % 16) as nat);
        let h = hex_lower(bytes);
        let front = hex_lower(init);
        assert(h == front + seq![hex_digit((b / 16) as nat), hex_digit((b % 16) as nat)]);
        assert forall|i: int| 0 <= i < bytes.len() implies hex_value(#[trigger] h[2 * i]) * 16
            + hex_value(h[2 * i + 1]) == bytes[i] && hex_value(h[2 * i]) >= 0 && hex_value(
            h[2 * i + 1],
        ) >= 0 by {
            if i < init.len() {
                assert(h[2 * i] == front[2 * i]);
                assert(h[2 * i + 1] == front[2 * i + 1]);
                assert(init[i] == bytes[i]);
            } else {
                assert(i == init.len());
                assert(h[2 * i] == hex_digit((b / 16) as nat));
                assert(h[2 * i + 1] == hex_digit((b % 16) as nat));
                assert(b == (b / 16) * 16 + b % 16);
            }
        }
    }
}

fn hex_char(d: u8) -> (r: char)
    requires
        d < 16,
    ensures
        r == hex_digit(d as nat),
{
    if d < 10 {
        (48u8 + d) as char
    } else {
        (87u8 + d) as char
    }
}

fn append_bytes(out: &mut Vec<u8>, b: &[u8])
    ensures
        final(out)@ == old(out)@ + b@,
{
    let ghost start = out@;
    let mut i: usize = 0;
    while i < b.len()
        invariant
            i <= b@.len(),
            out@ == start + b@.take(i as int),
        decreases b@.len() - i,
    {
        out.push(b[i]);
        assert(b@.take(i + 1) =~= b@.take(i as int).push(b@[i as int]));
        i = i + 1;
    }
    assert(b@.take(b@.len() as int) =~= b@);
}

/// Compute a server-side fingerprint from stable request attributes: the
/// lowercase hex SHA-256 of the three values with NUL separators.
pub fn compute_fingerprint(user_agent: &str, accept_language: &str, accept_encoding: &str) -> (r:
    String)
    ensures
        r@ == fingerprint_of(user_agent@, accept_language@, accept_encoding@),
        r@.len() == 64,
        forall|i: int| 0 <= i < r@.len() ==> is_hex_lower(#[trigger] r@[i]),
{
    let mut input: Vec<u8> = Vec::new();
    append_bytes(&mut input, user_agent.as_bytes());
    input.push(0u8);
    append_bytes(&mut input, accept_language.as_bytes());
    input.push(0u8);
    append_bytes(&mut input, accept_encoding.as_bytes());
    assert(input@ =~= fingerprint_input(user_agent@, accept_language@, accept_encoding@));
    let digest = sha256(input.as_slice());
    proof {
        lemma_hex_len(digest@);
    }
    hex_encode(digest.as_slice())
}

/// A lowercase hexadecimal character.
pub open spec fn is_hex_lower(c: char) -> bool {
    ('0' <= c && c <= '9') || ('a' <= c && c <= 'f')
}

/// Two lowercase hexadecimal digits per byte of `bytes`.
pub fn hex_encode(bytes: &[u8]) -> (r: String)
    ensures
        r@ == hex_lower(bytes@),
        forall|i: int| 0 <= i < r@.len() ==> is_hex_lower(#[trigger] r@[i]),
{
    let mut s = String::new();
    let mut i: usize = 0;
    while i < bytes.len()
        invariant
            i <= bytes@.len(),
            s@ == hex_lower(bytes@.take(i as int)),
            forall|k: int| 0 <= k < s@.len() ==> is_hex_lower(#[trigger] s@[k]),
        decreases bytes@.len() - i,
    {
        let b = bytes[i];
        push_char(&mut s, hex_char(b / 16));
        push_char(&mut s, hex_char(b % 16));
        assert(bytes@.take(i + 1).drop_last() =~= bytes@.take(i as int));
        i = i + 1;
    }
    assert(bytes@.take(bytes@.len() as int) =~= bytes@);
    s
}

/// A character sequence with no NUL character.
pub open spec fn no_nul(s: Seq<char>) -> bool {
    forall|i: int| 0 <= i < s.len() ==> s[i] != '\0'
}

/// UTF-8 encoding distributes over concatenation.
pub proof fn lemma_encode_concat(x: Seq<char>, y: Seq<char>)
    ensures
        encode_utf8(x + y) == encode_utf8(x) + encode_utf8(y),
    decreases x.len(),
{
    if x.len() == 0 {
        assert(x + y =~= y);
        assert(encode_utf8(x) =~= Seq::<u8>::empty());
        assert(encode_utf8(x) + encode_utf8(y) =~= encode_utf8(y));
    } else {
        lemma_encode_concat(x.drop_first(), y);
        assert((x + y).drop_first() =~= x.drop_first() + y);
        assert((x + y)[0] == x[0]);
        assert(encode_utf8(x + y) =~= encode_scalar_of(x[0]) + (encode_utf8(x.drop_first())
            + encode_utf8(y)));
    }
}

/// The UTF-8 encoding of one character.
pub open spec fn encode_scalar_of(c: char) -> Seq<u8> {
    vstd::utf8::encode_scalar(c as u32)
}

/// The NUL character encodes as the single byte 0.
pub proof fn lemma_encode_nul()
    ensures
        encode_utf8(seq!['\0']) == seq![0u8],
{
    let s = seq!['\0'];
    let z: u32 = s[0] as u32;
    assert(z == 0);
    assert(vstd::utf8::leading_byte_width_1(z) == 0u8) by (bit_vector)
        requires
            z == 0,
    ;
    assert(vstd::utf8::encode_scalar(z) =~= seq![0u8]);
    assert(s.drop_first() =~= Seq::<char>::empty());
    assert(encode_utf8(s.drop_first()) =~= Seq::<u8>::empty());
    assert(encode_utf8(s) == vstd::utf8::encode_scalar(z) + encode_utf8(s.drop_first()));
    assert(encode_utf8(s) =~= seq![0u8]);
}

/// Two sequences joined by a NUL separator split back uniquely when the
/// left parts hold no NUL.
pub proof fn lemma_split_at_nul(x: Seq<char>, y: Seq<char>, x2: Seq<char>, y2: Seq<char>)
    requires
        no_nul(x),
        no_nul(x2),
        x + seq!['\0'] + y == x2 + seq!['\0'] + y2,
    ensures
        x == x2,
        y == y2,
{
    let l = x + seq!['\0'] + y;
    let r = x2 + seq!['\0'] + y2;
    if x.len() < x2.len() {
        assert(l[x.len() as int] == '\0');
        assert(r[x.len() as int] == x2[x.len() as int]);
    } else if x2.len() < x.len() {
        assert(r[x2.len() as int] == '\0');
        assert(l[x2.len() as int] == x[x2.len() as int]);
    }
    assert(x =~= l.take(x.len() as int));
    assert(x2 =~= r.take(x2.len() as int));
    assert(y =~= l.skip(x.len() as int + 1));
    assert(y2 =~= r.skip(x2.len() as int + 1));
}

/// The hashed input determines the three attributes, provided that none of
/// them holds a NUL character: the separators prevent collisions such as
/// ("ab", "cd", "ef") against ("abc", "de", "f").
pub proof fn lemma_fingerprint_input_injective(
    ua: Seq<char>,
    lang: Seq<char>,
    enc: Seq<char>,
    ua2: Seq<char>,
    lang2: Seq<char>,
    enc2: Seq<char>,
)
    requires
        no_nul(ua),
        no_nul(lang),
        no_nul(ua2),
        no_nul(lang2),
        fingerprint_input(ua, lang, enc) == fingerprint_input(ua2, lang2, enc2),
    ensures
        ua == ua2,
        lang == lang2,
        enc == enc2,
{
    let z = seq!['\0'];
    let c1 = ua + z + (lang + z + enc);
    let c2 = ua2 + z + (lang2 + z + enc2);
    lemma_encode_nul();
    lemma_encode_concat(lang, z);
    lemma_encode_concat(lang + z, enc);
    lemma_encode_concat(ua, z);
    lemma_encode_concat(ua + z, lang + z + enc);
    lemma_encode_concat(lang2, z);
    lemma_encode_concat(lang2 + z, enc2);
    lemma_encode_concat(ua2, z);
    lemma_encode_concat(ua2 + z, lang2 + z + enc2);
    assert(encode_utf8(c1) =~= fingerprint_input(ua, lang, enc));
    assert(encode_utf8(c2) =~= fingerprint_input(ua2, lang2, enc2));
    vstd::utf8::encode_utf8_decode_utf8(c1);
    vstd::utf8::encode_utf8_decode_utf8(c2);
    assert(c1 == c2);
    lemma_split_at_nul(ua, lang + z + enc, ua2, lang2 + z + enc2);
    lemma_split_at_nul(lang, enc, lang2, enc2);
}

} // verus!
