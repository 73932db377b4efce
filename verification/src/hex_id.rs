//! The hex-encoded 32-bit identifier codec: `0x` followed by exactly eight
//! hexadecimal digits, big-endian, emitted lowercase. Decoding accepts
//! either letter case, as hexadecimal digit matching does.

use vstd::prelude::*;

verus! {

broadcast use {vstd::seq::group_seq_axioms, vstd::std_specs::vec::group_vec_axioms};

/// Whether `c` is a hexadecimal digit, of either case.
pub open spec fn is_hex_digit(c: char) -> bool {
    ('0' <= c && c <= '9') || ('a' <= c && c <= 'f') || ('A' <= c && c <= 'F')
}

/// The value of a hexadecimal digit.
pub open spec fn hex_digit_val(c: char) -> nat {
    if '0' <= c && c <= '9' {
        (c as nat - '0' as nat) as nat
    } else if 'a' <= c && c <= 'f' {
        (c as nat - 'a' as nat + 10) as nat
    } else {
        (c as nat - 'A' as nat + 10) as nat
    }
}

/// The lowercase digit of a value below sixteen.
pub open spec fn hex_char_lower(d: nat) -> char {
    if d == 0 {
        '0'
    } else if d == 1 {
        '1'
    } else if d == 2 {
        '2'
    } else if d == 3 {
        '3'
    } else if d == 4 {
        '4'
    } else if d == 5 {
        '5'
    } else if d == 6 {
        '6'
    } else if d == 7 {
        '7'
    } else if d == 8 {
        '8'
    } else if d == 9 {
        '9'
    } else if d == 10 {
        'a'
    } else if d == 11 {
        'b'
    } else if d == 12 {
        'c'
    } else if d == 13 {
        'd'
    } else if d == 14 {
        'e'
    } else {
        'f'
    }
}

/// The lowercase hexadecimal text of a byte sequence: two digits per byte,
/// high nibble first.
pub open spec fn hex_of_bytes(b: Seq<u8>) -> Seq<char>
    decreases b,
{
    if b.len() == 0 {
        Seq::empty()
    } else {
        hex_of_bytes(b.drop_last()) + seq![
            hex_char_lower((b.last() / 16) as nat),
            hex_char_lower((b.last() % 16) as nat),
        ]
    }
}

/// The bytes that a sequence of hexadecimal digits denotes, two digits per
/// byte.
pub open spec fn bytes_of_hex(s: Seq<char>) -> Seq<u8> {
    Seq::new((s.len() / 2) as nat, |i: int|
        (hex_digit_val(s[2 * i]) * 16 + hex_digit_val(s[2 * i + 1])) as u8)
}

/// The big-endian bytes of a 32-bit value.
pub open spec fn be_bytes(v: u32) -> Seq<u8> {
    seq![
        (v / 16777216) as u8,
        ((v / 65536) % 256) as u8,
        ((v / 256) % 256) as u8,
        (v % 256) as u8,
    ]
}

/// The 32-bit value of four big-endian bytes.
pub open spec fn u32_of_be(b: Seq<u8>) -> u32
    recommends
        b.len() == 4,
{
    (b[0] * 16777216 + b[1] * 65536 + b[2] * 256 + b[3]) as u32
}

/// The wire text of a 32-bit identifier.
pub open spec fn hex_id_text(v: u32) -> Seq<char> {
    seq!['0', 'x'] + hex_of_bytes(be_bytes(v))
}

/// The identifier a wire string denotes, if it has the `0x` prefix followed
/// by exactly eight hexadecimal digits.
pub open spec fn hex_id_of_text(s: Seq<char>) -> Option<u32> {
    if s.len() == 10 && s[0] == '0' && s[1] == 'x' && (forall|i: int|
        2 <= i < 10 ==> is_hex_digit(#[trigger] s[i])) {
        Some(u32_of_be(bytes_of_hex(s.subrange(2, 10))))
    } else {
        None
    }
}

/// Relies on hex::encode: the hexadecimal text of the bytes, two lowercase
/// digits per byte, high nibble first.
#[verifier::external_body]
fn hex_encode_bytes(b: &Vec<u8>) -> (r: String)
    ensures
        r@ == hex_of_bytes(b@),
{
    hex::encode(b)
}

/// Relies on hex::decode: succeeds exactly on an even number of
/// hexadecimal digits (either case), and yields one byte per digit pair,
/// high nibble first.
#[verifier::external_body]
fn hex_decode_str(s: &str) -> (r: Option<Vec<u8>>)
    ensures
        r is Some <==> (s@.len() % 2 == 0 && forall|i: int|
            0 <= i < s@.len() ==> is_hex_digit(#[trigger] s@[i])),
        r matches Some(v) ==> v@ == bytes_of_hex(s@),
{
    match hex::decode(s) {
        Ok(v) => Some(v),
        Err(_) => None,
    }
}

/// Encodes a 32-bit identifier as its wire text.
pub fn encode_u32(v: u32) -> (r: String)
    ensures
        r@ == hex_id_text(v),
{
    let mut bytes: Vec<u8> = Vec::new();
    bytes.push((v / 16777216) as u8);
    bytes.push(((v / 65536) % 256) as u8);
    bytes.push(((v / 256) % 256) as u8);
    bytes.push((v % 256) as u8);
    proof {
        assert(bytes@ =~= be_bytes(v));
    }
    let digits = hex_encode_bytes(&bytes);
    let mut r = "0x".to_owned();
    r.append(digits.as_str());
    proof {
        reveal_strlit("0x");
        assert(r@ =~= hex_id_text(v));
    }
    r
}

/// Decodes a wire string as a 32-bit identifier, if it has the `0x` prefix
/// followed by exactly eight hexadecimal digits.
pub fn decode_u32(s: &str) -> (r: Option<u32>)
    ensures
        r == hex_id_of_text(s@),
{
    let n = s.unicode_len();
    if n != 10 {
        return None;
    }
    if s.get_char(0) != '0' || s.get_char(1) != 'x' {
        return None;
    }
    let rest = s.substring_char(2, 10);
    match hex_decode_str(rest) {
        Some(bytes) => {
            proof {
                assert(rest@ =~= s@.subrange(2, 10));
                assert(bytes@.len() == 4);
                assert forall|i: int| 2 <= i < 10 implies is_hex_digit(#[trigger] s@[i]) by {
                    assert(rest@[i - 2] == s@[i]);
                }
            }
            let b0 = bytes[0];
            let b1 = bytes[1];
            let b2 = bytes[2];
            let b3 = bytes[3];
            let v: u32 = (b0 as u32) * 16777216 + (b1 as u32) * 65536 + (b2 as u32) * 256
                + (b3 as u32);
            Some(v)
        },
        None => {
            proof {
                if s@.len() == 10 && s@[0] == '0' && s@[1] == 'x' && (forall|i: int|
                    2 <= i < 10 ==> is_hex_digit(#[trigger] s@[i])) {
                    assert(rest@ =~= s@.subrange(2, 10));
                    assert(forall|i: int| 0 <= i < rest@.len() ==> is_hex_digit(#[trigger] rest@[i]));
                }
            }
            None
        },
    }
}

/// Law: the identifier codec round-trips; decoding the encoding of any
/// 32-bit value yields that value again.
pub proof fn lemma_hex_id_round_trip(v: u32)
    ensures
        hex_id_of_text(hex_id_text(v)) == Some(v),
{
    let b = be_bytes(v);
    let s = hex_id_text(v);
    let h = hex_of_bytes(b);
    assert(h =~= hex_of_bytes(b.drop_last()) + seq![
        hex_char_lower((b.last() / 16) as nat),
        hex_char_lower((b.last() % 16) as nat),
    ]);
    lemma_hex_of_bytes_unfold(b);
    assert(h.len() == 8);
    assert forall|i: int| 0 <= i < 8 implies is_hex_digit(#[trigger] h[i]) by {
        lemma_hex_of_bytes_digit(b, i);
    }
    assert forall|i: int| 2 <= i < 10 implies is_hex_digit(#[trigger] s[i]) by {
        assert(s[i] == h[i - 2]);
    }
    let rest = s.subrange(2, 10);
    assert(rest =~= h);
    let back = bytes_of_hex(h);
    assert forall|i: int| 0 <= i < 4 implies #[trigger] back[i] == b[i] by {
        lemma_hex_of_bytes_pair(b, i);
        lemma_digit_val_round(b[i]);
    }
    assert(back =~= b);
    assert(u32_of_be(b) == v) by {
        assert(b[0] == v / 16777216);
        assert(b[1] == (v / 65536) % 256);
        assert(b[2] == (v / 256) % 256);
        assert(b[3] == v % 256);
        assert(v / 16777216 * 16777216 + (v / 65536) % 256 * 65536 + (v / 256) % 256 * 256 + v
            % 256 == v) by (nonlinear_arith);
    }
}

/// The length of the hexadecimal text of a byte sequence.
proof fn lemma_hex_of_bytes_unfold(b: Seq<u8>)
    ensures
        hex_of_bytes(b).len() == 2 * b.len(),
    decreases b,
{
    if b.len() > 0 {
        lemma_hex_of_bytes_unfold(b.drop_last());
    }
}

/// Each character of the hexadecimal text of a byte sequence is a digit.
proof fn lemma_hex_of_bytes_digit(b: Seq<u8>, i: int)
    requires
        0 <= i < 2 * b.len(),
    ensures
        is_hex_digit(hex_of_bytes(b)[i]),
    decreases b,
{
    lemma_hex_of_bytes_unfold(b);
    if b.len() > 0 {
        lemma_hex_of_bytes_unfold(b.drop_last());
        if i < 2 * (b.len() - 1) {
            lemma_hex_of_bytes_digit(b.drop_last(), i);
        }
    }
}

/// The digit pair at position `i` of the hexadecimal text of a byte
/// sequence spells byte `i`.
proof fn lemma_hex_of_bytes_pair(b: Seq<u8>, i: int)
    requires
        0 <= i < b.len(),
    ensures
        hex_of_bytes(b)[2 * i] == hex_char_lower((b[i] / 16) as nat),
        hex_of_bytes(b)[2 * i + 1] == hex_char_lower((b[i] % 16) as nat),
    decreases b,
{
    lemma_hex_of_bytes_unfold(b);
    if b.len() > 0 {
        lemma_hex_of_bytes_unfold(b.drop_last());
        if i < b.len() - 1 {
            lemma_hex_of_bytes_pair(b.drop_last(), i);
        }
    }
}

/// Reading back the two lowercase digits of a byte yields the byte.
proof fn lemma_digit_val_round(x: u8)
    ensures
        hex_digit_val(hex_char_lower((x / 16) as nat)) == x / 16,
        hex_digit_val(hex_char_lower((x % 16) as nat)) == x % 16,
        hex_digit_val(hex_char_lower((x / 16) as nat)) * 16 + hex_digit_val(
            hex_char_lower((x % 16) as nat),
        ) == x,
{
}

} // verus!
