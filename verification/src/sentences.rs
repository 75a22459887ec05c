//! Building blocks for the extcap sentences: the `key={value}` text lines
//! that declare interfaces, configs and toolbar controls on standard output.
//!
//! Sentences are built as byte strings, piece by piece, so that every
//! formatter can state the exact bytes it produces.

use vstd::prelude::*;

verus! {

use vstd::string::StringSliceAdditionalSpecFns;

/// The decimal digits of `n`, most significant first, as ASCII bytes.
pub open spec fn dec_bytes(n: int) -> Seq<u8>
    recommends
        n >= 0,
    decreases n,
{
    if n < 10 {
        seq![(48 + n) as u8]
    } else {
        dec_bytes(n / 10) + seq![(48 + n % 10) as u8]
    }
}

/// The decimal rendering of a possibly negative number: a minus sign
/// followed by the digits of its magnitude.
pub open spec fn dec_bytes_signed(n: int) -> Seq<u8> {
    if n < 0 {
        seq![45u8] + dec_bytes(-n)
    } else {
        dec_bytes(n)
    }
}

/// The rendering of a boolean: the bytes of `true` or `false`.
pub open spec fn bool_bytes(b: bool) -> Seq<u8> {
    if b {
        "true".spec_bytes()
    } else {
        "false".spec_bytes()
    }
}

/// Appends the bytes of a literal piece of a sentence.
pub fn push_literal(out: &mut Vec<u8>, piece: &str)
    ensures
        final(out)@ == old(out)@ + piece.spec_bytes(),
{
    out.extend_from_slice(piece.as_bytes());
}

/// Appends the bytes of a field value.
pub fn push_string(out: &mut Vec<u8>, value: &String)
    ensures
        final(out)@ == old(out)@ + vstd::utf8::encode_utf8(value@),
{
    out.extend_from_slice(value.as_str().as_bytes());
}

/// Appends the decimal digits of `n`.
pub fn push_u64_dec(out: &mut Vec<u8>, n: u64)
    ensures
        final(out)@ == old(out)@ + dec_bytes(n as int),
    decreases n,
{
    if n < 10 {
        out.push(48 + (n as u8));
    } else {
        push_u64_dec(out, n / 10);
        out.push(48 + ((n % 10) as u8));
    }
}

/// Appends the decimal digits of a byte-sized number.
pub fn push_u8_dec(out: &mut Vec<u8>, n: u8)
    ensures
        final(out)@ == old(out)@ + dec_bytes(n as int),
{
    push_u64_dec(out, n as u64);
}

/// Appends the decimal digits of a 32-bit number.
pub fn push_u32_dec(out: &mut Vec<u8>, n: u32)
    ensures
        final(out)@ == old(out)@ + dec_bytes(n as int),
{
    push_u64_dec(out, n as u64);
}

/// Appends the decimal rendering of a signed number, minus sign included.
pub fn push_i64_dec(out: &mut Vec<u8>, n: i64)
    ensures
        final(out)@ == old(out)@ + dec_bytes_signed(n as int),
{
    if n >= 0 {
        push_u64_dec(out, n as u64);
    } else {
        out.push(45);
        let magnitude: u64 = if n == i64::MIN {
            0x8000_0000_0000_0000u64
        } else {
            (-n) as u64
        };
        push_u64_dec(out, magnitude);
    }
}

/// Appends the decimal rendering of a signed 32-bit number.
pub fn push_i32_dec(out: &mut Vec<u8>, n: i32)
    ensures
        final(out)@ == old(out)@ + dec_bytes_signed(n as int),
{
    push_i64_dec(out, n as i64);
}

/// An optional `{key=value}` field of a sentence: the opening-brace-and-key
/// piece, the value and the closing brace when the value is present, and
/// nothing when it is absent.
pub open spec fn opt_string_field(key: &str, value: Option<String>) -> Seq<u8> {
    match value {
        Some(present) => key.spec_bytes() + vstd::utf8::encode_utf8(present@)
            + "}".spec_bytes(),
        None => Seq::<u8>::empty(),
    }
}

/// Appends an optional `{key=value}` field: nothing when the value is
/// absent.
pub fn push_opt_string_field(out: &mut Vec<u8>, key: &str, value: &Option<String>)
    ensures
        final(out)@ == old(out)@ + opt_string_field(key, *value),
{
    if let Some(present) = value {
        push_literal(out, key);
        push_string(out, present);
        push_literal(out, "}");
    }
}

/// Appends `true` or `false`.
pub fn push_bool(out: &mut Vec<u8>, b: bool)
    ensures
        final(out)@ == old(out)@ + bool_bytes(b),
{
    if b {
        push_literal(out, "true");
    } else {
        push_literal(out, "false");
    }
}

} // verus!
