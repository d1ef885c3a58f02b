//! Rendering of numbers and literal text into byte buffers.
use vstd::prelude::*;
use vstd::string::StringSliceAdditionalSpecFns;

verus! {

/// The lowercase ASCII hexadecimal digit of `d` (`d < 16`).
pub open spec fn hex_digit(d: nat) -> u8 {
    if d < 10 {
        (48 + d) as u8
    } else {
        (87 + d) as u8
    }
}

/// The ASCII decimal digit of `d` (`d < 10`).
pub open spec fn dec_digit(d: nat) -> u8 {
    (48 + d) as u8
}

/// The last `width` hexadecimal digits of `n`, most significant first, zero-padded.
pub open spec fn hex_fixed(n: nat, width: nat) -> Seq<u8>
    decreases width,
{
    if width == 0 {
        seq![]
    } else {
        hex_fixed(n / 16, (width - 1) as nat).push(hex_digit(n % 16))
    }
}

/// The hexadecimal digits of `n` without leading zeros (`0` is a single digit).
pub open spec fn hex_min(n: nat) -> Seq<u8>
    decreases n,
{
    if n < 16 {
        seq![hex_digit(n)]
    } else {
        hex_min(n / 16).push(hex_digit(n % 16))
    }
}

/// `n` in hexadecimal with a `0x` prefix, as Rust's `{:#x}` writes it.
pub open spec fn hex_prefixed(n: nat) -> Seq<u8> {
    seq![48u8, 120u8] + hex_min(n)
}

/// The decimal digits of `n` without leading zeros.
pub open spec fn dec_min(n: nat) -> Seq<u8>
    decreases n,
{
    if n < 10 {
        seq![dec_digit(n)]
    } else {
        dec_min(n / 10).push(dec_digit(n % 10))
    }
}

/// `n` in decimal, zero-padded to at least two digits, as Rust's `{:02}` writes it.
pub open spec fn dec_pad2(n: nat) -> Seq<u8> {
    if n < 10 {
        seq![48u8, dec_digit(n)]
    } else {
        dec_min(n)
    }
}

fn hex_digit_byte(d: u64) -> (r: u8)
    requires
        d < 16,
    ensures
        r == hex_digit(d as nat),
{
    if d < 10 {
        (48 + d) as u8
    } else {
        (87 + d) as u8
    }
}

/// Appends the bytes of `s` to `out`.
pub fn append_str(out: &mut Vec<u8>, s: &str)
    ensures
        final(out)@ == old(out)@ + s.spec_bytes(),
{
    let b = s.as_bytes();
    let mut i: usize = 0;
    while i < b.len()
        invariant
            i <= b@.len(),
            b@ == s.spec_bytes(),
            out@ == old(out)@ + b@.subrange(0, i as int),
        decreases b@.len() - i,
    {
        out.push(b[i]);
        i += 1;
        assert(out@ =~= old(out)@ + b@.subrange(0, i as int));
    }
    assert(b@.subrange(0, i as int) =~= b@);
}

/// Appends all of `bytes` to `out`.
pub fn append_bytes(out: &mut Vec<u8>, bytes: &[u8])
    ensures
        final(out)@ == old(out)@ + bytes@,
{
    let mut i: usize = 0;
    while i < bytes.len()
        invariant
            i <= bytes@.len(),
            out@ == old(out)@ + bytes@.subrange(0, i as int),
        decreases bytes@.len() - i,
    {
        out.push(bytes[i]);
        i += 1;
        assert(out@ =~= old(out)@ + bytes@.subrange(0, i as int));
    }
    assert(bytes@.subrange(0, i as int) =~= bytes@);
}

/// Appends the last `width` hexadecimal digits of `n`, zero-padded.
pub fn append_hex_fixed(out: &mut Vec<u8>, n: u64, width: usize)
    ensures
        final(out)@ == old(out)@ + hex_fixed(n as nat, width as nat),
    decreases width,
{
    if width > 0 {
        append_hex_fixed(out, n / 16, width - 1);
        out.push(hex_digit_byte(n % 16));
        assert(out@ =~= old(out)@ + hex_fixed(n as nat, width as nat));
    } else {
        assert(out@ =~= old(out)@ + hex_fixed(n as nat, width as nat));
    }
}

fn append_hex_min(out: &mut Vec<u8>, n: u64)
    ensures
        final(out)@ == old(out)@ + hex_min(n as nat),
    decreases n,
{
    if n >= 16 {
        append_hex_min(out, n / 16);
    }
    out.push(hex_digit_byte(n % 16));
    assert(out@ =~= old(out)@ + hex_min(n as nat));
}

/// Appends `n` in hexadecimal with a `0x` prefix.
pub fn append_hex_prefixed(out: &mut Vec<u8>, n: u64)
    ensures
        final(out)@ == old(out)@ + hex_prefixed(n as nat),
{
    out.push(48u8);
    out.push(120u8);
    append_hex_min(out, n);
    assert(out@ =~= old(out)@ + hex_prefixed(n as nat));
}

fn append_dec_min(out: &mut Vec<u8>, n: u64)
    ensures
        final(out)@ == old(out)@ + dec_min(n as nat),
    decreases n,
{
    if n >= 10 {
        append_dec_min(out, n / 10);
    }
    out.push((48 + n % 10) as u8);
    assert(out@ =~= old(out)@ + dec_min(n as nat));
}

/// Appends `n` in decimal, zero-padded to at least two digits.
pub fn append_dec_pad2(out: &mut Vec<u8>, n: u64)
    ensures
        final(out)@ == old(out)@ + dec_pad2(n as nat),
{
    if n < 10 {
        out.push(48u8);
        out.push((48 + n) as u8);
        assert(out@ =~= old(out)@ + dec_pad2(n as nat));
    } else {
        append_dec_min(out, n);
    }
}

} // verus!
