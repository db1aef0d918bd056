//! What the diagnostic console prints for numbers and flags. The UART
//! itself is driven by the caller.
use vstd::prelude::*;

verus! {

/// The ASCII hex digit of `d` (below 16), in lower or upper case.
pub open spec fn hex_char(d: nat, upper: bool) -> u8 {
    if d < 10 {
        (0x30 + d) as u8
    } else if upper {
        (0x41 + d - 10) as u8
    } else {
        (0x61 + d - 10) as u8
    }
}

/// The `n` low hex digits of `v`, most significant first.
pub open spec fn hex_digits(v: nat, n: nat, upper: bool) -> Seq<u8>
    decreases n,
{
    if n == 0 {
        Seq::empty()
    } else {
        hex_digits(v / 16, (n - 1) as nat, upper).push(hex_char(v % 16, upper))
    }
}

fn push_hex(out: &mut Vec<u8>, v: u64, n: usize, upper: bool)
    ensures
        final(out)@ == old(out)@ + hex_digits(v as nat, n as nat, upper),
    decreases n,
{
    if n == 0 {
        assert(old(out)@ + hex_digits(v as nat, 0, upper) =~= old(out)@);
        return;
    }
    push_hex(out, v / 16, n - 1, upper);
    let d = (v % 16) as u8;
    let c: u8 = if d < 10 {
        0x30 + d
    } else if upper {
        0x41 + d - 10
    } else {
        0x61 + d - 10
    };
    out.push(c);
    assert(final(out)@ =~= old(out)@ + hex_digits(v as nat, n as nat, upper));
}

/// The 16 lower-case hex digits of a 64-bit value.
pub fn print_hex64(value: u64) -> (r: Vec<u8>)
    ensures
        r@ == hex_digits(value as nat, 16, false),
{
    let mut out: Vec<u8> = Vec::new();
    push_hex(&mut out, value, 16, false);
    assert(out@ =~= hex_digits(value as nat, 16, false));
    out
}

/// The 16 lower-case hex digits of an address.
pub fn print_ptr(ptr: usize) -> (r: Vec<u8>)
    ensures
        r@ == hex_digits(ptr as nat, 16, false),
{
    print_hex64(ptr as u64)
}

/// The 4 upper-case hex digits of a 16-bit value.
pub fn print_hex16(value: u16) -> (r: Vec<u8>)
    ensures
        r@ == hex_digits(value as nat, 4, true),
{
    let mut out: Vec<u8> = Vec::new();
    push_hex(&mut out, value as u64, 4, true);
    assert(out@ =~= hex_digits(value as nat, 4, true));
    out
}

/// The 2 upper-case hex digits of a byte.
pub fn print_hex(byte: u8) -> (r: Vec<u8>)
    ensures
        r@ == hex_digits(byte as nat, 2, true),
{
    let mut out: Vec<u8> = Vec::new();
    push_hex(&mut out, byte as u64, 2, true);
    assert(out@ =~= hex_digits(byte as nat, 2, true));
    out
}

/// The 8 upper-case hex digits of a 32-bit value.
pub fn print_hex32(value: u32) -> (r: Vec<u8>)
    ensures
        r@ == hex_digits(value as nat, 8, true),
{
    let mut out: Vec<u8> = Vec::new();
    push_hex(&mut out, value as u64, 8, true);
    assert(out@ =~= hex_digits(value as nat, 8, true));
    out
}

/// The decimal digits of `n`, most significant first, without leading
/// zeros ("0" for zero).
pub open spec fn decimal_digits(n: nat) -> Seq<u8>
    decreases n,
{
    if n < 10 {
        seq![(0x30 + n) as u8]
    } else {
        decimal_digits(n / 10).push((0x30 + n % 10) as u8)
    }
}

fn push_decimal(out: &mut Vec<u8>, n: u64)
    ensures
        final(out)@ == old(out)@ + decimal_digits(n as nat),
    decreases n,
{
    if n < 10 {
        out.push(0x30 + n as u8);
        assert(final(out)@ =~= old(out)@ + decimal_digits(n as nat));
        return;
    }
    push_decimal(out, n / 10);
    out.push(0x30 + (n % 10) as u8);
    assert(final(out)@ =~= old(out)@ + decimal_digits(n as nat));
}

/// The decimal digits of a machine word.
pub fn print_decimal(num: usize) -> (r: Vec<u8>)
    ensures
        r@ == decimal_digits(num as nat),
{
    let mut out: Vec<u8> = Vec::new();
    push_decimal(&mut out, num as u64);
    assert(out@ =~= decimal_digits(num as nat));
    out
}

/// The decimal digits of a 32-bit value.
pub fn print_uint(num: u32) -> (r: Vec<u8>)
    ensures
        r@ == decimal_digits(num as nat),
{
    let mut out: Vec<u8> = Vec::new();
    push_decimal(&mut out, num as u64);
    assert(out@ =~= decimal_digits(num as nat));
    out
}

/// "true" or "false".
pub fn print_bool(b: bool) -> (r: &'static str)
    ensures
        r@ == (if b { "true"@ } else { "false"@ }),
{
    if b {
        "true"
    } else {
        "false"
    }
}

} // verus!
