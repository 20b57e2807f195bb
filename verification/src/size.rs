use vstd::prelude::*;
use vstd::arithmetic::power2::{pow2, lemma2_to64, lemma_pow2_unfold};
use crate::text::{decimal, digit_char, u64_decimal, append_str, push_char};

verus! {

pub const KB: u64 = 1024;
pub const MB: u64 = 1024 * KB;
pub const GB: u64 = 1024 * MB;

/// 2^53: the integers below it are exactly representable as `f64`.
pub open spec fn f64_exact_limit() -> nat {
    0x20_0000_0000_0000
}

/// The least `k >= e` with `b / 2^k < 2^53`: how far `b` must be shifted to fit an `f64` mantissa.
pub open spec fn mantissa_shift(b: nat, e: nat) -> nat
    decreases 64 - e,
{
    if e >= 64 || b / pow2(e) < f64_exact_limit() {
        e
    } else {
        mantissa_shift(b, e + 1)
    }
}

/// `x / u` rounded to the nearest integer, ties to the even one.
pub open spec fn div_round_even(x: nat, u: nat) -> nat {
    let q = x / u;
    let r = x % u;
    if 2 * r > u || (2 * r == u && q % 2 == 1) {
        q + 1
    } else {
        q
    }
}

/// The value of `b as f64` for an unsigned integer `b < 2^64`: `b` rounded to
/// 53 significant bits, ties to even.
pub open spec fn as_f64(b: nat) -> nat {
    let e = mantissa_shift(b, 0);
    let p = pow2(e);
    div_round_even(b, p) * p
}

/// `b as f64 / unit as f64` written with `places` decimals (`{:.N}` rounds the exact
/// binary value to the nearest, ties to even), as the count of hundredths, tenths or units.
pub open spec fn scaled_units(b: nat, unit: nat, places: nat) -> nat {
    let m: nat = if places == 0 { 1 } else if places == 1 { 10 } else { 100 };
    div_round_even(as_f64(b) * m, unit)
}

/// A fixed-point numeral with 0, 1 or 2 decimals, given as a count of units of the last place.
pub open spec fn fixed_point(n: nat, places: nat) -> Seq<char> {
    if places == 0 {
        decimal(n)
    } else if places == 1 {
        decimal(n / 10).push('.').push(digit_char(n % 10))
    } else {
        decimal(n / 100).push('.').push(digit_char((n % 100) / 10)).push(digit_char(n % 10))
    }
}

/// Human-readable size in binary units: `{:.2} GB`, `{:.1} MB`, `{:.0} KB` or `{} B`.
pub open spec fn format_bytes_spec(b: nat) -> Seq<char> {
    if b >= GB {
        fixed_point(scaled_units(b, GB as nat, 2), 2) + " GB"@
    } else if b >= MB {
        fixed_point(scaled_units(b, MB as nat, 1), 1) + " MB"@
    } else if b >= KB {
        fixed_point(scaled_units(b, KB as nat, 0), 0) + " KB"@
    } else {
        decimal(b) + " B"@
    }
}

proof fn lemma_shift_fixed(b: nat, e: nat)
    requires
        e < 64,
        b / pow2(e) >= f64_exact_limit(),
    ensures
        mantissa_shift(b, e) == mantissa_shift(b, e + 1),
{
}

/// The value of `b as f64` (an integer, since `b` is), computed exactly.
pub fn f64_value(b: u64) -> (r: u128)
    ensures
        r == as_f64(b as nat),
        r <= 0x1_0000_0000_0000_0000,
{
    let bb: u128 = b as u128;
    let limit: u128 = 0x20_0000_0000_0000;
    let mut e: u32 = 0;
    let mut p: u128 = 1;
    proof {
        lemma2_to64();
    }
    while bb / p >= limit
        invariant
            bb == b as u128,
            limit == f64_exact_limit(),
            e <= 11,
            1 <= p <= 2048,
            p == pow2(e as nat),
            mantissa_shift(b as nat, 0) == mantissa_shift(b as nat, e as nat),
        decreases 11 - e,
    {
        proof {
            lemma2_to64();
            if e == 11 {
                assert(p == 2048);
                assert(bb < 0x1_0000_0000_0000_0000);
                assert(bb / 2048 < 0x20_0000_0000_0000) by (nonlinear_arith)
                    requires bb < 0x1_0000_0000_0000_0000;
            }
            lemma_shift_fixed(b as nat, e as nat);
            lemma_pow2_unfold((e + 1) as nat);
        }
        e = e + 1;
        p = p * 2;
    }
    proof {
        assert(mantissa_shift(b as nat, e as nat) == e);
    }
    let q = bb / p;
    let r = bb % p;
    let q2 = if 2 * r > p || (2 * r == p && q % 2 == 1) { q + 1 } else { q };
    proof {
        assert(q <= bb);
        assert(q2 * p <= 0x1_0000_0000_0000_0000) by (nonlinear_arith)
            requires
                q == bb / p,
                p >= 1,
                bb < 0x1_0000_0000_0000_0000,
                q2 <= q + 1,
                p <= 2048,
                q < 0x20_0000_0000_0000 || p == 1,
        ;
    }
    q2 * p
}

/// `x / u` rounded to the nearest integer, ties to even.
fn div_round_even_exec(x: u128, u: u128) -> (r: u128)
    requires
        0 < u < 0x1_0000_0000_0000_0000,
        x < 0x1_0000_0000_0000_0000_0000_0000,
    ensures
        r == div_round_even(x as nat, u as nat),
{
    let q = x / u;
    let r = x % u;
    if 2 * r > u || (2 * r == u && q % 2 == 1) {
        q + 1
    } else {
        q
    }
}

/// Writes `n` units of the last place with `places` decimals.
fn push_fixed_point(out: &mut String, n: u64, places: u64)
    requires
        places <= 2,
    ensures
        final(out)@ == old(out)@ + fixed_point(n as nat, places as nat),
{
    if places == 0 {
        let s = u64_decimal(n);
        append_str(out, s.as_str());
    } else if places == 1 {
        let s = u64_decimal(n / 10);
        append_str(out, s.as_str());
        push_char(out, '.');
        push_char(out, digit(n % 10));
    } else {
        let s = u64_decimal(n / 100);
        append_str(out, s.as_str());
        push_char(out, '.');
        push_char(out, digit((n % 100) / 10));
        push_char(out, digit(n % 10));
    }
}

fn digit(d: u64) -> (c: char)
    requires
        d < 10,
    ensures
        c == digit_char(d as nat),
{
    if d == 0 { '0' } else if d == 1 { '1' } else if d == 2 { '2' } else if d == 3 { '3' }
    else if d == 4 { '4' } else if d == 5 { '5' } else if d == 6 { '6' } else if d == 7 { '7' }
    else if d == 8 { '8' } else { '9' }
}

/// Formats raw bytes into human-readable binary units.
pub fn format_bytes(bytes: u64) -> (r: String)
    ensures
        r@ == format_bytes_spec(bytes as nat),
{
    let mut out = String::new();
    if bytes >= GB {
        let v = f64_value(bytes);
        let n = div_round_even_exec(v * 100, GB as u128);
        proof {
            let x: int = v * 100;
            assert(x / 0x4000_0000int <= 0x1_0000_0000_0000_0000int * 100 / 0x4000_0000int) by (nonlinear_arith)
                requires x == v * 100, v <= 0x1_0000_0000_0000_0000int;
            assert(n <= x / 0x4000_0000int + 1);
        }
        push_fixed_point(&mut out, n as u64, 2);
        append_str(&mut out, " GB");
    } else if bytes >= MB {
        let v = f64_value(bytes);
        let n = div_round_even_exec(v * 10, MB as u128);
        proof {
            let x: int = v * 10;
            assert(x / 0x10_0000int <= 0x1_0000_0000_0000_0000int * 10 / 0x10_0000int) by (nonlinear_arith)
                requires x == v * 10, v <= 0x1_0000_0000_0000_0000int;
            assert(n <= x / 0x10_0000int + 1);
        }
        push_fixed_point(&mut out, n as u64, 1);
        append_str(&mut out, " MB");
    } else if bytes >= KB {
        let v = f64_value(bytes);
        let n = div_round_even_exec(v, KB as u128);
        proof {
            let x: int = v as int;
            assert(x / 0x400int <= 0x1_0000_0000_0000_0000int / 0x400int) by (nonlinear_arith)
                requires x == v, v <= 0x1_0000_0000_0000_0000int;
            assert(n <= x / 0x400int + 1);
        }
        push_fixed_point(&mut out, n as u64, 0);
        append_str(&mut out, " KB");
    } else {
        let s = u64_decimal(bytes);
        append_str(&mut out, s.as_str());
        append_str(&mut out, " B");
    }
    out
}

} // verus!
