//! Human readable file sizes (`1.5 MB`), computed exactly in integer
//! arithmetic with the same result as formatting the `f64` value.
use vstd::prelude::*;
use crate::text::{dec, digit_char, push_decimal, push_str};

verus! {

/// 2^53: below it every integer is an `f64`.
pub open spec fn two_53() -> nat {
    0x20_0000_0000_0000
}

/// `2^s`.
pub open spec fn p2(s: nat) -> nat
    decreases s,
{
    if s == 0 {
        1
    } else {
        2 * p2((s - 1) as nat)
    }
}

/// How many low bits of `n` do not fit in the 53-bit `f64` significand.
pub open spec fn excess_bits(n: nat) -> nat
    decreases n,
{
    if n < two_53() {
        0
    } else {
        1 + excess_bits(n / 2)
    }
}

/// `n / d` rounded to the nearest integer, ties to even.
pub open spec fn div_round_even(n: nat, d: nat) -> nat
    recommends
        d > 0,
{
    let q = n / d;
    let r = n % d;
    if 2 * r > d || (2 * r == d && q % 2 == 1) {
        q + 1
    } else {
        q
    }
}

/// The value of `n as f64`: `n` rounded to 53 significant bits, ties to
/// even.
pub open spec fn f64_value(n: nat) -> nat {
    if n < two_53() {
        n
    } else {
        let d = p2(excess_bits(n));
        div_round_even(n, d) * d
    }
}

/// `1024^k`.
pub open spec fn kib_pow(k: nat) -> nat
    decreases k,
{
    if k == 0 {
        1
    } else {
        1024 * kib_pow((k - 1) as nat)
    }
}

/// The unit `human_size` picks for a value `v`: the largest `k <= 4` with
/// `v >= 1024^k`.
pub open spec fn size_unit(v: nat) -> nat {
    if v >= kib_pow(4) {
        4
    } else if v >= kib_pow(3) {
        3
    } else if v >= kib_pow(2) {
        2
    } else if v >= kib_pow(1) {
        1
    } else {
        0
    }
}

/// The name of unit `k`.
pub open spec fn unit_name(k: nat) -> Seq<char> {
    if k == 0 {
        seq!['B']
    } else if k == 1 {
        seq!['K', 'B']
    } else if k == 2 {
        seq!['M', 'B']
    } else if k == 3 {
        seq!['G', 'B']
    } else {
        seq!['T', 'B']
    }
}

/// `size` as `human_size` writes it: `"{size} B"` below 1 KiB, otherwise
/// the value in the largest unit up to TB with one decimal, rounded half
/// to even as `format!("{:.1}")` rounds the `f64` value.
pub open spec fn human_size_spec(size: nat) -> Seq<char> {
    let v = f64_value(size);
    let k = size_unit(v);
    if k == 0 {
        dec(size) + seq![' ', 'B']
    } else {
        let tenths = div_round_even(v * 10, kib_pow(k));
        dec(tenths / 10) + seq!['.'] + seq![digit_char(tenths % 10)] + seq![' '] + unit_name(k)
    }
}

fn round_even(n: u128, d: u128) -> (r: u128)
    requires
        d > 0,
        d < 0x1_0000_0000_0000_0000_0000_0000,
        n < 0x1_0000_0000_0000_0000_0000_0000,
    ensures
        r == div_round_even(n as nat, d as nat),
        n as nat / d as nat <= r <= n as nat / d as nat + 1,
{
    let q = n / d;
    let r = n % d;
    if 2 * r > d || (2 * r == d && q % 2 == 1) {
        q + 1
    } else {
        q
    }
}

proof fn lemma_div_mul_le(n: int, d: int)
    requires
        n >= 0,
        d >= 1,
    ensures
        d * (n / d) <= n,
        (n / d) * d <= n,
        n % d < d,
        n / d >= 0,
{
    vstd::arithmetic::div_mod::lemma_fundamental_div_mod(n, d);
    vstd::arithmetic::div_mod::lemma_mod_bound(n, d);
    vstd::arithmetic::div_mod::lemma_div_pos_is_pos(n, d);
    vstd::arithmetic::mul::lemma_mul_is_commutative(d, n / d);
}

/// `n as f64`, as an exact integer.
fn f64_of(n: u64) -> (v: u128)
    ensures
        v == f64_value(n as nat),
        v < 0x4_0000_0000_0000_0000,
        n as nat >= two_53() ==> v >= 0x10_0000_0000_0000,
{
    let n = n as u128;
    if n < 0x20_0000_0000_0000 {
        return n;
    }
    let mut m: u128 = n;
    let mut d: u128 = 1;
    let ghost mut s: nat = 0;
    while m >= 0x20_0000_0000_0000
        invariant
            n < 0x1_0000_0000_0000_0000,
            d == p2(s),
            1 <= d,
            m == n / d,
            excess_bits(n as nat) == s + excess_bits(m as nat),
            d * m <= n,
            m >= 0x10_0000_0000_0000,
            d <= n,
        decreases m,
    {
        proof {
            let ni = n as int;
            let di = d as int;
            vstd::arithmetic::div_mod::lemma_div_denominator(ni, di, 2);
            assert(p2(s + 1) == 2 * p2(s));
            lemma_div_mul_le(ni, di * 2);
        }
        m = m / 2;
        d = d * 2;
        proof {
            s = s + 1;
            assert(d * m <= n);
            assert(d <= n) by (nonlinear_arith)
                requires
                    d * m <= n,
                    m >= 1;
        }
    }
    proof {
        lemma_div_mul_le(n as int, d as int);
    }
    let q = round_even(n, d);
    proof {
        assert(q <= m + 1);
        assert(q * d <= m * d + d) by (nonlinear_arith)
            requires
                q <= m + 1;
        assert(q * d >= m) by (nonlinear_arith)
            requires
                q >= m,
                d >= 1;
    }
    q * d
}

/// `size` in a human readable form, e.g. `512 B`, `1.5 KB`, `2.0 GB`.
pub fn human_size(size: u64) -> (r: String)
    ensures
        r@ == human_size_spec(size as nat),
{
    let v = f64_of(size);
    let unit: u128;
    let div: u128;
    let name: &str;
    if v >= 0x100_0000_0000 {
        unit = 4;
        div = 0x100_0000_0000;
        name = "TB";
    } else if v >= 0x4000_0000 {
        unit = 3;
        div = 0x4000_0000;
        name = "GB";
    } else if v >= 0x10_0000 {
        unit = 2;
        div = 0x10_0000;
        name = "MB";
    } else if v >= 0x400 {
        unit = 1;
        div = 0x400;
        name = "KB";
    } else {
        unit = 0;
        div = 1;
        name = "B";
    }
    proof {
        reveal_with_fuel(kib_pow, 5);
        reveal_strlit("TB");
        reveal_strlit("GB");
        reveal_strlit("MB");
        reveal_strlit("KB");
        reveal_strlit("B");
        assert(unit == size_unit(v as nat));
        assert(div == kib_pow(unit as nat));
        assert(name@ == unit_name(unit as nat));
    }
    let mut out = String::new();
    if unit == 0 {
        proof {
            assert(v == size) by {
                if size as nat >= two_53() {
                    assert(false);
                }
            }
        }
        push_decimal(&mut out, size as u128);
        out.push(' ');
        out.push('B');
        assert(out@ =~= human_size_spec(size as nat));
        return out;
    }
    let tenths = round_even(v * 10, div);
    push_decimal(&mut out, tenths / 10);
    out.push('.');
    push_decimal(&mut out, tenths % 10);
    out.push(' ');
    push_str(&mut out, name);
    proof {
        assert(dec((tenths % 10) as nat) == seq![digit_char((tenths % 10) as nat)]);
        assert(out@ =~= human_size_spec(size as nat));
    }
    out
}

} // verus!
