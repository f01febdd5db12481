//! Human-readable sizes, rates and durations.
use vstd::prelude::*;
use crate::text::{decimal, digit, digit_char, push_char, push_decimal};

verus! {

pub open spec fn two_pow(e: nat) -> nat
    decreases e,
{
    if e == 0 {
        1
    } else {
        2 * two_pow((e - 1) as nat)
    }
}

/// How many halvings bring `b` below 2^53, the width of an `f64` significand.
pub open spec fn excess_bits(b: nat) -> nat
    decreases b,
{
    if b < two_pow(53) || b == 0 {
        0
    } else {
        1 + excess_bits(b / 2)
    }
}

/// `n / d` rounded to the nearest integer, ties to the even one.
pub open spec fn div_round_even(n: nat, d: nat) -> nat {
    let q = n / d;
    let r = n % d;
    if 2 * r > d || (2 * r == d && q % 2 == 1) {
        q + 1
    } else {
        q
    }
}

/// The value of `b as f64`: `b` rounded to 53 significant bits, ties to even.
pub open spec fn u64_as_f64(b: nat) -> nat {
    let e = excess_bits(b);
    div_round_even(b, two_pow(e)) * two_pow(e)
}

pub open spec fn unit_size(k: nat) -> nat
    decreases k,
{
    if k == 0 {
        1
    } else {
        1024 * unit_size((k - 1) as nat)
    }
}

/// The unit that `format_bytes` settles on for the value `x`, starting from unit `k`:
/// it moves up while the value is at least 1024 of the current unit, up to TB.
pub open spec fn unit_index_from(x: nat, k: nat) -> nat
    decreases 4 - k,
{
    if k < 4 && x >= unit_size(k + 1) {
        unit_index_from(x, k + 1)
    } else {
        k
    }
}

pub open spec fn unit_name(k: nat) -> Seq<char> {
    if k == 0 {
        seq!['B']
    } else if k == 1 {
        seq!['K', 'B']
    } else if k == 2 {
        seq!['M', 'B']
    } else if k == 3 {
        seq!['G', 'B']
    } else {
        seq!['T', 'B']
    }
}

/// A count of hundredths written with two decimals: "12.34".
pub open spec fn two_decimals(h: nat) -> Seq<char> {
    decimal(h / 100) + seq!['.', digit_char((h % 100) / 10), digit_char(h % 10)]
}

/// What `format_bytes(b)` returns: the size in the largest fitting binary unit
/// (B, KB, MB, GB, TB), with two decimals as `{:.2}` prints the `f64` value.
pub open spec fn format_bytes_spec(b: nat) -> Seq<char> {
    let x = u64_as_f64(b);
    let k = unit_index_from(x, 0);
    two_decimals(div_round_even(x * 100, unit_size(k))) + seq![' '] + unit_name(k)
}

proof fn lemma_two_pow_pos(e: nat)
    ensures
        two_pow(e) >= 1,
    decreases e,
{
    if e > 0 {
        lemma_two_pow_pos((e - 1) as nat);
    }
}

proof fn lemma_two_pow_53()
    ensures
        two_pow(53) == 0x20000000000000,
{
    reveal_with_fuel(two_pow, 54);
}

proof fn lemma_unit_sizes()
    ensures
        unit_size(0) == 1,
        unit_size(1) == 1024,
        unit_size(2) == 1048576,
        unit_size(3) == 1073741824,
        unit_size(4) == 1099511627776,
{
    reveal_with_fuel(unit_size, 5);
}

/// Computes `b as f64` exactly, as an integer.
fn u64_to_f64_value(b: u64) -> (r: u128)
    ensures
        r == u64_as_f64(b as nat),
        r < 0x2_0000_0000_0000_0000u128,
{
    proof {
        lemma_two_pow_53();
    }
    let mut x: u64 = b;
    let mut p: u64 = 1;
    let ghost mut e: nat = 0;
    while x >= 0x20000000000000u64
        invariant
            p == two_pow(e),
            p >= 1,
            e == 0 || p % 2 == 0,
            x == b as nat / (p as nat),
            excess_bits(b as nat) == e + excess_bits(x as nat),
            two_pow(53) == 0x20000000000000,
            p == 1 || p as nat * 0x10000000000000 <= b as nat,
        decreases x,
    {
        proof {
            assert(excess_bits(x as nat) == 1 + excess_bits(x as nat / 2));
            vstd::arithmetic::div_mod::lemma_div_denominator(b as int, p as int, 2);
            vstd::arithmetic::div_mod::lemma_fundamental_div_mod(b as int, p as int);
            assert(x as nat * p as nat <= b as nat);
            assert(p as nat * 0x20000000000000 <= x as nat * p as nat) by (nonlinear_arith)
                requires
                    x as nat >= 0x20000000000000,
            ;
        }
        x = x / 2;
        p = p * 2;
        proof {
            e = e + 1;
        }
    }
    proof {
        vstd::arithmetic::div_mod::lemma_fundamental_div_mod(b as int, p as int);
        assert(excess_bits(x as nat) == 0);
        assert(p < 0x1000);
        assert(x as nat * p as nat <= b as nat);
    }
    let rem: u64 = b - x * p;
    let half: u64 = p / 2;
    let m: u64 = if rem > half || (rem == half && p > 1 && x % 2 == 1) {
        x + 1
    } else {
        x
    };
    proof {
        assert(rem as nat == b as nat % p as nat);
        assert(m as nat == div_round_even(b as nat, p as nat));
        assert((m as nat) * (p as nat) < 0x2_0000_0000_0000_0000) by (nonlinear_arith)
            requires
                m <= 0x20000000000000,
                p < 0x1000,
        ;
    }
    (m as u128) * (p as u128)
}

/// Formats a byte count in the largest binary unit it reaches (up to TB),
/// with two decimals: 1024 gives "1.00 KB".
pub fn format_bytes(bytes: u64) -> (r: String)
    ensures
        r@ == format_bytes_spec(bytes as nat),
{
    let x = u64_to_f64_value(bytes);
    proof {
        lemma_unit_sizes();
    }
    let mut k: u64 = 0;
    let mut d: u128 = 1;
    while k < 4 && x >= d * 1024
        invariant
            k <= 4,
            d == unit_size(k as nat),
            unit_size(4) == 1099511627776,
            unit_size(3) == 1073741824,
            unit_size(2) == 1048576,
            unit_size(1) == 1024,
            unit_size(0) == 1,
            unit_index_from(x as nat, 0) == unit_index_from(x as nat, k as nat),
            x < 0x2_0000_0000_0000_0000u128,
            k == 0 || x >= d,
        decreases 4 - k,
    {
        d = d * 1024;
        k = k + 1;
    }
    assert(unit_index_from(x as nat, k as nat) == k);
    let n: u128 = x * 100;
    let q0: u128 = n / d;
    let rr: u128 = n % d;
    let q: u128 = if 2 * rr > d || (2 * rr == d && q0 % 2 == 1) {
        q0 + 1
    } else {
        q0
    };
    assert(q == div_round_even(n as nat, d as nat));
    proof {
        assert(d >= 1);
        if k == 4 {
            assert(q0 <= n / 1099511627776);
            assert(n / 1099511627776 <= 0x2_0000_0000_0000_0000u128 * 100 / 1099511627776) by {
                vstd::arithmetic::div_mod::lemma_div_is_ordered(
                    n as int,
                    0x2_0000_0000_0000_0000int * 100,
                    1099511627776,
                );
            }
        } else {
            assert(x < d * 1024);
            assert(q0 <= n / d);
            assert(n / d < 102400) by {
                vstd::arithmetic::div_mod::lemma_div_by_multiple_is_strongly_ordered(
                    n as int,
                    (d * 102400) as int,
                    102400,
                    d as int,
                );
                vstd::arithmetic::div_mod::lemma_div_by_multiple(102400, d as int);
            }
        }
    }
    let int_part: u64 = (q / 100) as u64;
    let frac: u64 = (q % 100) as u64;
    let mut s = String::new();
    push_decimal(&mut s, int_part);
    push_char(&mut s, '.');
    push_char(&mut s, digit(frac / 10));
    push_char(&mut s, digit(frac % 10));
    push_char(&mut s, ' ');
    if k == 1 {
        push_char(&mut s, 'K');
    } else if k == 2 {
        push_char(&mut s, 'M');
    } else if k == 3 {
        push_char(&mut s, 'G');
    } else if k == 4 {
        push_char(&mut s, 'T');
    }
    push_char(&mut s, 'B');
    assert(s@ =~= format_bytes_spec(bytes as nat));
    s
}

/// What `format_duration` returns for a duration of `secs` whole seconds:
/// "1h 1m 1s", "2m 0s" or "59s", leaving out the leading zero parts.
pub open spec fn format_duration_spec(secs: nat) -> Seq<char> {
    let hours = secs / 3600;
    let minutes = (secs % 3600) / 60;
    let seconds = secs % 60;
    if hours > 0 {
        decimal(hours) + seq!['h', ' '] + decimal(minutes) + seq!['m', ' '] + decimal(seconds)
            + seq!['s']
    } else if minutes > 0 {
        decimal(minutes) + seq!['m', ' '] + decimal(seconds) + seq!['s']
    } else {
        decimal(seconds) + seq!['s']
    }
}

/// Formats a duration given in whole seconds.
pub fn format_duration(secs: u64) -> (r: String)
    ensures
        r@ == format_duration_spec(secs as nat),
{
    let hours = secs / 3600;
    let minutes = (secs % 3600) / 60;
    let seconds = secs % 60;
    let mut s = String::new();
    if hours > 0 {
        push_decimal(&mut s, hours);
        push_char(&mut s, 'h');
        push_char(&mut s, ' ');
    }
    if hours > 0 || minutes > 0 {
        push_decimal(&mut s, minutes);
        push_char(&mut s, 'm');
        push_char(&mut s, ' ');
    }
    push_decimal(&mut s, seconds);
    push_char(&mut s, 's');
    assert(s@ =~= format_duration_spec(secs as nat));
    s
}

} // verus!
