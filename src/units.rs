use vstd::prelude::*;
use vstd::string::StringExecFns;

verus! {

/// Decimal digit character for `d < 10`.
pub open spec fn digit_char(d: nat) -> char {
    if d == 0 {
        '0'
    } else if d == 1 {
        '1'
    } else if d == 2 {
        '2'
    } else if d == 3 {
        '3'
    } else if d == 4 {
        '4'
    } else if d == 5 {
        '5'
    } else if d == 6 {
        '6'
    } else if d == 7 {
        '7'
    } else if d == 8 {
        '8'
    } else {
        '9'
    }
}

/// Decimal representation of `n`, without leading zeros ("0" for zero).
pub open spec fn decimal(n: nat) -> Seq<char>
    decreases n,
{
    if n < 10 {
        seq![digit_char(n)]
    } else {
        decimal(n / 10).push(digit_char(n % 10))
    }
}

/// Exactly two decimal digits for `n < 100` ("05" for five).
pub open spec fn two_digits(n: nat) -> Seq<char> {
    seq![digit_char(n / 10), digit_char(n % 10)]
}

/// The size of one unit step: 1024 raised to `k`.
pub open spec fn unit_size(k: nat) -> nat
    decreases k,
{
    if k == 0 {
        1
    } else {
        1024 * unit_size((k - 1) as nat)
    }
}

/// The largest unit (bytes, KB, MB, GB, TB) whose size does not exceed `b`.
pub open spec fn unit_index(b: nat) -> nat {
    if b >= unit_size(4) {
        4
    } else if b >= unit_size(3) {
        3
    } else if b >= unit_size(2) {
        2
    } else if b >= unit_size(1) {
        1
    } else {
        0
    }
}

pub open spec fn unit_name(k: nat) -> Seq<char> {
    if k == 0 {
        "B"@
    } else if k == 1 {
        "KB"@
    } else if k == 2 {
        "MB"@
    } else if k == 3 {
        "GB"@
    } else {
        "TB"@
    }
}

/// `num / den` rounded to the nearest integer, ties to the even neighbour.
pub open spec fn round_half_even(num: nat, den: nat) -> nat
    recommends
        den > 0,
{
    let q = num / den;
    let r = num % den;
    if 2 * r > den || (2 * r == den && q % 2 == 1) {
        q + 1
    } else {
        q
    }
}

/// `b` expressed in hundredths of unit `k`, rounded.
pub open spec fn hundredths(b: nat, k: nat) -> nat {
    round_half_even(b * 100, unit_size(k))
}

/// Human-readable text for a byte count: whole bytes below 1 KB, otherwise
/// the value in the largest fitting unit with two decimals.
pub open spec fn human_bytes_text(b: nat) -> Seq<char> {
    let k = unit_index(b);
    if k == 0 {
        decimal(b) + " B"@
    } else {
        let h = hundredths(b, k);
        decimal(h / 100) + "."@ + two_digits(h % 100) + " "@ + unit_name(k)
    }
}

fn digit_str(d: u64) -> (r: &'static str)
    requires
        d < 10,
    ensures
        r@ == seq![digit_char(d as nat)],
{
    proof {
        reveal_strlit("0");
        reveal_strlit("1");
        reveal_strlit("2");
        reveal_strlit("3");
        reveal_strlit("4");
        reveal_strlit("5");
        reveal_strlit("6");
        reveal_strlit("7");
        reveal_strlit("8");
        reveal_strlit("9");
    }
    if d == 0 {
        "0"
    } else if d == 1 {
        "1"
    } else if d == 2 {
        "2"
    } else if d == 3 {
        "3"
    } else if d == 4 {
        "4"
    } else if d == 5 {
        "5"
    } else if d == 6 {
        "6"
    } else if d == 7 {
        "7"
    } else if d == 8 {
        "8"
    } else {
        "9"
    }
}

fn push_decimal(s: &mut String, n: u64)
    ensures
        final(s)@ == old(s)@ + decimal(n as nat),
    decreases n,
{
    if n >= 10 {
        push_decimal(s, n / 10);
    }
    s.append(digit_str(n % 10));
    proof {
        assert(old(s)@ + decimal(n as nat) =~= old(s)@ + (if n < 10 { seq![] } else { decimal(
            (n / 10) as nat,
        ) }) + seq![digit_char((n % 10) as nat)]);
    }
}

fn unit_str(k: u64) -> (r: &'static str)
    ensures
        r@ == unit_name(k as nat),
{
    if k == 0 {
        "B"
    } else if k == 1 {
        "KB"
    } else if k == 2 {
        "MB"
    } else if k == 3 {
        "GB"
    } else {
        "TB"
    }
}

proof fn lemma_unit_sizes()
    ensures
        unit_size(0) == 1,
        unit_size(1) == 1024,
        unit_size(2) == 1048576,
        unit_size(3) == 1073741824,
        unit_size(4) == 1099511627776,
{
    reveal_with_fuel(unit_size, 5);
}

/// Formats a byte count for people: "512 B", "1.50 KB", "1.00 GB".
pub fn human_bytes(bytes: u64) -> (r: String)
    ensures
        r@ == human_bytes_text(bytes as nat),
{
    proof {
        lemma_unit_sizes();
    }
    let mut k: u64 = 0;
    let mut unit: u64 = 1;
    while k < 4 && bytes / unit >= 1024
        invariant
            k <= 4,
            unit as nat == unit_size(k as nat),
            unit_size(0) == 1,
            unit_size(1) == 1024,
            unit_size(2) == 1048576,
            unit_size(3) == 1073741824,
            unit_size(4) == 1099511627776,
            k > 0 ==> bytes >= unit,
            unit_index(bytes as nat) >= k,
        decreases 4 - k,
    {
        assert(bytes >= unit * 1024) by (nonlinear_arith)
            requires
                bytes / unit >= 1024,
                unit > 0,
        ;
        proof {
            assert(unit_size((k + 1) as nat) == 1024 * unit_size(k as nat));
        }
        unit = unit * 1024;
        k = k + 1;
    }
    assert(unit_index(bytes as nat) == k) by {
        if k < 4 {
            assert(bytes < unit * 1024) by (nonlinear_arith)
                requires
                    bytes / unit < 1024,
                    unit > 0,
            ;
            assert(unit_size((k + 1) as nat) == 1024 * unit_size(k as nat));
        }
    }
    let mut s = String::new();
    if k == 0 {
        push_decimal(&mut s, bytes);
        proof {
            reveal_strlit(" B");
        }
        s.append(" B");
        proof {
            assert(s@ =~= human_bytes_text(bytes as nat));
        }
    } else {
        let num: u128 = (bytes as u128) * 100;
        let den: u128 = unit as u128;
        let q: u128 = num / den;
        let rem: u128 = num % den;
        let h: u128 = if 2 * rem > den || (2 * rem == den && q % 2 == 1) {
            q + 1
        } else {
            q
        };
        assert(h as nat == hundredths(bytes as nat, k as nat));
        assert(h <= 1844674407370955162000) by (nonlinear_arith)
            requires
                q == num / den,
                den >= 1,
                num <= 1844674407370955161500,
                h <= q + 1,
        ;
        let whole: u64 = (h / 100) as u64;
        let frac: u64 = (h % 100) as u64;
        push_decimal(&mut s, whole);
        s.append(".");
        s.append(digit_str(frac / 10));
        s.append(digit_str(frac % 10));
        s.append(" ");
        s.append(unit_str(k));
        proof {
            assert(s@ =~= human_bytes_text(bytes as nat));
        }
    }
    s
}

} // verus!
