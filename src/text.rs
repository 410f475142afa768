//! Decimal rendering of numbers and joining of lines, stated over `Seq<char>`.
use vstd::prelude::*;

verus! {

/// The character of a decimal digit `d` (`d < 10`).
pub open spec fn digit_char(d: nat) -> char {
    if d == 0 {
        '0'
    } else if d == 1 {
        '1'
    } else if d == 2 {
        '2'
    } else if d == 3 {
        '3'
    } else if d == 4 {
        '4'
    } else if d == 5 {
        '5'
    } else if d == 6 {
        '6'
    } else if d == 7 {
        '7'
    } else if d == 8 {
        '8'
    } else {
        '9'
    }
}

/// The usual decimal writing of `n`: no sign, no leading zeros, "0" for zero.
pub open spec fn decimal(n: nat) -> Seq<char>
    decreases n,
{
    if n < 10 {
        seq![digit_char(n)]
    } else {
        decimal(n / 10).push(digit_char(n % 10))
    }
}

/// Parts per whole in a ratio held as an integer (millionths).
pub const RATIO_SCALE: u32 = 1_000_000;

/// The last `k` decimal digits of `f`, leading zeros included.
pub open spec fn padded(f: nat, k: nat) -> Seq<char>
    decreases k,
{
    if k == 0 {
        Seq::empty()
    } else {
        padded(f / 10, (k - 1) as nat).push(digit_char(f % 10))
    }
}

/// The last `k` decimal digits of `f` with the trailing zeros dropped.
pub open spec fn trimmed(f: nat, k: nat) -> Seq<char>
    decreases k,
{
    if k == 0 {
        Seq::empty()
    } else if f % 10 == 0 {
        trimmed(f / 10, (k - 1) as nat)
    } else {
        padded(f, k)
    }
}

/// A ratio given in millionths, written as a shortest decimal fraction:
/// `50000` is "0.05", `1000000` is "1", `0` is "0".
pub open spec fn ratio(m: nat) -> Seq<char> {
    let whole = m / (RATIO_SCALE as nat);
    let frac = m % (RATIO_SCALE as nat);
    if frac == 0 {
        decimal(whole)
    } else {
        decimal(whole) + "."@ + trimmed(frac, 6)
    }
}

/// Lines joined by a single newline between neighbours (none after the last).
pub open spec fn joined(lines: Seq<Seq<char>>) -> Seq<char>
    decreases lines.len(),
{
    if lines.len() == 0 {
        Seq::empty()
    } else if lines.len() == 1 {
        lines[0]
    } else {
        joined(lines.drop_last()) + "\n"@ + lines.last()
    }
}

/// Adding a line to a joined text puts a newline before it, unless it is the first.
pub proof fn lemma_joined_push(lines: Seq<Seq<char>>, line: Seq<char>)
    ensures
        joined(lines.push(line)) == if lines.len() == 0 {
            line
        } else {
            joined(lines) + "\n"@ + line
        },
{
    assert(lines.push(line).drop_last() =~= lines);
    if lines.len() == 0 {
        assert(lines.push(line)[0] == line);
    }
}

/// Every decimal writing has at least one digit.
pub proof fn lemma_decimal_nonempty(n: nat)
    ensures
        decimal(n).len() >= 1,
        n >= 10 ==> decimal(n).len() >= 2,
    decreases n,
{
    if n >= 10 {
        lemma_decimal_nonempty(n / 10);
    }
}

/// Distinct numbers have distinct decimal writings, so a number can be read
/// back from its writing.
pub proof fn lemma_decimal_injective(m: nat, n: nat)
    ensures
        decimal(m) == decimal(n) ==> m == n,
    decreases m,
{
    if decimal(m) == decimal(n) {
        lemma_decimal_nonempty(m);
        lemma_decimal_nonempty(n);
        if m >= 10 && n >= 10 {
            let a = decimal(m / 10);
            let b = decimal(n / 10);
            assert(a.push(digit_char(m % 10)).last() == b.push(digit_char(n % 10)).last());
            assert(a.push(digit_char(m % 10)).drop_last() =~= a);
            assert(b.push(digit_char(n % 10)).drop_last() =~= b);
            lemma_decimal_injective(m / 10, n / 10);
        } else if m < 10 && n < 10 {
            assert(decimal(m)[0] == decimal(n)[0]);
        }
    }
}

/// The joined text of the first `k` lines starts the joined text of all of
/// them: lines keep their order.
pub proof fn lemma_joined_prefix(lines: Seq<Seq<char>>, k: int)
    requires
        0 <= k <= lines.len(),
    ensures
        joined(lines.take(k)).len() <= joined(lines).len(),
        joined(lines).take(joined(lines.take(k)).len() as int) == joined(lines.take(k)),
    decreases lines.len(),
{
    if k == lines.len() {
        assert(lines.take(k) =~= lines);
        assert(joined(lines).take(joined(lines).len() as int) =~= joined(lines));
    } else {
        let init = lines.drop_last();
        assert(init.take(k) =~= lines.take(k));
        assert(init.push(lines.last()) =~= lines);
        lemma_joined_push(init, lines.last());
        lemma_joined_prefix(init, k);
        let p = joined(lines.take(k));
        assert(joined(lines).take(p.len() as int) =~= joined(init).take(p.len() as int));
    }
}

/// The one-character text of a decimal digit.
fn digit_str(d: u128) -> (r: &'static str)
    requires
        d < 10,
    ensures
        r@ == seq![digit_char(d as nat)],
{
    proof {
        reveal_strlit("0");
        reveal_strlit("1");
        reveal_strlit("2");
        reveal_strlit("3");
        reveal_strlit("4");
        reveal_strlit("5");
        reveal_strlit("6");
        reveal_strlit("7");
        reveal_strlit("8");
        reveal_strlit("9");
    }
    if d == 0 {
        "0"
    } else if d == 1 {
        "1"
    } else if d == 2 {
        "2"
    } else if d == 3 {
        "3"
    } else if d == 4 {
        "4"
    } else if d == 5 {
        "5"
    } else if d == 6 {
        "6"
    } else if d == 7 {
        "7"
    } else if d == 8 {
        "8"
    } else {
        "9"
    }
}

/// Appends the decimal writing of `n` to `out`.
pub fn push_decimal(out: &mut String, n: u128)
    ensures
        final(out)@ == old(out)@ + decimal(n as nat),
    decreases n,
{
    if n >= 10 {
        push_decimal(out, n / 10);
    }
    out.append(digit_str(n % 10));
    proof {
        if n >= 10 {
            assert(old(out)@ + decimal(n as nat) =~= old(out)@ + decimal((n / 10) as nat) + seq![
                digit_char((n % 10) as nat),
            ]);
        }
    }
}

fn push_padded(out: &mut String, f: u32, k: u32)
    ensures
        final(out)@ == old(out)@ + padded(f as nat, k as nat),
    decreases k,
{
    if k > 0 {
        push_padded(out, f / 10, k - 1);
        out.append(digit_str((f % 10) as u128));
        proof {
            assert(old(out)@ + padded(f as nat, k as nat) =~= old(out)@ + padded(
                (f / 10) as nat,
                (k - 1) as nat,
            ) + seq![digit_char((f % 10) as nat)]);
        }
    } else {
        proof {
            assert(old(out)@ + padded(f as nat, k as nat) =~= old(out)@);
        }
    }
}

fn push_trimmed(out: &mut String, f: u32, k: u32)
    ensures
        final(out)@ == old(out)@ + trimmed(f as nat, k as nat),
    decreases k,
{
    if k == 0 {
        proof {
            assert(old(out)@ + trimmed(f as nat, k as nat) =~= old(out)@);
        }
    } else if f % 10 == 0 {
        push_trimmed(out, f / 10, k - 1);
    } else {
        push_padded(out, f, k);
    }
}

/// Appends the writing of a ratio given in millionths.
pub fn push_ratio(out: &mut String, m: u32)
    ensures
        final(out)@ == old(out)@ + ratio(m as nat),
{
    let whole = m / RATIO_SCALE;
    let frac = m % RATIO_SCALE;
    push_decimal(out, whole as u128);
    if frac != 0 {
        out.append(".");
        push_trimmed(out, frac, 6);
        proof {
            assert(out@ =~= old(out)@ + ratio(m as nat));
        }
    }
}

/// The decimal writing of `n` as a new string.
pub fn decimal_text(n: u128) -> (r: String)
    ensures
        r@ == decimal(n as nat),
{
    let mut s = String::new();
    push_decimal(&mut s, n);
    proof {
        assert(s@ =~= decimal(n as nat));
    }
    s
}

} // verus!
