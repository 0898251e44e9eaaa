use vstd::prelude::*;

verus! {

/// The character of a decimal digit.
pub open spec fn digit_char(d: nat) -> char {
    if d == 0 { '0' }
    else if d == 1 { '1' }
    else if d == 2 { '2' }
    else if d == 3 { '3' }
    else if d == 4 { '4' }
    else if d == 5 { '5' }
    else if d == 6 { '6' }
    else if d == 7 { '7' }
    else if d == 8 { '8' }
    else { '9' }
}

/// Decimal digits of a natural number, most significant first, no leading zeros.
pub open spec fn decimal_nat(n: nat) -> Seq<char>
    decreases n,
{
    if n < 10 {
        seq![digit_char(n)]
    } else {
        decimal_nat(n / 10) + seq![digit_char(n % 10)]
    }
}

/// Decimal text of an integer, with a leading '-' when it is negative.
pub open spec fn decimal_int(x: int) -> Seq<char> {
    if x < 0 {
        seq!['-'] + decimal_nat((-x) as nat)
    } else {
        decimal_nat(x as nat)
    }
}

fn digit_text(d: u64) -> (r: &'static str)
    requires
        d < 10,
    ensures
        r@ == seq![digit_char(d as nat)],
{
    proof {
        reveal_strlit("0");
        reveal_strlit("1");
        reveal_strlit("2");
        reveal_strlit("3");
        reveal_strlit("4");
        reveal_strlit("5");
        reveal_strlit("6");
        reveal_strlit("7");
        reveal_strlit("8");
        reveal_strlit("9");
    }
    let r = if d == 0 { "0" }
        else if d == 1 { "1" }
        else if d == 2 { "2" }
        else if d == 3 { "3" }
        else if d == 4 { "4" }
        else if d == 5 { "5" }
        else if d == 6 { "6" }
        else if d == 7 { "7" }
        else if d == 8 { "8" }
        else { "9" };
    assert(r@ =~= seq![digit_char(d as nat)]);
    r
}

/// Appends the decimal digits of `n` to `s`.
pub fn push_unsigned(s: &mut String, n: u64)
    ensures
        final(s)@ == old(s)@ + decimal_nat(n as nat),
    decreases n,
{
    if n < 10 {
        s.append(digit_text(n));
    } else {
        push_unsigned(s, n / 10);
        s.append(digit_text(n % 10));
        assert(s@ =~= old(s)@ + decimal_nat(n as nat));
    }
}

/// Appends the decimal text of `x` to `s`.
pub fn push_signed(s: &mut String, x: i64)
    ensures
        final(s)@ == old(s)@ + decimal_int(x as int),
{
    if x < 0 {
        proof {
            reveal_strlit("-");
        }
        s.append("-");
        let m: u64 = ((-(x + 1)) as u64) + 1;
        push_unsigned(s, m);
        assert(s@ =~= old(s)@ + decimal_int(x as int));
    } else {
        push_unsigned(s, x as u64);
    }
}

} // verus!
