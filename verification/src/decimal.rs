//! Decimal text of integers.

use vstd::prelude::*;

verus! {

/// The character of a decimal digit.
pub open spec fn digit(d: nat) -> char {
    "0123456789"@[d as int]
}

/// The decimal digits of a natural number, most significant first, without
/// leading zeros.
pub open spec fn nat_text(n: nat) -> Seq<char>
    decreases n,
{
    if n < 10 {
        seq![digit(n)]
    } else {
        nat_text(n / 10).push(digit(n % 10))
    }
}

/// The decimal text of an integer: a minus sign if it is negative, then the
/// digits of its magnitude.
pub open spec fn int_text(i: int) -> Seq<char> {
    if i < 0 {
        seq!['-'] + nat_text((-i) as nat)
    } else {
        nat_text(i as nat)
    }
}

/// Appends the decimal text of a signed integer.
pub fn append_i64(out: &mut String, value: i64)
    ensures
        final(out)@ == old(out)@ + int_text(value as int),
{
    if value < 0 {
        let magnitude: u64 = (-(value + 1)) as u64 + 1;
        out.append("-");
        proof {
            reveal_strlit("-");
            assert("-"@ =~= seq!['-']);
        }
        append_u64(out, magnitude);
        assert(out@ =~= old(out)@ + int_text(value as int));
    } else {
        append_u64(out, value as u64);
    }
}

/// Appends the decimal text of an unsigned integer.
fn append_u64(out: &mut String, value: u64)
    ensures
        final(out)@ == old(out)@ + nat_text(value as nat),
    decreases value,
{
    if value >= 10 {
        append_u64(out, value / 10);
    }
    let ghost before = out@;
    out.append(digit_str(value % 10));
    assert(out@ =~= before.push(digit((value % 10) as nat)));
    assert(out@ =~= old(out)@ + nat_text(value as nat));
}

/// The one-character text of a digit.
fn digit_str(d: u64) -> (text: &'static str)
    requires
        d < 10,
    ensures
        text@ == seq![digit(d as nat)],
{
    let text: &'static str = match d {
        0 => "0",
        1 => "1",
        2 => "2",
        3 => "3",
        4 => "4",
        5 => "5",
        6 => "6",
        7 => "7",
        8 => "8",
        _ => "9",
    };
    proof {
        reveal_strlit("0123456789");
        reveal_strlit("0");
        reveal_strlit("1");
        reveal_strlit("2");
        reveal_strlit("3");
        reveal_strlit("4");
        reveal_strlit("5");
        reveal_strlit("6");
        reveal_strlit("7");
        reveal_strlit("8");
        reveal_strlit("9");
        assert(text@ =~= seq![digit(d as nat)]);
    }
    text
}

/// The ten digits are ten different characters, and none of them is the minus
/// sign.
proof fn lemma_digits_differ(a: nat, b: nat)
    requires
        a < 10,
        b < 10,
    ensures
        digit(a) == digit(b) ==> a == b,
        digit(a) != '-',
{
    reveal_strlit("0123456789");
}

/// Natural numbers with the same digits are the same number.
proof fn lemma_nat_text_injective(a: nat, b: nat)
    requires
        nat_text(a) == nat_text(b),
    ensures
        a == b,
    decreases a,
{
    lemma_nat_text_starts_with_digit(a);
    lemma_nat_text_starts_with_digit(b);
    lemma_digits_differ(a % 10, b % 10);
    assert(nat_text(a).last() == digit(a % 10));
    assert(nat_text(b).last() == digit(b % 10));
    if a >= 10 && b >= 10 {
        assert(nat_text(a).drop_last() =~= nat_text(a / 10));
        assert(nat_text(b).drop_last() =~= nat_text(b / 10));
        lemma_nat_text_injective(a / 10, b / 10);
    } else if a >= 10 {
        lemma_nat_text_starts_with_digit(a / 10);
    } else if b >= 10 {
        lemma_nat_text_starts_with_digit(b / 10);
    }
}

/// The digits of a number are never empty and do not start with a minus sign.
proof fn lemma_nat_text_starts_with_digit(n: nat)
    ensures
        nat_text(n).len() >= 1,
        nat_text(n)[0] != '-',
    decreases n,
{
    lemma_digits_differ(n % 10, n % 10);
    if n >= 10 {
        lemma_nat_text_starts_with_digit(n / 10);
    }
}

/// Integers with the same decimal text are the same integer.
pub proof fn law_int_text_injective(a: int, b: int)
    requires
        int_text(a) == int_text(b),
    ensures
        a == b,
{
    lemma_nat_text_starts_with_digit(if a < 0 { (-a) as nat } else { a as nat });
    lemma_nat_text_starts_with_digit(if b < 0 { (-b) as nat } else { b as nat });
    if a < 0 && b < 0 {
        assert(int_text(a).skip(1) =~= nat_text((-a) as nat));
        assert(int_text(b).skip(1) =~= nat_text((-b) as nat));
        lemma_nat_text_injective((-a) as nat, (-b) as nat);
    } else if a >= 0 && b >= 0 {
        lemma_nat_text_injective(a as nat, b as nat);
    } else {
        assert(int_text(a)[0] != int_text(b)[0]);
    }
}

/// The number that decimal digits stand for: each digit counts ten times as
/// much as the one after it.
pub open spec fn digits_value(digits: Seq<char>) -> int
    decreases digits.len(),
{
    if digits.len() == 0 {
        0
    } else {
        10 * digits_value(digits.drop_last()) + (digits.last() as int - '0' as int)
    }
}

/// The number that a decimal numeral stands for.
pub open spec fn numeral_value(text: Seq<char>) -> int {
    if text.len() > 0 && text[0] == '-' {
        -digits_value(text.skip(1))
    } else {
        digits_value(text)
    }
}

/// The text consists of digits, at least one, and does not start with a zero
/// unless that is all there is.
pub open spec fn is_digits(text: Seq<char>) -> bool {
    &&& text.len() > 0
    &&& text[0] == '0' ==> text.len() == 1
    &&& forall|i: int| 0 <= i < text.len() ==> '0' as int <= (#[trigger] text[i]) as int <= '9' as int
}

/// The character of a digit is as far from the zero as the digit is.
proof fn lemma_digit_value(d: nat)
    requires
        d < 10,
    ensures
        digit(d) as int - '0' as int == d,
{
    reveal_strlit("0123456789");
}

/// The digits of a number read back as the number.
proof fn lemma_nat_text_reads_back(n: nat)
    ensures
        digits_value(nat_text(n)) == n,
        is_digits(nat_text(n)),
        n > 0 ==> nat_text(n)[0] != '0',
    decreases n,
{
    lemma_digit_value(n % 10);
    lemma_digit_value(0);
    let text = nat_text(n);
    if n < 10 {
        assert(text.drop_last() =~= seq![]);
        assert(digits_value(text.drop_last()) == 0);
    } else {
        lemma_nat_text_reads_back(n / 10);
        assert(text.drop_last() =~= nat_text(n / 10));
    }
}

/// The decimal text of an integer reads back as the integer. It is made of
/// digits without leading zeros, after a minus sign exactly if the integer is
/// negative.
pub proof fn law_int_text_reads_back(i: int)
    ensures
        numeral_value(int_text(i)) == i,
        i >= 0 ==> is_digits(int_text(i)),
        i < 0 ==> int_text(i)[0] == '-' && is_digits(int_text(i).skip(1)),
{
    if i < 0 {
        lemma_nat_text_reads_back((-i) as nat);
        assert(int_text(i).skip(1) =~= nat_text((-i) as nat));
    } else {
        lemma_nat_text_reads_back(i as nat);
        lemma_nat_text_starts_with_digit(i as nat);
    }
}

} // verus!
