//! Numerals: natural numbers written in decimal.

use vstd::prelude::*;
use vstd::string::{StrSliceExecFns, StringExecFns};

verus! {

/// The character that writes a number below ten.
pub open spec fn digit(value: nat) -> char
    recommends
        value < 10,
{
    if value == 0 {
        '0'
    } else if value == 1 {
        '1'
    } else if value == 2 {
        '2'
    } else if value == 3 {
        '3'
    } else if value == 4 {
        '4'
    } else if value == 5 {
        '5'
    } else if value == 6 {
        '6'
    } else if value == 7 {
        '7'
    } else if value == 8 {
        '8'
    } else {
        '9'
    }
}

/// The number that a digit writes; any other character counts as zero.
pub open spec fn digit_value(c: char) -> nat {
    if c == '1' {
        1
    } else if c == '2' {
        2
    } else if c == '3' {
        3
    } else if c == '4' {
        4
    } else if c == '5' {
        5
    } else if c == '6' {
        6
    } else if c == '7' {
        7
    } else if c == '8' {
        8
    } else if c == '9' {
        9
    } else {
        0
    }
}

pub open spec fn is_digit(c: char) -> bool {
    c == '0' || digit_value(c) > 0
}

/// A number written in decimal, without leading zeros.
pub open spec fn decimal(n: nat) -> Seq<char>
    decreases n,
{
    if n < 10 {
        seq![digit(n)]
    } else {
        decimal(n / 10).push(digit(n % 10))
    }
}

/// The number that `text` writes, its characters read as decimal digits.
pub open spec fn number(text: Seq<char>) -> nat
    decreases text.len(),
{
    if text.len() == 0 {
        0
    } else {
        number(text.drop_last()) * 10 + digit_value(text.last())
    }
}

/// `text` is a number written in decimal without leading zeros.
pub open spec fn is_numeral(text: Seq<char>) -> bool {
    &&& text.len() > 0
    &&& forall|i: int| 0 <= i < text.len() ==> is_digit(#[trigger] text[i])
    &&& text.len() > 1 ==> text[0] != '0'
}

/// What `text` writes, if it is a numeral of a number that fits in 64 bits.
pub open spec fn numeral_value(text: Seq<char>) -> Option<u64> {
    if is_numeral(text) && number(text) <= u64::MAX {
        Some(number(text) as u64)
    } else {
        None
    }
}

/// The decimal writing of a number is a numeral, and it writes that number.
pub proof fn lemma_decimal_is_numeral(n: nat)
    ensures
        is_numeral(decimal(n)),
        number(decimal(n)) == n,
        n >= 1 ==> decimal(n)[0] != '0',
    decreases n,
{
    if n < 10 {
        assert(decimal(n).drop_last() =~= Seq::<char>::empty());
        assert(number(decimal(n).drop_last()) == 0);
    } else {
        lemma_decimal_is_numeral(n / 10);
        let front = decimal(n / 10);
        let whole = front.push(digit(n % 10));
        assert(whole.drop_last() =~= front);
        assert(whole.last() == digit(n % 10));
        assert(whole[0] == front[0]);
    }
}

/// A numeral that does not begin with a zero writes a number that is not
/// zero.
proof fn lemma_numeral_positive(text: Seq<char>)
    requires
        is_numeral(text),
        text[0] != '0',
    ensures
        number(text) >= 1,
    decreases text.len(),
{
    if text.len() > 1 {
        let front = text.drop_last();
        assert(front[0] == text[0]);
        assert(is_numeral(front));
        lemma_numeral_positive(front);
        assert(number(text) == number(front) * 10 + digit_value(text.last()));
    } else {
        assert(text.drop_last() =~= Seq::<char>::empty());
        assert(number(text.drop_last()) == 0);
        assert(text.last() == text[0]);
        assert(is_digit(text[0]));
        assert(digit_value(text[0]) >= 1);
        assert(number(text) == number(text.drop_last()) * 10 + digit_value(text.last()));
    }
}

/// A numeral is the decimal writing of the number that it writes.
pub proof fn lemma_numeral_is_decimal(text: Seq<char>)
    requires
        is_numeral(text),
    ensures
        decimal(number(text)) == text,
    decreases text.len(),
{
    let front = text.drop_last();
    assert(is_digit(text[text.len() - 1]));
    assert(number(text) == number(front) * 10 + digit_value(text.last()));
    if text.len() == 1 {
        assert(front =~= Seq::<char>::empty());
        assert(number(front) == 0);
        assert(number(text) == digit_value(text[0]));
        assert(digit(digit_value(text[0])) == text[0]);
        assert(decimal(number(text)) =~= text);
    } else {
        assert(front[0] == text[0]);
        assert(is_numeral(front));
        lemma_numeral_positive(front);
        lemma_numeral_is_decimal(front);
        let n = number(text);
        assert(n / 10 == number(front));
        assert(n % 10 == digit_value(text.last()));
        assert(digit(n % 10) == text.last());
        assert(decimal(n) == decimal(n / 10).push(digit(n % 10)));
        assert(decimal(n) =~= text);
    }
}

/// Reading more characters never gives a smaller number.
pub proof fn lemma_number_grows(text: Seq<char>, cut: int)
    requires
        0 <= cut <= text.len(),
    ensures
        number(text.subrange(0, cut)) <= number(text),
    decreases text.len() - cut,
{
    if cut == text.len() {
        assert(text.subrange(0, cut) =~= text);
    } else {
        let front = text.drop_last();
        assert(front.subrange(0, cut) =~= text.subrange(0, cut));
        lemma_number_grows(front, cut);
        assert(number(front) * 10 >= number(front)) by (nonlinear_arith);
    }
}

/// The text of one digit.
fn digit_text(value: u64) -> (text: &'static str)
    requires
        value < 10,
    ensures
        text@ == seq![digit(value as nat)],
{
    proof {
        reveal_strlit("0");
        reveal_strlit("1");
        reveal_strlit("2");
        reveal_strlit("3");
        reveal_strlit("4");
        reveal_strlit("5");
        reveal_strlit("6");
        reveal_strlit("7");
        reveal_strlit("8");
        reveal_strlit("9");
    }
    let text = if value == 0 {
        "0"
    } else if value == 1 {
        "1"
    } else if value == 2 {
        "2"
    } else if value == 3 {
        "3"
    } else if value == 4 {
        "4"
    } else if value == 5 {
        "5"
    } else if value == 6 {
        "6"
    } else if value == 7 {
        "7"
    } else if value == 8 {
        "8"
    } else {
        "9"
    };
    assert(text@ =~= seq![digit(value as nat)]);
    text
}

/// Writes `n` in decimal at the end of `out`.
pub fn push_decimal(out: &mut String, n: u64)
    ensures
        final(out)@ == old(out)@ + decimal(n as nat),
    decreases n,
{
    if n >= 10 {
        push_decimal(out, n / 10);
    }
    out.append(digit_text(n % 10));
    assert(out@ =~= old(out)@ + decimal(n as nat));
}

/// The number that `c` writes, if it is a digit.
fn read_digit(c: char) -> (value: Option<u64>)
    ensures
        value == (if is_digit(c) {
            Some(digit_value(c) as u64)
        } else {
            None
        }),
{
    if c == '0' {
        Some(0)
    } else if c == '1' {
        Some(1)
    } else if c == '2' {
        Some(2)
    } else if c == '3' {
        Some(3)
    } else if c == '4' {
        Some(4)
    } else if c == '5' {
        Some(5)
    } else if c == '6' {
        Some(6)
    } else if c == '7' {
        Some(7)
    } else if c == '8' {
        Some(8)
    } else if c == '9' {
        Some(9)
    } else {
        None
    }
}

/// Reads the numeral that stands in `text` from `from` up to `to`.
pub fn read_numeral(text: &str, from: usize, to: usize) -> (value: Option<u64>)
    requires
        from <= to <= text@.len(),
    ensures
        value == numeral_value(text@.subrange(from as int, to as int)),
{
    let ghost part = text@.subrange(from as int, to as int);
    if from == to {
        return None;
    }
    if to - from > 1 && text.get_char(from) == '0' {
        assert(part[0] == '0');
        return None;
    }
    let mut value: u64 = 0;
    let mut at: usize = from;
    assert(part.subrange(0, 0) =~= Seq::<char>::empty());
    while at < to
        invariant
            from <= at <= to <= text@.len(),
            part == text@.subrange(from as int, to as int),
            value == number(part.subrange(0, at - from)),
            forall|i: int| 0 <= i < at - from ==> is_digit(#[trigger] part[i]),
        decreases to - at,
    {
        let c = text.get_char(at);
        assert(c == part[at - from]);
        let units = match read_digit(c) {
            Some(units) => units,
            None => {
                return None;
            },
        };
        let ghost read = part.subrange(0, at - from + 1);
        proof {
            assert(read.drop_last() =~= part.subrange(0, at - from));
            assert(read.last() == c);
            lemma_number_grows(part, at - from + 1);
        }
        if value > (u64::MAX - units) / 10 {
            return None;
        }
        value = value * 10 + units;
        at = at + 1;
    }
    assert(part.subrange(0, at - from) =~= part);
    Some(value)
}

} // verus!
