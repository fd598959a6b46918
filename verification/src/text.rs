//! Decimal numerals: how numbers are written into addresses and URLs, and
//! how they are read from option values.

use vstd::prelude::*;

verus! {

/// The character for the decimal digit `d`, where `0 <= d < 10`.
pub open spec fn digit_char(d: int) -> char {
    seq!['0', '1', '2', '3', '4', '5', '6', '7', '8', '9'][d]
}

/// The decimal numeral of `n`, without sign or leading zeros.
pub open spec fn decimal(n: nat) -> Seq<char>
    decreases n,
{
    if n < 10 {
        seq![digit_char(n as int)]
    } else {
        decimal(n / 10).push(digit_char((n % 10) as int))
    }
}

fn digit_text(d: u16) -> (text: &'static str)
    requires
        d < 10,
    ensures
        text@ == seq![digit_char(d as int)],
{
    proof {
        reveal_strlit("0");
        reveal_strlit("1");
        reveal_strlit("2");
        reveal_strlit("3");
        reveal_strlit("4");
        reveal_strlit("5");
        reveal_strlit("6");
        reveal_strlit("7");
        reveal_strlit("8");
        reveal_strlit("9");
    }
    let text: &'static str = match d {
        0 => "0",
        1 => "1",
        2 => "2",
        3 => "3",
        4 => "4",
        5 => "5",
        6 => "6",
        7 => "7",
        8 => "8",
        _ => "9",
    };
    assert(text@ =~= seq![digit_char(d as int)]);
    text
}

/// Renders `n` in decimal.
pub fn decimal_text(n: u16) -> (text: String)
    ensures
        text@ == decimal(n as nat),
    decreases n,
{
    if n < 10 {
        String::from_str(digit_text(n))
    } else {
        let mut text: String = decimal_text(n / 10);
        text.append(digit_text(n % 10));
        assert(text@ =~= decimal(n as nat));
        text
    }
}

/// Whether `c` is a decimal digit.
pub open spec fn is_digit(c: char) -> bool {
    '0' <= c <= '9'
}

/// Whether every character of `text` is a decimal digit.
pub open spec fn all_digits(text: Seq<char>) -> bool {
    forall|i: int| 0 <= i < text.len() ==> is_digit(#[trigger] text[i])
}

/// The number that a sequence of decimal digits spells; zero for none.
pub open spec fn digits_value(digits: Seq<char>) -> nat
    decreases digits.len(),
{
    if digits.len() == 0 {
        0
    } else {
        digits_value(digits.drop_last()) * 10 + (digits.last() as int - '0' as int) as nat
    }
}

/// The digits of a numeral: the text without its leading `+`, if it has one.
pub open spec fn unsigned_part(text: Seq<char>) -> Seq<char> {
    if text.len() > 0 && text[0] == '+' {
        text.drop_first()
    } else {
        text
    }
}

/// The number that `text` is a numeral of. A numeral is one or more decimal
/// digits, with or without a `+` before them; leading zeros are allowed, and
/// nothing else is, neither spaces nor a `-`.
pub open spec fn numeral(text: Seq<char>) -> Option<nat> {
    let digits = unsigned_part(text);
    if digits.len() > 0 && all_digits(digits) {
        Some(digits_value(digits))
    } else {
        None
    }
}

/// The number that `text` is a numeral of, if it is at most `limit`.
pub open spec fn numeral_up_to(text: Seq<char>, limit: nat) -> Option<nat> {
    match numeral(text) {
        Some(n) => if n <= limit {
            Some(n)
        } else {
            None
        },
        None => None,
    }
}

/// More digits never spell a smaller number.
proof fn lemma_digits_value_grows(digits: Seq<char>, i: int)
    requires
        0 <= i <= digits.len(),
        all_digits(digits),
    ensures
        digits_value(digits.take(i)) <= digits_value(digits),
    decreases digits.len() - i,
{
    if i < digits.len() {
        lemma_digits_value_grows(digits, i + 1);
        assert(digits.take(i + 1).drop_last() =~= digits.take(i));
        assert(is_digit(digits[i]));
    } else {
        assert(digits.take(i) =~= digits);
    }
}

/// Reads a numeral that is at most `limit`.
pub fn parse_up_to(text: &str, limit: u64) -> (value: Option<u64>)
    ensures
        value matches Some(n) ==> numeral_up_to(text@, limit as nat) == Some(n as nat),
        value is None ==> numeral_up_to(text@, limit as nat) is None,
{
    let ghost digits = unsigned_part(text@);
    let ghost start: int = text@.len() - digits.len();
    assert(digits =~= text@.skip(start));
    let mut value: u64 = 0;
    let mut first: bool = true;
    let mut any: bool = false;
    for c in it: text.chars()
        invariant
            it.seq() == text@,
            digits == unsigned_part(text@),
            digits == text@.skip(start),
            start == text@.len() - digits.len(),
            first == (it.index() == 0),
            any == (it.index() > start),
            !first ==> it.index() >= start,
            !any ==> value == 0,
            any ==> all_digits(digits.take(it.index() - start)),
            any ==> value == digits_value(digits.take(it.index() - start)),
            value <= limit,
    {
        let sign: bool = first && c == '+';
        first = false;
        if !sign {
            let ghost at: int = it.index() - start;
            assert(!any ==> at == 0);
            assert(digits[at] == c);
            if c < '0' || c > '9' {
                return None;
            }
            let digit: u64 = c as u64 - '0' as u64;
            proof {
                let more = digits.take(at + 1);
                assert(more.drop_last() =~= digits.take(at));
                assert(more.last() == c);
                assert(all_digits(more)) by {
                    assert forall|k: int| 0 <= k < more.len() implies is_digit(
                        #[trigger] more[k],
                    ) by {
                        if k < at {
                            assert(more[k] == digits.take(at)[k]);
                        }
                    }
                }
                assert(more.len() == at + 1);
                assert(digits_value(digits.take(at)) == value);
                if all_digits(digits) {
                    lemma_digits_value_grows(digits, at + 1);
                }
            }
            let next: u64 = match value.checked_mul(10) {
                Some(tens) => match tens.checked_add(digit) {
                    Some(sum) => sum,
                    None => {
                        return None;
                    },
                },
                None => {
                    return None;
                },
            };
            if next > limit {
                return None;
            }
            value = next;
            any = true;
        }
    }
    if any {
        assert(digits.take(text@.len() - start) =~= digits);
        Some(value)
    } else {
        None
    }
}

/// Reads a numeral that fits into sixteen bits.
pub fn parse_u16(text: &str) -> (value: Option<u16>)
    ensures
        value matches Some(n) ==> numeral_up_to(text@, u16::MAX as nat) == Some(n as nat),
        value is None ==> numeral_up_to(text@, u16::MAX as nat) is None,
{
    match parse_up_to(text, 0xffff) {
        Some(n) => Some(n as u16),
        None => None,
    }
}

/// Reads a numeral that fits into a machine word.
pub fn parse_usize(text: &str) -> (value: Option<usize>)
    ensures
        value matches Some(n) ==> numeral_up_to(text@, usize::MAX as nat) == Some(n as nat),
        value is None ==> numeral_up_to(text@, usize::MAX as nat) is None,
{
    match parse_up_to(text, usize::MAX as u64) {
        Some(n) => Some(n as usize),
        None => None,
    }
}

/// Reading what was written gives the number back.
pub proof fn lemma_numeral_of_decimal(n: nat)
    ensures
        numeral(decimal(n)) == Some(n),
{
    lemma_decimal_digits(n);
}

/// The decimal numeral of a number is made of digits, does not start with
/// `+`, and spells that number.
proof fn lemma_decimal_digits(n: nat)
    ensures
        decimal(n).len() > 0,
        all_digits(decimal(n)),
        digits_value(decimal(n)) == n,
    decreases n,
{
    let digit = digit_char((n % 10) as int);
    assert(is_digit(digit) && digit as int - '0' as int == n % 10) by {
        let digits = seq!['0', '1', '2', '3', '4', '5', '6', '7', '8', '9'];
        assert(digits[0] == '0' && digits[1] == '1' && digits[2] == '2' && digits[3] == '3');
        assert(digits[4] == '4' && digits[5] == '5' && digits[6] == '6' && digits[7] == '7');
        assert(digits[8] == '8' && digits[9] == '9');
    }
    if n < 10 {
        assert(decimal(n).drop_last() =~= Seq::<char>::empty());
        assert(digits_value(decimal(n).drop_last()) == 0);
    } else {
        lemma_decimal_digits(n / 10);
        let head = decimal(n / 10);
        assert(decimal(n).drop_last() =~= head);
        assert forall|i: int| 0 <= i < decimal(n).len() implies is_digit(
            #[trigger] decimal(n)[i],
        ) by {
            if i < head.len() {
                assert(decimal(n)[i] == head[i]);
            }
        }
    }
}

} // verus!
