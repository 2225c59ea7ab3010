//! Text as sequences of characters: decimal numbers, separators and settings.

use vstd::arithmetic::power::{lemma_pow0, pow};
use vstd::prelude::*;
use vstd::string::StringExecFns;

verus! {

/// The contents of each item, in order.
pub open spec fn views<T: View>(items: Seq<T>) -> Seq<T::V> {
    items.map_values(|item: T| item@)
}

/// The decimal digit of a number below ten.
pub open spec fn digit(d: nat) -> char {
    ('0' as nat + d) as char
}

/// The decimal notation of `n`, without leading zeros.
pub open spec fn decimal(n: nat) -> Seq<char>
    decreases n,
{
    if n < 10 {
        seq![digit(n)]
    } else {
        decimal(n / 10).push(digit(n % 10))
    }
}

/// Whether `c` is one of `0` to `9`.
pub open spec fn is_digit(c: char) -> bool {
    '0' <= c && c <= '9'
}

/// The number that a sequence of decimal digits denotes.
pub open spec fn digits_value(digits: Seq<char>) -> nat
    decreases digits.len(),
{
    if digits.len() == 0 {
        0
    } else {
        (digits_value(digits.drop_last()) * 10 + (digits.last() as nat - '0' as nat)) as nat
    }
}

/// The digits of a number, after the plus sign it may start with.
pub open spec fn after_plus(text: Seq<char>) -> Seq<char> {
    if text.len() > 0 && text[0] == '+' {
        text.skip(1)
    } else {
        text
    }
}

/// The number that `text` denotes: a plus sign or none, then one or more decimal digits and
/// nothing else, with a value that a `usize` holds.
pub open spec fn parsed_usize(text: Seq<char>) -> Option<usize> {
    let digits = after_plus(text);
    if digits.len() > 0 && (forall|i: int| 0 <= i < digits.len() ==> is_digit(#[trigger] digits[i]))
        && digits_value(digits) <= usize::MAX {
        Some(digits_value(digits) as usize)
    } else {
        None
    }
}

/// What a setting says, if it is there and denotes a number.
pub open spec fn parsed_setting(value: Option<&str>) -> Option<usize> {
    match value {
        Some(text) => parsed_usize(text@),
        None => None,
    }
}

proof fn lemma_longer_is_no_less(digits: Seq<char>, n: int)
    requires
        0 <= n <= digits.len(),
        forall|i: int| 0 <= i < digits.len() ==> is_digit(#[trigger] digits[i]),
    ensures
        digits_value(digits.take(n)) <= digits_value(digits),
    decreases digits.len() - n,
{
    if n < digits.len() {
        assert(digits.take(n + 1).drop_last() =~= digits.take(n));
        lemma_longer_is_no_less(digits, n + 1);
    } else {
        assert(digits.take(n) =~= digits);
    }
}

/// Reads a number.
fn parse_usize(text: &str) -> (number: Option<usize>)
    ensures
        number == parsed_usize(text@),
{
    let mut number: usize = 0;
    let mut at_start = true;
    let mut has_digits = false;
    let ghost all = text@;
    let ghost digits = after_plus(text@);
    let ghost sign: int = text@.len() - digits.len();
    for c in rest: text.chars()
        invariant
            rest.seq() == all,
            all == text@,
            digits == after_plus(all),
            sign == all.len() - digits.len(),
            0 <= sign <= 1,
            at_start == (rest.index() == 0),
            has_digits == (rest.index() > sign),
            has_digits ==> forall|i: int|
                0 <= i < rest.index() - sign ==> is_digit(#[trigger] digits[i]),
            has_digits ==> number == digits_value(digits.take(rest.index() - sign)),
            !has_digits ==> number == 0,
    {
        let ghost n = rest.index() as int;
        proof {
            assert(c == all[n]);
        }
        if !(at_start && c == '+') {
            proof {
                assert(digits[n - sign] == c);
            }
            if c < '0' || c > '9' {
                proof {
                    assert(!is_digit(digits[n - sign]));
                }
                return None;
            }
            let digit: usize = (c as u32 - '0' as u32) as usize;
            proof {
                let before = digits.take(n - sign);
                let after = digits.take(n - sign + 1);
                assert(after.drop_last() =~= before);
                assert(number == digits_value(before)) by {
                    if !has_digits {
                        assert(before.len() == 0);
                    }
                }
                assert(digits_value(after) == number * 10 + digit);
                if forall|i: int| 0 <= i < digits.len() ==> is_digit(#[trigger] digits[i]) {
                    lemma_longer_is_no_less(digits, n - sign + 1);
                }
            }
            number = match number.checked_mul(10) {
                Some(tens) => match tens.checked_add(digit) {
                    Some(sum) => sum,
                    None => {
                        return None;
                    },
                },
                None => {
                    return None;
                },
            };
            has_digits = true;
        }
        at_start = false;
    }
    if has_digits {
        proof {
            assert(digits.take(digits.len() as int) =~= digits);
        }
        Some(number)
    } else {
        None
    }
}

/// Reads the value of a setting. One that is missing or is no number counts as not set.
pub fn read_setting(value: Option<&str>) -> (number: Option<usize>)
    ensures
        number == parsed_setting(value),
{
    match value {
        Some(text) => parse_usize(text),
        None => None,
    }
}

fn digit_text(d: u128) -> (text: &'static str)
    requires
        d < 10,
    ensures
        text@ == seq![digit(d as nat)],
{
    proof {
        reveal_strlit("0");
        reveal_strlit("1");
        reveal_strlit("2");
        reveal_strlit("3");
        reveal_strlit("4");
        reveal_strlit("5");
        reveal_strlit("6");
        reveal_strlit("7");
        reveal_strlit("8");
        reveal_strlit("9");
    }
    if d == 0 {
        "0"
    } else if d == 1 {
        "1"
    } else if d == 2 {
        "2"
    } else if d == 3 {
        "3"
    } else if d == 4 {
        "4"
    } else if d == 5 {
        "5"
    } else if d == 6 {
        "6"
    } else if d == 7 {
        "7"
    } else if d == 8 {
        "8"
    } else {
        "9"
    }
}

/// Writes `n` in decimal notation.
pub fn decimal_text(n: u128) -> (text: String)
    ensures
        text@ == decimal(n as nat),
    decreases n,
{
    if n < 10 {
        digit_text(n).to_owned()
    } else {
        let mut text = decimal_text(n / 10);
        text.append(digit_text(n % 10));
        proof {
            assert(text@ =~= decimal((n / 10) as nat).push(digit((n % 10) as nat)));
        }
        text
    }
}

/// Whether `text` is the same text as `expected`.
pub fn text_is(text: &String, expected: &str) -> (same: bool)
    ensures
        same == (text@ == expected@),
{
    let expected = expected.to_owned();
    *text == expected
}

/// The parts in order, with `separator` between each two of them.
pub open spec fn joined(parts: Seq<Seq<char>>, separator: Seq<char>) -> Seq<char>
    decreases parts.len(),
{
    if parts.len() == 0 {
        Seq::empty()
    } else if parts.len() == 1 {
        parts[0]
    } else {
        joined(parts.drop_last(), separator) + separator + parts.last()
    }
}

/// Different numbers have different decimal notations.
pub proof fn law_decimal_is_injective(m: nat, n: nat)
    requires
        decimal(m) == decimal(n),
    ensures
        m == n,
    decreases m,
{
    let a = decimal(m);
    let b = decimal(n);
    lemma_decimal_is_not_empty(m / 10);
    lemma_decimal_is_not_empty(n / 10);
    assert(a.last() == digit(m % 10));
    assert(b.last() == digit(n % 10));
    assert(m % 10 == n % 10);
    if m >= 10 && n >= 10 {
        assert(a.drop_last() =~= decimal(m / 10));
        assert(b.drop_last() =~= decimal(n / 10));
        law_decimal_is_injective(m / 10, n / 10);
    }
}

proof fn lemma_decimal_is_not_empty(n: nat)
    ensures
        decimal(n).len() > 0,
{
}

/// The contents of a list are those of its items, one for one and in the same order.
pub proof fn law_views_keep_every_item<T: View>(items: Seq<T>)
    ensures
        views(items).len() == items.len(),
        forall|i: int| 0 <= i < items.len() ==> #[trigger] views(items)[i] == items[i]@,
{
}

/// Digits count by their places: a digit alone is worth its own value, and digits that stand in
/// front of others are worth ten times as much for each of those.
pub proof fn law_digits_count_by_their_places(high: Seq<char>, low: Seq<char>, d: nat)
    requires
        forall|i: int| 0 <= i < high.len() ==> '0' <= #[trigger] high[i] && high[i] <= '9',
        forall|i: int| 0 <= i < low.len() ==> '0' <= #[trigger] low[i] && low[i] <= '9',
        d < 10,
    ensures
        digits_value(Seq::empty()) == 0,
        digits_value(seq![('0' as nat + d) as char]) == d,
        digits_value(high + low) == digits_value(high) * pow(10, low.len()) + digits_value(low),
    decreases low.len(),
{
    let single = seq![('0' as nat + d) as char];
    assert(single.drop_last() =~= Seq::<char>::empty());
    assert(digits_value(single.drop_last()) == 0);
    if low.len() == 0 {
        assert(high + low =~= high);
        lemma_pow0(10);
    } else {
        let rest = low.drop_last();
        assert((high + low).drop_last() =~= high + rest);
        law_digits_count_by_their_places(high, rest, d);
        reveal(pow);
        assert(pow(10, low.len()) == 10 * pow(10, rest.len()));
        let a = digits_value(high) as int;
        let p = pow(10, rest.len());
        assert((a * p) * 10 == a * (10 * p)) by (nonlinear_arith);
    }
}

/// The decimal notation of a number consists of digits that denote it, and begins with a zero only
/// where it is the number zero.
pub proof fn law_decimal_denotes_its_number(n: nat)
    ensures
        decimal(n).len() > 0,
        forall|i: int|
            0 <= i < decimal(n).len() ==> '0' <= #[trigger] decimal(n)[i] && decimal(n)[i] <= '9',
        digits_value(decimal(n)) == n,
        decimal(n)[0] == '0' ==> n == 0 && decimal(n).len() == 1,
    decreases n,
{
    if n < 10 {
        assert(decimal(n).drop_last() =~= Seq::<char>::empty());
        assert(digits_value(decimal(n).drop_last()) == 0);
    } else {
        let rest = decimal(n / 10);
        law_decimal_denotes_its_number(n / 10);
        assert(decimal(n).drop_last() =~= rest);
        if rest[0] == '0' {
            assert(rest.drop_last() =~= Seq::<char>::empty());
            assert(digits_value(rest.drop_last()) == 0);
        }
    }
}

/// One or more decimal digits are read as the number that they denote, with a plus sign in front
/// or without one, unless the number is too large.
pub proof fn law_digits_are_read_as_their_number(digits: Seq<char>)
    requires
        digits.len() > 0,
        forall|i: int| 0 <= i < digits.len() ==> '0' <= #[trigger] digits[i] && digits[i] <= '9',
    ensures
        digits_value(digits) <= usize::MAX ==> {
            &&& parsed_usize(digits) == Some(digits_value(digits) as usize)
            &&& parsed_usize(seq!['+'] + digits) == Some(digits_value(digits) as usize)
        },
        digits_value(digits) > usize::MAX ==> {
            &&& parsed_usize(digits) is None
            &&& parsed_usize(seq!['+'] + digits) is None
        },
{
    assert(after_plus(digits) == digits);
    assert((seq!['+'] + digits).skip(1) =~= digits);
    assert(forall|i: int| 0 <= i < digits.len() ==> is_digit(#[trigger] digits[i]));
}

/// Nothing else is read as a number: no empty text, no plus sign alone, and no text with a
/// character that is neither a digit nor a plus sign at its start.
pub proof fn law_nothing_else_is_a_number(text: Seq<char>, i: int)
    requires
        text.len() == 0 || text == seq!['+'] || (0 <= i < text.len() && !('0' <= text[i] && text[i]
            <= '9') && !(i == 0 && text[i] == '+')),
    ensures
        parsed_usize(text) is None,
{
    let digits = after_plus(text);
    if text.len() > 0 && text != seq!['+'] {
        let place: int = i - (text.len() - digits.len());
        assert(digits[place] == text[i]);
        assert(!is_digit(digits[place]));
    }
}

/// Every number that a `usize` holds is read back from its decimal notation.
pub proof fn law_decimal_notation_is_read_back(n: usize)
    ensures
        parsed_usize(decimal(n as nat)) == Some(n),
{
    law_decimal_denotes_its_number(n as nat);
    law_digits_are_read_as_their_number(decimal(n as nat));
}

/// A setting says what its text says, and one that is missing says nothing.
pub proof fn law_settings_say_what_their_text_says(text: &str)
    ensures
        parsed_setting(Some(text)) == parsed_usize(text@),
        parsed_setting(None) is None,
{
}

/// Nothing joins to nothing, one part to itself, and two lists of parts to what each of them joins
/// to, with the separator in between.
pub proof fn law_parts_are_joined(
    part: Seq<char>,
    first: Seq<Seq<char>>,
    second: Seq<Seq<char>>,
    separator: Seq<char>,
)
    ensures
        joined(Seq::empty(), separator) == Seq::<char>::empty(),
        joined(seq![part], separator) == part,
        first.len() > 0 && second.len() > 0 ==> joined(first + second, separator) == joined(
            first,
            separator,
        ) + separator + joined(second, separator),
    decreases second.len(),
{
    if first.len() > 0 && second.len() > 0 {
        let rest = second.drop_last();
        assert((first + second).drop_last() =~= first + rest);
        if rest.len() == 0 {
            assert(first + rest =~= first);
        } else {
            law_parts_are_joined(part, first, rest, separator);
            assert(joined(first + second, separator) =~= joined(first, separator) + separator
                + joined(second, separator));
        }
    }
}

} // verus!
