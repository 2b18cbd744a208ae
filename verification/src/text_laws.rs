//! How texts are compared, counted and taken apart.
use crate::text::{
    ascii_lower, bytes_less, digits_value, equal_ignoring_case, is_digit, last_position, position,
    split, split_last, split_once, unsigned_digits, unsigned_number, utf16_len,
};
use vstd::prelude::*;

verus! {

/// Whether two byte strings agree up to a place where the first one is less: it ends
/// there while the other goes on, or has a smaller byte there.
pub open spec fn is_less_at(a: Seq<u8>, b: Seq<u8>, at: int) -> bool {
    &&& 0 <= at <= a.len()
    &&& at < b.len()
    &&& forall|i: int| 0 <= i < at ==> #[trigger] a[i] == b[i]
    &&& at == a.len() || a[at] < b[at]
}

proof fn lemma_less_at(a: Seq<u8>, b: Seq<u8>)
    ensures
        bytes_less(a, b) ==> exists|at: int| is_less_at(a, b, at),
        forall|at: int| is_less_at(a, b, at) ==> bytes_less(a, b),
    decreases a.len(),
{
    if b.len() > 0 && a.len() > 0 {
        let x = a.drop_first();
        let y = b.drop_first();
        lemma_less_at(x, y);
        if a[0] == b[0] {
            if bytes_less(x, y) {
                let at = choose|at: int| is_less_at(x, y, at);
                assert forall|i: int| 0 <= i < at + 1 implies #[trigger] a[i] == b[i] by {
                    if i > 0 {
                        assert(x[i - 1] == y[i - 1]);
                    }
                }
                assert(is_less_at(a, b, at + 1));
            }
        } else if a[0] < b[0] {
            assert(is_less_at(a, b, 0));
        }
        assert forall|at: int| is_less_at(a, b, at) implies bytes_less(a, b) by {
            if at > 0 {
                assert(a[0] == b[0]);
                assert forall|i: int| 0 <= i < at - 1 implies #[trigger] x[i] == y[i] by {
                    assert(a[i + 1] == b[i + 1]);
                }
                assert(is_less_at(x, y, at - 1));
            }
        }
    } else if b.len() > 0 {
        assert(is_less_at(a, b, 0));
    }
}

/// One byte string is less than another exactly where the first difference says so.
pub proof fn law_first_difference_decides(a: Seq<u8>, b: Seq<u8>)
    ensures
        bytes_less(a, b) <==> exists|at: int| is_less_at(a, b, at),
{
    lemma_less_at(a, b);
}

/// Whether a character is an ASCII capital and another one its small form.
pub open spec fn is_capital_of(capital: char, small: char) -> bool {
    'A' <= capital && capital <= 'Z' && small as int == capital as int + 32
}

/// Texts are equal but for the case where they are as long and each character is the
/// same, or the ASCII capital of the other.
pub proof fn law_only_ascii_case_is_ignored(a: Seq<char>, b: Seq<char>)
    ensures
        equal_ignoring_case(a, b) <==> a.len() == b.len() && forall|i: int|
            0 <= i < a.len() ==> (#[trigger] a[i]) == b[i] || is_capital_of(a[i], b[i])
                || is_capital_of(b[i], a[i]),
{
    assert forall|c: char, d: char| (#[trigger] ascii_lower(c) == #[trigger] ascii_lower(d)) == (c
        == d || is_capital_of(c, d) || is_capital_of(d, c)) by {
        lemma_lower(c);
        lemma_lower(d);
    }
    if a.len() == b.len() {
        assert forall|i: int| 0 <= i < a.len() implies (ascii_lower(#[trigger] a[i]) == ascii_lower(
            b[i],
        )) == (a[i] == b[i] || is_capital_of(a[i], b[i]) || is_capital_of(b[i], a[i])) by {
        }
    }
}

proof fn lemma_lower(c: char)
    ensures
        'A' <= c && c <= 'Z' ==> ascii_lower(c) as int == c as int + 32,
        !('A' <= c && c <= 'Z') ==> ascii_lower(c) == c,
{
}

/// A text counts one unit for each character, and one more for each character beyond
/// the first plane.
pub proof fn law_units_add_up(a: Seq<char>, b: Seq<char>, c: char)
    ensures
        utf16_len(a + b) == utf16_len(a) + utf16_len(b),
        utf16_len(Seq::empty()) == 0,
        utf16_len(seq![c]) == if c as int >= 65536 {
            2nat
        } else {
            1nat
        },
    decreases b.len(),
{
    assert(seq![c].drop_last() =~= Seq::empty());
    assert(utf16_len(seq![c].drop_last()) == 0);
    if b.len() == 0 {
        assert(a + b =~= a);
    } else {
        law_units_add_up(a, b.drop_last(), c);
        assert((a + b).drop_last() =~= a + b.drop_last());
    }
}

proof fn lemma_position(text: Seq<char>, wanted: char)
    ensures
        position(text, wanted) <= text.len(),
        forall|i: int| 0 <= i < position(text, wanted) ==> #[trigger] text[i] != wanted,
        position(text, wanted) < text.len() ==> text[position(text, wanted) as int] == wanted,
    decreases text.len(),
{
    if text.len() > 0 && text[0] != wanted {
        let rest = text.drop_first();
        lemma_position(rest, wanted);
        assert forall|i: int| 0 <= i < position(text, wanted) implies #[trigger] text[i]
            != wanted by {
            if i > 0 {
                assert(text[i] == rest[i - 1]);
            }
        }
    }
}

/// A text is split at its first separator: the parts and the separator make up the
/// text, and the first part has none. Where there is no separator, it is not split.
pub proof fn law_text_is_split_at_the_first_separator(text: Seq<char>, separator: char)
    ensures
        split_once(text, separator) is None <==> !text.contains(separator),
        split_once(text, separator) matches Some((before, after)) ==> text == before
            + seq![separator] + after && !before.contains(separator),
{
    lemma_position(text, separator);
    let at = position(text, separator) as int;
    if at < text.len() {
        assert(text.contains(separator));
        assert(text =~= text.take(at) + seq![separator] + text.skip(at + 1));
    }
}

proof fn lemma_last_position(text: Seq<char>, wanted: char)
    ensures
        last_position(text, wanted) <= text.len(),
        last_position(text, wanted) > 0 ==> text[last_position(text, wanted) - 1] == wanted,
        forall|i: int| last_position(text, wanted) <= i < text.len() ==> #[trigger] text[i]
            != wanted,
    decreases text.len(),
{
    if text.len() > 0 && text.last() != wanted {
        let rest = text.drop_last();
        lemma_last_position(rest, wanted);
        assert forall|i: int| last_position(text, wanted) <= i < text.len() implies
            #[trigger] text[i] != wanted by {
            if i < rest.len() {
                assert(text[i] == rest[i]);
            }
        }
    }
}

/// A text is split at its last separator: the parts and the separator make up the
/// text, and the last part has none. Where there is no separator, it is not split.
pub proof fn law_text_is_split_at_the_last_separator(text: Seq<char>, separator: char)
    ensures
        split_last(text, separator) is None <==> !text.contains(separator),
        split_last(text, separator) matches Some((before, after)) ==> text == before
            + seq![separator] + after && !after.contains(separator),
{
    lemma_last_position(text, separator);
    let at = last_position(text, separator) as int;
    if at > 0 {
        assert(text.contains(separator));
        assert(text =~= text.take(at - 1) + seq![separator] + text.skip(at));
    }
}

/// Parts put together again, with separators between them.
pub open spec fn joined(parts: Seq<Seq<char>>, separator: char) -> Seq<char>
    decreases parts.len(),
{
    if parts.len() == 0 {
        Seq::empty()
    } else if parts.len() == 1 {
        parts[0]
    } else {
        joined(parts.drop_last(), separator) + seq![separator] + parts.last()
    }
}

/// A text that is split into parts is the parts put together again, and no part has a
/// separator.
pub proof fn law_parts_make_up_the_text(text: Seq<char>, separator: char)
    ensures
        split(text, separator).len() > 0,
        joined(split(text, separator), separator) == text,
        forall|i: int|
            0 <= i < split(text, separator).len() ==> !(#[trigger] split(
                text,
                separator,
            )[i]).contains(separator),
    decreases text.len(),
{
    let parts = split(text, separator);
    if text.len() > 0 {
        let less = text.drop_last();
        let before = split(less, separator);
        law_parts_make_up_the_text(less, separator);
        assert(text =~= less.push(text.last()));
        if text.last() == separator {
            assert(parts.drop_last() =~= before);
            assert(joined(parts, separator) =~= text);
            assert forall|i: int| 0 <= i < parts.len() implies !(#[trigger] parts[i]).contains(
                separator,
            ) by {
                if i < before.len() {
                    assert(parts[i] == before[i]);
                }
            }
        } else {
            assert(parts.drop_last() =~= before.drop_last());
            assert(parts.last() == before.last().push(text.last()));
            assert(joined(parts, separator) =~= joined(before, separator).push(text.last()));
            assert forall|i: int| 0 <= i < parts.len() implies !(#[trigger] parts[i]).contains(
                separator,
            ) by {
                if i < before.len() - 1 {
                    assert(parts[i] == before[i]);
                } else {
                    let last = before[before.len() - 1];
                    assert(!last.contains(separator));
                    assert(parts[i] == last.push(text.last()));
                    assert forall|k: int| 0 <= k < parts[i].len() implies parts[i][k]
                        != separator by {
                        if k < last.len() {
                            assert(last.contains(last[k]));
                        }
                    }
                }
            }
        }
    }
}

/// A number is read from digits alone, with a plus sign before them or none: each digit
/// more makes it ten times as large and adds its own value.
pub proof fn law_number_is_read_digit_by_digit(text: Seq<char>, digit: char)
    requires
        is_digit(digit),
    ensures
        ({
            let longer = text.push(digit);
            let value = (digit as int - '0' as int);
            &&& unsigned_number(text) matches Some(number) ==> (number * 10 + value <= u64::MAX
                <==> unsigned_number(longer) is Some)
            &&& unsigned_number(text) matches Some(number) ==> (unsigned_number(
                longer,
            ) matches Some(next) ==> next == number * 10 + value)
            &&& unsigned_number(seq![digit]) matches Some(number) && number == value
        }),
        unsigned_number(seq!['+'] + text.push(digit)) is Some ==> unsigned_number(
            seq!['+'] + text.push(digit),
        ) == (if text.len() > 0 && text[0] == '+' {
            None
        } else {
            unsigned_number(text.push(digit))
        }),
        unsigned_number(Seq::empty()) is None,
        unsigned_number(seq!['+']) is None,
        unsigned_number(text) matches Some(_) ==> forall|i: int|
            0 <= i < text.len() ==> is_digit(#[trigger] text[i]) || i == 0 && text[i] == '+',
{
    let longer = text.push(digit);
    let one = seq![digit];
    assert(one.drop_last() =~= Seq::empty());
    assert(digits_value(one.drop_last()) == 0);
    assert(unsigned_digits(one) == one);
    assert(seq!['+'].skip(1) =~= Seq::empty());
    if let Some(number) = unsigned_number(text) {
        let digits = unsigned_digits(text);
        let more = unsigned_digits(longer);
        assert(text.len() > 0);
        assert(more =~= digits.push(digit));
        assert(more.drop_last() =~= digits);
        assert forall|i: int| 0 <= i < more.len() implies is_digit(#[trigger] more[i]) by {
            if i < digits.len() {
                assert(more[i] == digits[i]);
            }
        }
        assert forall|i: int| 0 <= i < text.len() implies is_digit(#[trigger] text[i]) || i == 0
            && text[i] == '+' by {
            if text[0] == '+' {
                if i > 0 {
                    assert(text[i] == digits[i - 1]);
                }
            } else {
                assert(text[i] == digits[i]);
            }
        }
    }
    let signed = seq!['+'] + longer;
    assert(unsigned_digits(signed) =~= longer);
    if unsigned_number(signed) is Some {
        assert(is_digit(longer[0]));
        assert(unsigned_digits(longer) == longer);
    }
}

} // verus!
