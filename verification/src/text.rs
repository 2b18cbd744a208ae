//! Text: comparison, order, concatenation and decimal numbers.
use vstd::prelude::*;
use vstd::string::*;
use vstd::utf8::*;

verus! {

/// Two texts with the same bytes have the same characters.
proof fn lemma_same_bytes_same_text(a: Seq<char>, b: Seq<char>)
    requires
        encode_utf8(a) == encode_utf8(b),
    ensures
        a == b,
{
    encode_utf8_decode_utf8(a);
    encode_utf8_decode_utf8(b);
}

/// Whether two texts are equal.
pub fn same_text(a: &str, b: &str) -> (same: bool)
    ensures
        same == (a@ == b@),
{
    let left = a.as_bytes();
    let right = b.as_bytes();
    if left.len() != right.len() {
        return false;
    }
    let mut i: usize = 0;
    while i < left.len()
        invariant
            i <= left.len(),
            left.len() == right.len(),
            left@ == encode_utf8(a@),
            right@ == encode_utf8(b@),
            forall|j: int| 0 <= j < i ==> left@[j] == right@[j],
        decreases left.len() - i,
    {
        if left[i] != right[i] {
            return false;
        }
        i += 1;
    }
    proof {
        assert(left@ =~= right@);
        lemma_same_bytes_same_text(a@, b@);
    }
    true
}

/// Whether an optional text is present and equal to the given one.
pub fn is_text(value: Option<&str>, expected: &str) -> (same: bool)
    ensures
        same == (value matches Some(text) && text@ == expected@),
{
    match value {
        Some(text) => same_text(text, expected),
        None => false,
    }
}

/// The order of byte strings: the first difference decides, and a proper
/// prefix comes first.
pub open spec fn bytes_less(a: Seq<u8>, b: Seq<u8>) -> bool
    decreases a.len(),
{
    if b.len() == 0 {
        false
    } else if a.len() == 0 {
        true
    } else if a[0] != b[0] {
        a[0] < b[0]
    } else {
        bytes_less(a.drop_first(), b.drop_first())
    }
}

/// The order of texts: that of their UTF-8 bytes.
pub open spec fn text_less(a: Seq<char>, b: Seq<char>) -> bool {
    bytes_less(encode_utf8(a), encode_utf8(b))
}

proof fn lemma_bytes_less_irreflexive(a: Seq<u8>)
    ensures
        !bytes_less(a, a),
    decreases a.len(),
{
    if a.len() > 0 {
        lemma_bytes_less_irreflexive(a.drop_first());
    }
}

proof fn lemma_bytes_less_transitive(a: Seq<u8>, b: Seq<u8>, c: Seq<u8>)
    requires
        bytes_less(a, b),
        bytes_less(b, c),
    ensures
        bytes_less(a, c),
    decreases a.len(),
{
    if a.len() > 0 && b.len() > 0 && c.len() > 0 && a[0] == b[0] && b[0] == c[0] {
        lemma_bytes_less_transitive(a.drop_first(), b.drop_first(), c.drop_first());
    }
}

proof fn lemma_bytes_less_total(a: Seq<u8>, b: Seq<u8>)
    ensures
        bytes_less(a, b) || a == b || bytes_less(b, a),
    decreases a.len(),
{
    if a.len() > 0 && b.len() > 0 && a[0] == b[0] {
        lemma_bytes_less_total(a.drop_first(), b.drop_first());
        if a.drop_first() == b.drop_first() {
            assert(a =~= seq![a[0]] + a.drop_first());
            assert(b =~= seq![b[0]] + b.drop_first());
        }
    } else if a.len() == 0 && b.len() == 0 {
        assert(a =~= b);
    }
}

/// No text comes before itself.
pub proof fn lemma_text_less_irreflexive(a: Seq<char>)
    ensures
        !text_less(a, a),
{
    lemma_bytes_less_irreflexive(encode_utf8(a));
}

/// The order of texts is transitive.
pub proof fn lemma_text_less_transitive(a: Seq<char>, b: Seq<char>, c: Seq<char>)
    requires
        text_less(a, b),
        text_less(b, c),
    ensures
        text_less(a, c),
{
    lemma_bytes_less_transitive(encode_utf8(a), encode_utf8(b), encode_utf8(c));
}

/// Of two different texts one comes before the other.
pub proof fn lemma_text_less_total(a: Seq<char>, b: Seq<char>)
    ensures
        text_less(a, b) || a == b || text_less(b, a),
{
    lemma_bytes_less_total(encode_utf8(a), encode_utf8(b));
    if encode_utf8(a) == encode_utf8(b) {
        lemma_same_bytes_same_text(a, b);
    }
}

/// Whether the first text comes before the second.
pub fn comes_before(a: &str, b: &str) -> (less: bool)
    ensures
        less == text_less(a@, b@),
{
    let left = a.as_bytes();
    let right = b.as_bytes();
    let mut i: usize = 0;
    assert(left@.skip(0) =~= left@);
    assert(right@.skip(0) =~= right@);
    while i < left.len() && i < right.len()
        invariant
            i <= left.len(),
            i <= right.len(),
            left@ == encode_utf8(a@),
            right@ == encode_utf8(b@),
            text_less(a@, b@) == bytes_less(left@.skip(i as int), right@.skip(i as int)),
        decreases left.len() - i,
    {
        if left[i] != right[i] {
            return left[i] < right[i];
        }
        assert(left@.skip(i as int).drop_first() =~= left@.skip(i + 1));
        assert(right@.skip(i as int).drop_first() =~= right@.skip(i + 1));
        i += 1;
    }
    i < right.len()
}

/// Joins two texts.
pub fn join2(a: &str, b: &str) -> (joined: String)
    ensures
        joined@ == a@ + b@,
{
    let mut joined = a.to_string();
    joined.append(b);
    joined
}

/// Joins three texts.
pub fn join3(a: &str, b: &str, c: &str) -> (joined: String)
    ensures
        joined@ == a@ + b@ + c@,
{
    let mut joined = a.to_string();
    joined.append(b);
    joined.append(c);
    joined
}

/// Joins four texts.
pub fn join4(a: &str, b: &str, c: &str, d: &str) -> (joined: String)
    ensures
        joined@ == a@ + b@ + c@ + d@,
{
    let mut joined = a.to_string();
    joined.append(b);
    joined.append(c);
    joined.append(d);
    joined
}

/// Joins five texts.
pub fn join5(a: &str, b: &str, c: &str, d: &str, e: &str) -> (joined: String)
    ensures
        joined@ == a@ + b@ + c@ + d@ + e@,
{
    let mut joined = a.to_string();
    joined.append(b);
    joined.append(c);
    joined.append(d);
    joined.append(e);
    joined
}

/// The characters of a text.
pub fn characters(text: &str) -> (chars: Vec<char>)
    ensures
        chars@ == text@,
{
    let mut chars: Vec<char> = Vec::new();
    for c in it: text.chars()
        invariant
            chars@.len() == it.index(),
            it.seq() == text@,
            forall|j: int| 0 <= j < chars@.len() ==> chars@[j] == it.seq()[j],
    {
        chars.push(c);
    }
    chars
}

/// The number of UTF-16 code units that a character takes.
pub open spec fn utf16_width(c: char) -> nat {
    if c as u32 >= 0x10000 {
        2
    } else {
        1
    }
}

/// The number of UTF-16 code units of a text.
pub open spec fn utf16_len(text: Seq<char>) -> nat
    decreases text.len(),
{
    if text.len() == 0 {
        0
    } else {
        utf16_len(text.drop_last()) + utf16_width(text.last())
    }
}

/// The length of a text as JavaScript counts it: in UTF-16 code units. The
/// count stops at the largest machine integer.
pub fn js_len(value: &str) -> (len: usize)
    ensures
        len == if utf16_len(value@) <= usize::MAX {
            utf16_len(value@)
        } else {
            usize::MAX as nat
        },
{
    let chars = characters(value);
    let mut len: usize = 0;
    let mut i: usize = 0;
    while i < chars.len()
        invariant
            i <= chars.len(),
            chars@ == value@,
            len == if utf16_len(value@.take(i as int)) <= usize::MAX {
                utf16_len(value@.take(i as int))
            } else {
                usize::MAX as nat
            },
        decreases chars.len() - i,
    {
        let width: usize = if chars[i] as u32 >= 0x10000 {
            2
        } else {
            1
        };
        assert(value@.take(i + 1).drop_last() =~= value@.take(i as int));
        len = len.saturating_add(width);
        i += 1;
    }
    assert(value@.take(i as int) =~= value@);
    len
}

/// The character of a decimal digit.
pub open spec fn digit_char(digit: nat) -> char {
    (('0' as u32) + digit) as char
}

/// The decimal text of a number, without leading zeros.
pub open spec fn decimal_text(number: nat) -> Seq<char>
    decreases number,
{
    if number < 10 {
        seq![digit_char(number)]
    } else {
        decimal_text(number / 10).push(digit_char(number % 10))
    }
}

fn digit_text(digit: u64) -> (text: &'static str)
    requires
        digit < 10,
    ensures
        text@ == seq![digit_char(digit as nat)],
{
    proof {
        reveal_strlit("0");
        reveal_strlit("1");
        reveal_strlit("2");
        reveal_strlit("3");
        reveal_strlit("4");
        reveal_strlit("5");
        reveal_strlit("6");
        reveal_strlit("7");
        reveal_strlit("8");
        reveal_strlit("9");
    }
    match digit {
        0 => "0",
        1 => "1",
        2 => "2",
        3 => "3",
        4 => "4",
        5 => "5",
        6 => "6",
        7 => "7",
        8 => "8",
        _ => "9",
    }
}

/// The decimal text of a number.
pub fn decimal(number: u64) -> (text: String)
    ensures
        text@ == decimal_text(number as nat),
    decreases number,
{
    if number < 10 {
        digit_text(number).to_string()
    } else {
        let mut text = decimal(number / 10);
        text.append(digit_text(number % 10));
        text
    }
}

/// The smallest number with more than so many digits.
pub open spec fn ten_to(digits: nat) -> nat
    decreases digits,
{
    if digits == 0 {
        1
    } else {
        10 * ten_to((digits - 1) as nat)
    }
}

proof fn lemma_decimal_length(number: nat, digits: nat)
    requires
        digits > 0,
        number < ten_to(digits),
    ensures
        decimal_text(number).len() <= digits,
    decreases digits,
{
    if number >= 10 {
        if digits == 1 {
            assert(ten_to(0) == 1);
        } else {
            lemma_decimal_length(number / 10, (digits - 1) as nat);
        }
    }
}

/// The decimal text of a 64-bit number has at most 20 characters.
pub proof fn lemma_decimal_is_short(number: u64)
    ensures
        decimal_text(number as nat).len() <= 20,
{
    reveal_with_fuel(ten_to, 21);
    lemma_decimal_length(number as nat, 20);
}

/// The bytes of two texts, one after the other.
pub proof fn lemma_bytes_join(a: Seq<char>, b: Seq<char>)
    ensures
        encode_utf8(a + b) == encode_utf8(a) + encode_utf8(b),
    decreases a.len(),
{
    if a.len() == 0 {
        assert(a + b =~= b);
        assert(encode_utf8(a) + encode_utf8(b) =~= encode_utf8(b));
    } else {
        lemma_bytes_join(a.drop_first(), b);
        assert((a + b).drop_first() =~= a.drop_first() + b);
        assert(encode_utf8(a + b) =~= encode_utf8(a) + encode_utf8(b));
    }
}

/// A character takes at most four bytes.
pub proof fn lemma_bytes_bound(text: Seq<char>)
    ensures
        encode_utf8(text).len() <= 4 * text.len(),
    decreases text.len(),
{
    if text.len() > 0 {
        lemma_bytes_bound(text.drop_first());
    }
}

/// Whether a character is a decimal digit.
pub open spec fn is_digit(c: char) -> bool {
    '0' <= c && c <= '9'
}

/// The number that a run of digits stands for.
pub open spec fn digits_value(digits: Seq<char>) -> nat
    decreases digits.len(),
{
    if digits.len() == 0 {
        0
    } else {
        digits_value(digits.drop_last()) * 10 + (digits.last() as u32 - '0' as u32) as nat
    }
}

/// The digits of a number text: an optional plus sign is left out.
pub open spec fn unsigned_digits(text: Seq<char>) -> Seq<char> {
    if text.len() > 0 && text[0] == '+' {
        text.skip(1)
    } else {
        text
    }
}

/// The 64-bit number that a text stands for: an optional plus sign and at
/// least one digit, with a value that fits.
pub open spec fn unsigned_number(text: Seq<char>) -> Option<u64> {
    let digits = unsigned_digits(text);
    if digits.len() > 0 && (forall|i: int| 0 <= i < digits.len() ==> is_digit(#[trigger] digits[i]))
        && digits_value(digits) <= u64::MAX {
        Some(digits_value(digits) as u64)
    } else {
        None
    }
}

proof fn lemma_digits_value_grows(digits: Seq<char>, n: int)
    requires
        0 <= n <= digits.len(),
        forall|i: int| 0 <= i < digits.len() ==> is_digit(#[trigger] digits[i]),
    ensures
        digits_value(digits.take(n)) <= digits_value(digits),
    decreases digits.len() - n,
{
    if n == digits.len() {
        assert(digits.take(n) =~= digits);
    } else {
        lemma_digits_value_grows(digits, n + 1);
        assert(digits.take(n + 1).drop_last() =~= digits.take(n));
        assert(is_digit(digits[n]));
    }
}

/// Reads a 64-bit number.
pub fn parse_unsigned(text: &str) -> (number: Option<u64>)
    ensures
        number == unsigned_number(text@),
{
    let chars = characters(text);
    parse_unsigned_chars(&chars)
}

/// Reads a 64-bit number from its characters.
pub fn parse_unsigned_chars(chars: &Vec<char>) -> (number: Option<u64>)
    ensures
        number == unsigned_number(chars@),
{
    let start: usize = if chars.len() > 0 && chars[0] == '+' {
        1
    } else {
        0
    };
    let ghost digits = unsigned_digits(chars@);
    assert(digits =~= chars@.skip(start as int));
    if start == chars.len() {
        return None;
    }
    let mut i: usize = start;
    while i < chars.len()
        invariant
            start <= i <= chars.len(),
            digits == chars@.skip(start as int),
            digits == unsigned_digits(chars@),
            forall|j: int| 0 <= j < i - start ==> is_digit(#[trigger] digits[j]),
        decreases chars.len() - i,
    {
        let c = chars[i];
        assert(digits[i - start] == c);
        if !('0' <= c && c <= '9') {
            return None;
        }
        i += 1;
    }
    let mut value: u64 = 0;
    let mut k: usize = start;
    assert(digits.take(0) =~= Seq::<char>::empty());
    while k < chars.len()
        invariant
            start <= k <= chars.len(),
            digits == chars@.skip(start as int),
            digits.len() == chars.len() - start,
            forall|j: int| 0 <= j < digits.len() ==> is_digit(#[trigger] digits[j]),
            value == digits_value(digits.take(k - start)),
            digits == unsigned_digits(chars@),
        decreases chars.len() - k,
    {
        let c = chars[k];
        assert(digits[k - start] == c);
        assert(is_digit(digits[k - start]));
        let digit: u64 = (c as u32 - '0' as u32) as u64;
        proof {
            assert(digits.take(k - start + 1).drop_last() =~= digits.take(k - start));
            lemma_digits_value_grows(digits, k - start + 1);
        }
        if value > (u64::MAX - digit) / 10 {
            return None;
        }
        value = value * 10 + digit;
        k += 1;
    }
    assert(digits.take(k - start) =~= digits);
    Some(value)
}

/// Reading the decimal text of a number gives the number back.
pub proof fn law_decimal_round_trip(number: u64)
    ensures
        unsigned_number(decimal_text(number as nat)) == Some(number),
{
    lemma_decimal_digits(number as nat);
    let text = decimal_text(number as nat);
    assert(is_digit(text[0]));
}

proof fn lemma_decimal_digits(number: nat)
    ensures
        decimal_text(number).len() > 0,
        forall|i: int| 0 <= i < decimal_text(number).len() ==> is_digit(
            #[trigger] decimal_text(number)[i],
        ),
        digits_value(decimal_text(number)) == number,
    decreases number,
{
    reveal_with_fuel(digits_value, 2);
    if number >= 10 {
        lemma_decimal_digits(number / 10);
        assert(decimal_text(number).drop_last() =~= decimal_text(number / 10));
    } else {
        assert(decimal_text(number).drop_last() =~= Seq::<char>::empty());
    }
}

/// The decimal text of a number has digits only.
pub proof fn lemma_decimal_lacks(number: nat, other: char)
    requires
        !is_digit(other),
    ensures
        !decimal_text(number).contains(other),
{
    lemma_decimal_digits(number);
    let text = decimal_text(number);
    assert forall|i: int| 0 <= i < text.len() implies text[i] != other by {
        assert(is_digit(text[i]));
    }
}

/// The parts of a text between separators.
pub open spec fn split(text: Seq<char>, separator: char) -> Seq<Seq<char>>
    decreases text.len(),
{
    if text.len() == 0 {
        seq![text]
    } else {
        let parts = split(text.drop_last(), separator);
        if text.last() == separator {
            parts.push(Seq::empty())
        } else {
            parts.drop_last().push(parts.last().push(text.last()))
        }
    }
}

/// The texts of a list of character lists.
pub open spec fn parts_view(parts: Seq<Vec<char>>) -> Seq<Seq<char>> {
    Seq::new(parts.len(), |i: int| parts[i]@)
}

/// Splits a text at each separator.
pub fn split_chars(chars: &Vec<char>, separator: char) -> (parts: Vec<Vec<char>>)
    ensures
        parts_view(parts@) == split(chars@, separator),
        parts@.len() > 0,
{
    let mut parts: Vec<Vec<char>> = Vec::new();
    let mut current: Vec<char> = Vec::new();
    let mut i: usize = 0;
    assert(chars@.take(0) =~= Seq::<char>::empty());
    assert(parts_view(parts@).push(current@) =~= split(chars@.take(0), separator));
    while i < chars.len()
        invariant
            i <= chars@.len(),
            parts_view(parts@).push(current@) == split(chars@.take(i as int), separator),
        decreases chars.len() - i,
    {
        let ghost whole = parts_view(parts@).push(current@);
        let ghost done = parts_view(parts@);
        assert(chars@.take(i + 1).drop_last() =~= chars@.take(i as int));
        assert(whole.drop_last() =~= done);
        if chars[i] == separator {
            parts.push(current);
            current = Vec::new();
            assert(parts_view(parts@) =~= whole);
        } else {
            current.push(chars[i]);
        }
        i += 1;
    }
    let ghost whole = parts_view(parts@).push(current@);
    parts.push(current);
    assert(parts_view(parts@) =~= whole);
    assert(chars@.take(i as int) =~= chars@);
    parts
}

/// The position of the first occurrence of a character, or the length of the
/// text where there is none.
pub open spec fn position(text: Seq<char>, wanted: char) -> nat
    decreases text.len(),
{
    if text.len() == 0 {
        0
    } else if text[0] == wanted {
        0
    } else {
        1 + position(text.drop_first(), wanted)
    }
}

/// The parts of a text before and after the first separator.
pub open spec fn split_once(text: Seq<char>, separator: char) -> Option<(Seq<char>, Seq<char>)> {
    let at = position(text, separator);
    if at < text.len() {
        Some((text.take(at as int), text.skip(at as int + 1)))
    } else {
        None
    }
}

/// Finds the first occurrence of a character.
pub fn find_char(chars: &Vec<char>, wanted: char) -> (at: usize)
    ensures
        at == position(chars@, wanted),
        at <= chars@.len(),
{
    let mut i: usize = 0;
    assert(chars@.skip(0) =~= chars@);
    while i < chars.len()
        invariant
            i <= chars@.len(),
            position(chars@, wanted) == i + position(chars@.skip(i as int), wanted),
        decreases chars.len() - i,
    {
        if chars[i] == wanted {
            return i;
        }
        assert(chars@.skip(i as int).drop_first() =~= chars@.skip(i + 1));
        i += 1;
    }
    i
}

/// Copies a range of characters.
pub fn range_of(chars: &Vec<char>, from: usize, to: usize) -> (part: Vec<char>)
    requires
        from <= to <= chars@.len(),
    ensures
        part@ == chars@.subrange(from as int, to as int),
{
    let mut part: Vec<char> = Vec::new();
    let mut i: usize = from;
    while i < to
        invariant
            from <= i <= to <= chars@.len(),
            part@ == chars@.subrange(from as int, i as int),
        decreases to - i,
    {
        part.push(chars[i]);
        assert(part@ =~= chars@.subrange(from as int, i + 1));
        i += 1;
    }
    part
}

/// Splits a text at the first separator.
pub fn split_chars_once(chars: &Vec<char>, separator: char) -> (parts: Option<(Vec<char>, Vec<char>)>)
    ensures
        match parts {
            Some(parts) => split_once(chars@, separator) == Some((parts.0@, parts.1@)),
            None => split_once(chars@, separator) is None,
        },
{
    let at = find_char(chars, separator);
    if at < chars.len() {
        let first = range_of(chars, 0, at);
        let second = range_of(chars, at + 1, chars.len());
        assert(first@ =~= chars@.take(at as int));
        assert(second@ =~= chars@.skip(at + 1));
        Some((first, second))
    } else {
        None
    }
}

/// Whether a text holds a character.
pub fn has_char(chars: &Vec<char>, wanted: char) -> (found: bool)
    ensures
        found == chars@.contains(wanted),
{
    let mut i: usize = 0;
    while i < chars.len()
        invariant
            i <= chars@.len(),
            forall|j: int| 0 <= j < i ==> chars@[j] != wanted,
        decreases chars.len() - i,
    {
        if chars[i] == wanted {
            return true;
        }
        i += 1;
    }
    false
}

/// A character with the ASCII capitals made small.
pub open spec fn ascii_lower(c: char) -> char {
    if 'A' <= c && c <= 'Z' {
        (c as u32 + 32) as char
    } else {
        c
    }
}

/// Whether two texts are equal but for the case of ASCII letters.
pub open spec fn equal_ignoring_case(a: Seq<char>, b: Seq<char>) -> bool {
    a.len() == b.len() && forall|i: int|
        0 <= i < a.len() ==> ascii_lower(#[trigger] a[i]) == ascii_lower(b[i])
}

fn lower_char(c: char) -> (lower: u32)
    ensures
        lower == ascii_lower(c) as u32,
{
    if 'A' <= c && c <= 'Z' {
        c as u32 + 32
    } else {
        c as u32
    }
}

/// Whether two texts are equal but for the case of ASCII letters.
pub fn same_ignoring_case(a: &Vec<char>, b: &Vec<char>) -> (same: bool)
    ensures
        same == equal_ignoring_case(a@, b@),
{
    if a.len() != b.len() {
        return false;
    }
    let mut i: usize = 0;
    while i < a.len()
        invariant
            i <= a@.len(),
            a@.len() == b@.len(),
            forall|j: int| 0 <= j < i ==> ascii_lower(#[trigger] a@[j]) == ascii_lower(b@[j]),
        decreases a.len() - i,
    {
        if lower_char(a[i]) != lower_char(b[i]) {
            assert(ascii_lower(a@[i as int]) != ascii_lower(b@[i as int]));
            return false;
        }
        i += 1;
    }
    true
}

/// The last position of a character, counted from one; zero where it does not
/// occur.
pub open spec fn last_position(text: Seq<char>, wanted: char) -> nat
    decreases text.len(),
{
    if text.len() == 0 {
        0
    } else if text.last() == wanted {
        text.len()
    } else {
        last_position(text.drop_last(), wanted)
    }
}

/// The parts of a text before and after the last separator.
pub open spec fn split_last(text: Seq<char>, separator: char) -> Option<(Seq<char>, Seq<char>)> {
    let at = last_position(text, separator);
    if at > 0 {
        Some((text.take(at - 1), text.skip(at as int)))
    } else {
        None
    }
}

proof fn lemma_last_position_bound(text: Seq<char>, wanted: char)
    ensures
        last_position(text, wanted) <= text.len(),
    decreases text.len(),
{
    if text.len() > 0 && text.last() != wanted {
        lemma_last_position_bound(text.drop_last(), wanted);
    }
}

/// The last separator of a text with a separator before a part without one is
/// the one before that part.
pub proof fn lemma_split_last(before: Seq<char>, separator: char, after: Seq<char>)
    requires
        !after.contains(separator),
    ensures
        split_last(before + seq![separator] + after, separator) == Some((before, after)),
    decreases after.len(),
{
    let text = before + seq![separator] + after;
    if after.len() == 0 {
        assert(text.last() == separator);
    } else {
        assert(after[after.len() - 1] == after.last());
        assert(text.last() == after.last());
        let less = after.drop_last();
        assert forall|i: int| 0 <= i < less.len() implies less[i] != separator by {
            assert(after[i] == less[i]);
        }
        lemma_split_last(before, separator, less);
        assert(text.drop_last() =~= before + seq![separator] + less);
        lemma_last_position_bound(text.drop_last(), separator);
        let at = last_position(text.drop_last(), separator);
        let (a, b) = split_last(text.drop_last(), separator)->0;
        assert(a == before);
        assert(a.len() == at - 1);
    }
    let at = last_position(text, separator);
    assert(at == before.len() + 1);
    assert(text.take(at - 1) =~= before);
    assert(text.skip(at as int) =~= after);
}

/// The parts of a text before and after the last separator.
pub fn split_at_last(text: &str, separator: char) -> (parts: Option<(&str, &str)>)
    ensures
        match parts {
            Some((before, after)) => split_last(text@, separator) == Some((before@, after@)),
            None => split_last(text@, separator) is None,
        },
{
    let chars = characters(text);
    let mut at: usize = chars.len();
    assert(chars@.take(chars@.len() as int) =~= chars@);
    while at > 0 && chars[at - 1] != separator
        invariant
            at <= chars@.len(),
            last_position(chars@, separator) == last_position(chars@.take(at as int), separator),
        decreases at,
    {
        assert(chars@.take(at as int).drop_last() =~= chars@.take(at - 1));
        at -= 1;
    }
    if at == 0 {
        return None;
    }
    assert(chars@.take(at as int).last() == separator);
    assert(last_position(chars@, separator) == at);
    assert(text@.subrange(0, at - 1) =~= text@.take(at - 1));
    assert(text@.subrange(at as int, chars@.len() as int) =~= text@.skip(at as int));
    Some((text.substring_char(0, at - 1), text.substring_char(at, chars.len())))
}

} // verus!
