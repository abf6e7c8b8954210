//! Searching text, and writing and reading unsigned decimal numbers.

use vstd::prelude::*;

verus! {

/// Whether `pattern` stands in `text` from position `at` on.
pub open spec fn occurs_at(text: Seq<char>, pattern: Seq<char>, at: int) -> bool {
    0 <= at && at + pattern.len() <= text.len() && text.subrange(at, at + pattern.len()) == pattern
}

/// Whether `pattern` is a substring of `text`. The empty pattern is a substring of every text.
pub open spec fn contains_text(text: Seq<char>, pattern: Seq<char>) -> bool {
    exists|at: int| occurs_at(text, pattern, at)
}

/// The characters of `text`, in order.
pub fn chars_of(text: &str) -> (chars: Vec<char>)
    ensures
        chars@ == text@,
{
    let mut chars: Vec<char> = Vec::new();
    for c in it: text.chars()
        invariant
            chars@ == it.seq().take(it.index() as int),
            it.seq() == text@,
    {
        chars.push(c);
    }
    chars
}

/// Whether `pattern` stands in `text` from position `at` on.
fn matches_at(text: &Vec<char>, pattern: &Vec<char>, at: usize) -> (found: bool)
    requires
        at + pattern@.len() <= text@.len(),
    ensures
        found == occurs_at(text@, pattern@, at as int),
{
    let mut i: usize = 0;
    assert(text.len() <= usize::MAX);
    while i < pattern.len()
        invariant
            i <= pattern@.len(),
            at + pattern@.len() <= text@.len() <= usize::MAX,
            forall|j: int| 0 <= j < i ==> text@[at + j] == pattern@[j],
        decreases pattern@.len() - i,
    {
        if text[at + i] != pattern[i] {
            assert(text@.subrange(at as int, at + pattern@.len())[i as int] != pattern@[i as int]);
            return false;
        }
        i = i + 1;
    }
    assert(text@.subrange(at as int, at + pattern@.len()) =~= pattern@);
    true
}

/// Whether `pattern` is a substring of `text`.
pub fn text_contains(text: &str, pattern: &str) -> (found: bool)
    ensures
        found == contains_text(text@, pattern@),
{
    let haystack: Vec<char> = chars_of(text);
    let needle: Vec<char> = chars_of(pattern);
    if needle.len() > haystack.len() {
        return false;
    }
    let last: usize = haystack.len() - needle.len();
    let mut at: usize = 0;
    loop
        invariant
            haystack@ == text@,
            needle@ == pattern@,
            at <= last == text@.len() - pattern@.len(),
            forall|j: int| 0 <= j < at ==> !occurs_at(text@, pattern@, j),
        decreases last - at,
    {
        if matches_at(&haystack, &needle, at) {
            return true;
        }
        if at == last {
            return false;
        }
        at = at + 1;
    }
}

/// The decimal digit for `d`, where `d` is below ten.
pub open spec fn digit_char(d: nat) -> char {
    (48 + d) as char
}

/// The number that the decimal digit `c` stands for.
pub open spec fn digit_value(c: char) -> nat {
    (c as int - 48) as nat
}

/// Whether `c` is one of the ten decimal digits.
pub open spec fn is_digit(c: char) -> bool {
    '0' <= c <= '9'
}

/// `n` in decimal, without leading zeros.
pub open spec fn decimal(n: nat) -> Seq<char>
    decreases n,
{
    if n < 10 {
        seq![digit_char(n)]
    } else {
        decimal(n / 10).push(digit_char(n % 10))
    }
}

/// Whether every character of `digits` is a decimal digit.
pub open spec fn all_digits(digits: Seq<char>) -> bool {
    forall|i: int| 0 <= i < digits.len() ==> is_digit(#[trigger] digits[i])
}

/// The number that a run of decimal digits stands for.
pub open spec fn digits_value(digits: Seq<char>) -> nat
    decreases digits.len(),
{
    if digits.len() == 0 {
        0
    } else {
        10 * digits_value(digits.drop_last()) + digit_value(digits.last())
    }
}

/// `text` without its sign, where it starts with a plus sign.
pub open spec fn unsigned_part(text: Seq<char>) -> Seq<char> {
    if text.len() > 0 && text[0] == '+' {
        text.skip(1)
    } else {
        text
    }
}

/// What `text` reads as: one or more decimal digits, after at most one plus sign, for a number
/// that fits into 32 bits. Anything else, surrounding blanks included, is not a number.
pub open spec fn parsed_u32(text: Seq<char>) -> Option<u32> {
    let digits = unsigned_part(text);
    if digits.len() > 0 && all_digits(digits) && digits_value(digits) <= u32::MAX {
        Some(digits_value(digits) as u32)
    } else {
        None
    }
}

/// The decimal digit for `d`, as text.
fn digit_text(d: u32) -> (text: &'static str)
    requires
        d < 10,
    ensures
        text@ == seq![digit_char(d as nat)],
{
    proof {
        reveal_strlit("0");
        reveal_strlit("1");
        reveal_strlit("2");
        reveal_strlit("3");
        reveal_strlit("4");
        reveal_strlit("5");
        reveal_strlit("6");
        reveal_strlit("7");
        reveal_strlit("8");
        reveal_strlit("9");
    }
    let text: &'static str = match d {
        0 => "0",
        1 => "1",
        2 => "2",
        3 => "3",
        4 => "4",
        5 => "5",
        6 => "6",
        7 => "7",
        8 => "8",
        _ => "9",
    };
    assert(text@ =~= seq![digit_char(d as nat)]);
    text
}

/// `n` in decimal, without leading zeros.
pub fn u32_to_text(n: u32) -> (text: String)
    ensures
        text@ == decimal(n as nat),
    decreases n,
{
    if n < 10 {
        digit_text(n).to_owned()
    } else {
        let mut text: String = u32_to_text(n / 10);
        text.append(digit_text(n % 10));
        assert(text@ =~= decimal(n as nat));
        text
    }
}

/// A run of digits stands for at least as much as each of its beginnings.
proof fn lemma_prefix_value(digits: Seq<char>, n: int)
    requires
        0 <= n <= digits.len(),
    ensures
        digits_value(digits.take(n)) <= digits_value(digits),
    decreases digits.len(),
{
    if n == digits.len() {
        assert(digits.take(n) =~= digits);
    } else {
        lemma_prefix_value(digits.drop_last(), n);
        assert(digits.drop_last().take(n) =~= digits.take(n));
    }
}

/// Reads `text` as an unsigned decimal number of 32 bits.
pub fn parse_u32(text: &str) -> (number: Option<u32>)
    ensures
        number == parsed_u32(text@),
{
    let chars: Vec<char> = chars_of(text);
    let start: usize = if chars.len() > 0 && chars[0] == '+' { 1 } else { 0 };
    let ghost digits = unsigned_part(text@);
    assert(digits =~= chars@.skip(start as int));
    if chars.len() == start {
        return None;
    }
    let mut i: usize = start;
    let mut value: u32 = 0;
    assert(digits.take(0) =~= Seq::<char>::empty());
    while i < chars.len()
        invariant
            start <= i <= chars@.len(),
            digits == chars@.skip(start as int),
            digits == unsigned_part(text@),
            all_digits(digits.take(i - start)),
            value == digits_value(digits.take(i - start)),
        decreases chars@.len() - i,
    {
        let c: char = chars[i];
        assert(digits[i - start] == c);
        if c < '0' || c > '9' {
            return None;
        }
        let ghost prefix = digits.take(i + 1 - start);
        let d: u32 = c as u32 - '0' as u32;
        proof {
            assert(prefix.drop_last() =~= digits.take(i - start));
            assert(prefix.last() == c);
            lemma_prefix_value(digits, i + 1 - start);
        }
        let next: u64 = value as u64 * 10 + d as u64;
        assert(next == digits_value(prefix));
        if next > u32::MAX as u64 {
            return None;
        }
        value = next as u32;
        assert forall|j: int| 0 <= j < prefix.len() implies is_digit(#[trigger] prefix[j]) by {
            if j < i - start {
                assert(digits.take(i - start)[j] == prefix[j]);
            }
        }
        i = i + 1;
    }
    assert(digits.take(i - start) =~= digits);
    Some(value)
}

/// `decimal` writes at least one digit, and nothing but digits that stand for the number.
proof fn lemma_decimal(n: nat)
    ensures
        decimal(n).len() > 0,
        all_digits(decimal(n)),
        digits_value(decimal(n)) == n,
    decreases n,
{
    if n < 10 {
        assert(decimal(n).drop_last() =~= Seq::<char>::empty());
        assert(digits_value(decimal(n).drop_last()) == 0);
    } else {
        lemma_decimal(n / 10);
        assert(decimal(n).drop_last() =~= decimal(n / 10));
    }
}

/// Reading what was written gives the number back.
pub proof fn law_decimal_round_trip(n: u32)
    ensures
        parsed_u32(decimal(n as nat)) == Some(n),
{
    lemma_decimal(n as nat);
    assert(is_digit(decimal(n as nat)[0]));
}

/// A text holds a pattern that has any text before it and any text after it.
pub proof fn law_pattern_is_found_anywhere(
    before: Seq<char>,
    pattern: Seq<char>,
    after: Seq<char>,
)
    ensures
        contains_text(before + pattern + after, pattern),
{
    let text = before + pattern + after;
    let at: int = before.len() as int;
    assert(text.subrange(at, at + pattern.len()) =~= pattern);
    assert(occurs_at(text, pattern, at));
}

/// A text holds a pattern exactly where the text can be taken apart into something before the
/// pattern, the pattern, and something after it.
pub proof fn law_found_pattern_stands_in_text(text: Seq<char>, pattern: Seq<char>)
    ensures
        contains_text(text, pattern) <==> exists|before: Seq<char>, after: Seq<char>|
            text == #[trigger] (before + pattern + after),
{
    if contains_text(text, pattern) {
        let at: int = choose|at: int| occurs_at(text, pattern, at);
        let before = text.take(at);
        let after = text.skip(at + pattern.len());
        assert forall|i: int| at <= i < at + pattern.len() implies text[i] == pattern[i - at] by {
            assert(text.subrange(at, at + pattern.len())[i - at] == pattern[i - at]);
        }
        assert(text =~= before + pattern + after);
    }
    if exists|before: Seq<char>, after: Seq<char>| text == #[trigger] (before + pattern + after) {
        let (before, after) = choose|before: Seq<char>, after: Seq<char>|
            text == #[trigger] (before + pattern + after);
        law_pattern_is_found_anywhere(before, pattern, after);
    }
}

/// A number below ten is written as its one digit, and any other as what comes before its last digit,
/// written down, and that digit.
pub proof fn law_last_digit(n: nat, digit: nat)
    requires
        digit < 10,
    ensures
        decimal(digit).len() == 1,
        decimal(digit)[0] as int == '0' as int + digit,
        n > 0 ==> decimal(10 * n + digit) == decimal(n) + decimal(digit),
{
    if n > 0 {
        assert((10 * n + digit) / 10 == n);
        assert((10 * n + digit) % 10 == digit);
        assert(decimal(10 * n + digit) =~= decimal(n) + decimal(digit));
    }
}

/// No text is no number, and a single character is one where it is a digit.
pub proof fn law_one_character(c: char)
    ensures
        parsed_u32(seq![]) is None,
        parsed_u32(seq![c]) is Some <==> '0' <= c <= '9',
        parsed_u32(seq![c]) matches Some(number) ==> number == c as int - '0' as int,
{
    let text = seq![c];
    assert(text[0] == c);
    assert(text.drop_last() =~= Seq::<char>::empty());
    assert(digits_value(text.drop_last()) == 0);
    if c == '+' {
        assert(unsigned_part(text).len() == 0);
    } else {
        assert(is_digit(text[0]) <==> all_digits(text));
    }
}

/// A further digit makes a number ten times as large and adds to it, up to what fits into 32 bits. Any
/// other further character, or one more behind what is no number, leaves no number.
pub proof fn law_further_character(text: Seq<char>, c: char)
    requires
        text.len() > 0,
        text != seq!['+'],
    ensures
        parsed_u32(text.push(c)) is Some <==> {
            &&& '0' <= c <= '9'
            &&& parsed_u32(text) matches Some(number) && 10 * number + (c as int - '0' as int)
                <= u32::MAX
        },
        parsed_u32(text.push(c)) matches Some(more) ==> (parsed_u32(text) matches Some(number)
            && more == 10 * number + (c as int - '0' as int)),
{
    let digits = unsigned_part(text);
    let longer = unsigned_part(text.push(c));
    assert(longer =~= digits.push(c));
    assert(longer.drop_last() =~= digits);
    if text[0] == '+' && text.len() == 1 {
        assert(text =~= seq!['+']);
    }
    assert(longer[digits.len() as int] == c);
    assert(all_digits(longer) <==> all_digits(digits) && is_digit(c)) by {
        if all_digits(longer) {
            assert forall|i: int| 0 <= i < digits.len() implies is_digit(#[trigger] digits[i]) by {
                assert(longer[i] == digits[i]);
            }
        }
    }
}

/// One plus sign before a number changes nothing, and a second one leaves no number.
pub proof fn law_plus_sign(text: Seq<char>)
    ensures
        text.len() == 0 || text[0] != '+' ==> parsed_u32(seq!['+'] + text) == parsed_u32(text),
        text.len() > 0 && text[0] == '+' ==> parsed_u32(seq!['+'] + text) is None,
{
    let signed = seq!['+'] + text;
    assert(unsigned_part(signed) =~= text);
    if text.len() > 0 && text[0] == '+' {
        assert(!is_digit(text[0]));
    }
}

} // verus!
