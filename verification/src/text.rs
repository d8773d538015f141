//! Text helpers: comparison, decimal numerals, prefixes and joining.
use vstd::prelude::*;

verus! {

/// Compares two texts through `<str as PartialEq>::eq`. Claimed of it: it answers whether the
/// two texts hold the same characters.
#[verifier::external_body]
pub(crate) fn same_text(a: &str, b: &str) -> (r: bool)
    ensures
        r == (a@ == b@),
{
    a == b
}

/// Whether a character is white space: whether it has Unicode's property `White_Space`.
pub open spec fn is_white_space(c: char) -> bool {
    let n = c as u32;
    ||| 0x9 <= n <= 0xd
    ||| n == 0x20
    ||| n == 0x85
    ||| n == 0xa0
    ||| n == 0x1680
    ||| 0x2000 <= n <= 0x200a
    ||| n == 0x2028
    ||| n == 0x2029
    ||| n == 0x202f
    ||| n == 0x205f
    ||| n == 0x3000
}

/// A text without the white space at its two ends.
pub open spec fn trimmed(text: Seq<char>) -> Seq<char>
    decreases text.len(),
{
    if text.len() == 0 {
        text
    } else if is_white_space(text[0]) {
        trimmed(text.drop_first())
    } else if is_white_space(text.last()) {
        trimmed(text.drop_last())
    } else {
        text
    }
}

/// Removes white space from both ends through `str::trim`. Claimed of it: the text is left without
/// the characters with Unicode's property `White_Space` at its beginning and at its end.
#[verifier::external_body]
pub(crate) fn trim_text(text: &str) -> (r: &str)
    ensures
        r@ == trimmed(text@),
{
    text.trim()
}

/// The lower-case form of an ASCII letter, any other character unchanged.
pub open spec fn ascii_lower(c: char) -> char {
    if 'A' <= c <= 'Z' {
        ((c as u32 + 32) as u32) as char
    } else {
        c
    }
}

/// Lowers the ASCII letters of a text through `str::to_ascii_lowercase`. Claimed of it: the
/// letters `A` to `Z` become `a` to `z`, and nothing else changes.
#[verifier::external_body]
pub(crate) fn lower_text(text: &str) -> (r: String)
    ensures
        r@ == text@.map_values(|c: char| ascii_lower(c)),
{
    text.to_ascii_lowercase()
}

/// The character of one decimal digit.
pub open spec fn digit_char(d: nat) -> char {
    if d == 0 {
        '0'
    } else if d == 1 {
        '1'
    } else if d == 2 {
        '2'
    } else if d == 3 {
        '3'
    } else if d == 4 {
        '4'
    } else if d == 5 {
        '5'
    } else if d == 6 {
        '6'
    } else if d == 7 {
        '7'
    } else if d == 8 {
        '8'
    } else {
        '9'
    }
}

/// The decimal numeral of a number, without leading zeros.
pub open spec fn decimal_text(n: nat) -> Seq<char>
    decreases n,
{
    if n < 10 {
        seq![digit_char(n)]
    } else {
        decimal_text(n / 10).push(digit_char(n % 10))
    }
}

fn digit_text(d: u64) -> (r: &'static str)
    requires
        d < 10,
    ensures
        r@ == seq![digit_char(d as nat)],
{
    proof {
        reveal_strlit("0");
        reveal_strlit("1");
        reveal_strlit("2");
        reveal_strlit("3");
        reveal_strlit("4");
        reveal_strlit("5");
        reveal_strlit("6");
        reveal_strlit("7");
        reveal_strlit("8");
        reveal_strlit("9");
    }
    if d == 0 {
        "0"
    } else if d == 1 {
        "1"
    } else if d == 2 {
        "2"
    } else if d == 3 {
        "3"
    } else if d == 4 {
        "4"
    } else if d == 5 {
        "5"
    } else if d == 6 {
        "6"
    } else if d == 7 {
        "7"
    } else if d == 8 {
        "8"
    } else {
        "9"
    }
}

/// Writes a number as a decimal numeral.
pub fn decimal(n: u64) -> (r: String)
    ensures
        r@ == decimal_text(n as nat),
    decreases n,
{
    if n < 10 {
        digit_text(n).to_owned()
    } else {
        let mut text = decimal(n / 10);
        text.append(digit_text(n % 10));
        proof {
            assert(text@ =~= decimal_text(n as nat));
        }
        text
    }
}

/// Whether a character is a decimal digit.
pub open spec fn is_digit(c: char) -> bool {
    '0' <= c <= '9'
}

/// The number that a run of decimal digits denotes.
pub open spec fn numeral_value(digits: Seq<char>) -> nat
    decreases digits.len(),
{
    if digits.len() == 0 {
        0
    } else {
        (numeral_value(digits.drop_last()) * 10 + (digits.last() as u32 - '0' as u32)) as nat
    }
}

/// The digits of a numeral: what follows an optional leading `+`.
pub open spec fn numeral_digits(text: Seq<char>) -> Seq<char> {
    if text.len() > 0 && text[0] == '+' {
        text.subrange(1, text.len() as int)
    } else {
        text
    }
}

/// The number that a text spells, if it is a numeral: an optional `+`, then one digit or more.
pub open spec fn parsed_number(text: Seq<char>) -> Option<nat> {
    let digits = numeral_digits(text);
    if digits.len() > 0 && (forall|i: int| 0 <= i < digits.len() ==> is_digit(#[trigger] digits[i])) {
        Some(numeral_value(digits))
    } else {
        None
    }
}

/// Reads a number that is at most `max`.
pub fn parse_number(text: &str, max: u64) -> (r: Option<u64>)
    ensures
        match r {
            Some(n) => parsed_number(text@) == Some(n as nat) && n <= max,
            None => parsed_number(text@) is None || parsed_number(text@)->0 > max,
        },
{
    let len: usize = text.unicode_len();
    let start: usize = if len > 0 && text.get_char(0) == '+' {
        1
    } else {
        0
    };
    let ghost digits = numeral_digits(text@);
    if start == len {
        return None;
    }
    let mut i: usize = start;
    let mut value: u64 = 0;
    let mut over: bool = false;
    while i < len
        invariant
            start <= i <= len,
            len == text@.len(),
            start == if text@.len() > 0 && text@[0] == '+' { 1int } else { 0int },
            digits == numeral_digits(text@),
            digits.len() == len - start,
            forall|j: int| 0 <= j < i - start ==> is_digit(#[trigger] digits[j]),
            !over ==> value == numeral_value(digits.take(i - start)) && value <= max,
            over ==> numeral_value(digits.take(i - start)) > max,
        decreases len - i,
    {
        let c: char = text.get_char(i);
        proof {
            assert(digits[i - start] == c);
            assert(digits.take(i - start + 1).drop_last() =~= digits.take(i - start));
            assert(digits.take(i - start + 1).last() == c);
        }
        if !(c >= '0' && c <= '9') {
            assert(!is_digit(digits[i - start]));
            return None;
        }
        let d: u64 = (c as u32 - '0' as u32) as u64;
        if !over {
            let next: u128 = value as u128 * 10 + d as u128;
            if next > max as u128 {
                over = true;
            } else {
                value = next as u64;
            }
        }
        i += 1;
    }
    proof {
        assert(digits.take(len - start) =~= digits);
    }
    if over {
        None
    } else {
        Some(value)
    }
}

/// What is left of a text behind a prefix, if it starts with it.
pub open spec fn without_prefix(text: Seq<char>, prefix: Seq<char>) -> Option<Seq<char>> {
    if prefix.len() <= text.len() && text.take(prefix.len() as int) == prefix {
        Some(text.skip(prefix.len() as int))
    } else {
        None
    }
}

/// The rest of `text` behind `prefix`, if `text` starts with it.
pub fn strip_text_prefix<'a>(text: &'a str, prefix: &str) -> (r: Option<&'a str>)
    ensures
        match r {
            Some(rest) => without_prefix(text@, prefix@) == Some(rest@),
            None => without_prefix(text@, prefix@) is None,
        },
{
    let len: usize = text.unicode_len();
    let width: usize = prefix.unicode_len();
    if width > len {
        return None;
    }
    let mut i: usize = 0;
    while i < width
        invariant
            i <= width <= len,
            len == text@.len(),
            width == prefix@.len(),
            text@.take(i as int) =~= prefix@.take(i as int),
        decreases width - i,
    {
        if text.get_char(i) != prefix.get_char(i) {
            proof {
                assert(text@.take(width as int)[i as int] == text@[i as int]);
            }
            return None;
        }
        i += 1;
    }
    proof {
        assert(prefix@.take(width as int) =~= prefix@);
    }
    let rest = text.substring_char(width, len);
    proof {
        assert(rest@ =~= text@.skip(width as int));
    }
    Some(rest)
}

/// `head` followed by `tail`.
pub fn joined(head: &str, tail: &str) -> (r: String)
    ensures
        r@ == head@ + tail@,
{
    let mut text = head.to_owned();
    text.append(tail);
    text
}

/// `head`, `middle` and `tail` in a row.
pub fn joined3(head: &str, middle: &str, tail: &str) -> (r: String)
    ensures
        r@ == head@ + middle@ + tail@,
{
    let mut text = head.to_owned();
    text.append(middle);
    text.append(tail);
    text
}

/// What is left of a text behind a prefix is what, put behind the prefix, makes the text up again;
/// nothing is left exactly if no text does.
pub proof fn prefix_and_rest_make_the_text(text: Seq<char>, prefix: Seq<char>, rest: Seq<char>)
    ensures
        without_prefix(text, prefix) == Some(rest) <==> text == prefix + rest,
{
    if text == prefix + rest {
        assert(text.take(prefix.len() as int) =~= prefix);
        assert(text.skip(prefix.len() as int) =~= rest);
    }
    if without_prefix(text, prefix) == Some(rest) {
        assert(text =~= prefix + rest);
    }
}

/// The number of a numeral is the one that it was made from.
pub proof fn numerals_are_read_back(n: nat)
    ensures
        parsed_number(decimal_text(n)) == Some(n),
        decimal_text(n).len() > 0,
        n >= 10 ==> decimal_text(n)[0] != '0',
        forall|i: int| 0 <= i < decimal_text(n).len() ==> '0' <= #[trigger] decimal_text(n)[i] <= '9',
    decreases n,
{
    let text = decimal_text(n);
    if n >= 10 {
        numerals_are_read_back(n / 10);
        let fewer = decimal_text(n / 10);
        assert(text.drop_last() =~= fewer);
        assert(numeral_digits(fewer) == fewer);
        assert(text[0] == fewer[0]);
        assert forall|i: int| 0 <= i < text.len() implies '0' <= #[trigger] text[i] <= '9' by {
            if i < fewer.len() {
                assert(text[i] == fewer[i]);
            }
        }
        if n / 10 < 10 {
            assert(fewer[0] == digit_char(n / 10));
        }
        assert(numeral_digits(text) == text);
    } else {
        assert(text.drop_last() =~= Seq::<char>::empty());
        assert(numeral_value(text.drop_last()) == 0);
        assert(numeral_digits(text) == text);
    }
    assert(numeral_value(text) == n);
}

/// A numeral with one digit more stands for ten times the number and the digit. A plus sign in front
/// changes nothing, and anything but digits behind it spells no number.
pub proof fn numerals_grow_by_tens(text: Seq<char>, digit: char)
    ensures
        '0' <= digit <= '9' && parsed_number(text) is Some ==> parsed_number(text.push(digit)) == Some(
            (parsed_number(text)->0 * 10 + (digit as u32 - '0' as u32)) as nat,
        ),
        !('0' <= digit <= '9') && text.len() > 0 ==> parsed_number(text.push(digit)) is None,
        parsed_number(Seq::empty()) is None,
{
    let longer = text.push(digit);
    if parsed_number(text) is Some && '0' <= digit <= '9' {
        assert(longer[0] == text[0]);
        assert(numeral_digits(longer) =~= numeral_digits(text).push(digit));
        assert(numeral_digits(longer).drop_last() =~= numeral_digits(text));
    }
    if !('0' <= digit <= '9') && text.len() > 0 {
        assert(numeral_digits(longer).last() == digit);
        assert(!is_digit(numeral_digits(longer)[numeral_digits(longer).len() - 1]));
    }
}

/// Whether only white space stands from one place of a text to another.
pub open spec fn is_blank(text: Seq<char>, from: int, to: int) -> bool {
    forall|i: int| from <= i < to ==> is_white_space(#[trigger] text[i])
}

proof fn trimmed_stretch(text: Seq<char>) -> (r: (int, int))
    ensures
        0 <= r.0 <= r.1 <= text.len(),
        trimmed(text) == text.subrange(r.0, r.1),
        is_blank(text, 0, r.0),
        is_blank(text, r.1, text.len() as int),
        r.0 < r.1 ==> !is_white_space(text[r.0]) && !is_white_space(text[r.1 - 1]),
    decreases text.len(),
{
    if text.len() == 0 {
        assert(text.subrange(0, 0) =~= text);
        (0int, 0int)
    } else if is_white_space(text[0]) {
        let rest = text.drop_first();
        let (start, end) = trimmed_stretch(rest);
        assert(text.subrange(start + 1, end + 1) =~= rest.subrange(start, end));
        assert forall|i: int| 0 <= i < start + 1 implies is_white_space(#[trigger] text[i]) by {
            if i > 0 {
                assert(is_white_space(rest[i - 1]));
            }
        }
        assert forall|i: int| end + 1 <= i < text.len() implies is_white_space(#[trigger] text[i]) by {
            assert(is_white_space(rest[i - 1]));
        }
        (start + 1, end + 1)
    } else if is_white_space(text.last()) {
        let rest = text.drop_last();
        let (start, end) = trimmed_stretch(rest);
        assert(text.subrange(start, end) =~= rest.subrange(start, end));
        assert forall|i: int| 0 <= i < start implies is_white_space(#[trigger] text[i]) by {
            assert(is_white_space(rest[i]));
        }
        assert forall|i: int| end <= i < text.len() implies is_white_space(#[trigger] text[i]) by {
            if i < rest.len() {
                assert(is_white_space(rest[i]));
            }
        }
        (start, end)
    } else {
        assert(text.subrange(0, text.len() as int) =~= text);
        (0int, text.len() as int)
    }
}

/// A trimmed text is a stretch of the text: before and behind it stands only white space, and it has
/// none at its two ends.
pub proof fn trimming_takes_white_space_off_the_ends(text: Seq<char>)
    ensures
        exists|start: int, end: int|
            0 <= start <= end <= text.len() && trimmed(text) == #[trigger] text.subrange(start, end) && is_blank(
                text,
                0,
                start,
            ) && is_blank(text, end, text.len() as int),
        trimmed(text).len() > 0 ==> !is_white_space(trimmed(text)[0]) && !is_white_space(
            trimmed(text).last(),
        ),
{
    let (start, end) = trimmed_stretch(text);
    assert(trimmed(text) == text.subrange(start, end));
}

/// Among the characters of ASCII only the tabulators, the line and form feeds, the carriage return and
/// the space are white space; no letter, digit or sign is.
pub proof fn ascii_white_space(c: char)
    requires
        (c as u32) < 128,
    ensures
        is_white_space(c) <==> c as u32 == 32 || 9 <= c as u32 <= 13,
{
}

/// Lowering a character changes the letters `A` to `Z` only, each to the letter as far behind `a` as it
/// was behind `A`.
pub proof fn lowering_changes_capitals_only(c: char)
    ensures
        !('A' <= c <= 'Z') ==> ascii_lower(c) == c,
        'A' <= c <= 'Z' ==> 'a' <= ascii_lower(c) <= 'z' && ascii_lower(c) as u32 - 'a' as u32 == c as u32
            - 'A' as u32,
{
}

} // verus!
