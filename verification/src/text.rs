//! Text as a sequence of characters, and the pieces that every message is
//! written with: a number in decimal digits, a string between quotes, and a
//! list of pitches.
//!
//! Each piece has a function that says how a value is written and a function
//! that reads a text. Reading what was written gives the value back; the
//! lemmas here say so.

use vstd::prelude::*;

verus! {

/// `String::push` of std appends one character to the end of the string.
pub assume_specification[ String::push ](text: &mut String, ch: char)
    ensures
        final(text)@ == old(text)@.push(ch),
;

/// The characters of `text`.
pub(crate) fn chars_of(text: &str) -> (chars: Vec<char>)
    ensures
        chars@ == text@,
{
    broadcast use vstd::string::group_string_axioms;

    let mut chars: Vec<char> = Vec::new();
    let rest = text.chars();
    for ch in it: rest
        invariant
            chars@ == it.history(),
            it.seq() == text@,
    {
        chars.push(ch);
    }
    assert(chars@ =~= text@);
    chars
}

/// The string of the characters from `from` up to `to`.
pub(crate) fn text_of(chars: &Vec<char>, from: usize, to: usize) -> (text: String)
    requires
        from <= to <= chars.len(),
    ensures
        text@ == chars@.subrange(from as int, to as int),
{
    let mut text = String::new();
    let mut i: usize = from;
    while i < to
        invariant
            from <= i <= to <= chars.len(),
            text@ == chars@.subrange(from as int, i as int),
        decreases to - i,
    {
        text.push(chars[i]);
        assert(chars@.subrange(from as int, i as int + 1) =~= chars@.subrange(
            from as int,
            i as int,
        ).push(chars@[i as int]));
        i = i + 1;
    }
    text
}

/// Appends the characters of `more` to `out`.
pub(crate) fn push_all(out: &mut Vec<char>, more: &Vec<char>)
    ensures
        final(out)@ == old(out)@ + more@,
{
    let mut i: usize = 0;
    while i < more.len()
        invariant
            i <= more.len(),
            out@ == old(out)@ + more@.take(i as int),
        decreases more.len() - i,
    {
        out.push(more[i]);
        assert(more@.take(i as int + 1) =~= more@.take(i as int).push(more@[i as int]));
        assert(out@ =~= old(out)@ + more@.take(i as int + 1));
        i = i + 1;
    }
    assert(more@.take(more.len() as int) =~= more@);
}

/// Appends the characters of `more` to `out`.
pub(crate) fn push_str(out: &mut Vec<char>, more: &str)
    ensures
        final(out)@ == old(out)@ + more@,
{
    let chars = chars_of(more);
    push_all(out, &chars);
}

/// Whether two texts are the same.
pub(crate) fn same_text(left: &Vec<char>, right: &Vec<char>) -> (same: bool)
    ensures
        same == (left@ == right@),
{
    if left.len() != right.len() {
        return false;
    }
    let mut i: usize = 0;
    while i < left.len()
        invariant
            i <= left.len(),
            left.len() == right.len(),
            forall|j: int| 0 <= j < i ==> left@[j] == right@[j],
        decreases left.len() - i,
    {
        if left[i] != right[i] {
            return false;
        }
        i = i + 1;
    }
    assert(left@ =~= right@);
    true
}

/// Looks for `head` at the beginning of `chars` and for `tail` at its end,
/// and gives the bounds of what stands between them.
pub(crate) fn strip(chars: &Vec<char>, head: &str, tail: &str) -> (middle: Option<(usize, usize)>)
    ensures
        match middle {
            Some((start, end)) => start <= end <= chars.len() && start == head@.len() && end
                + tail@.len() == chars.len() && chars@ == head@ + chars@.subrange(
                start as int,
                end as int,
            ) + tail@,
            None => forall|between: Seq<char>| chars@ != head@ + between + tail@,
        },
{
    let head_chars = chars_of(head);
    let tail_chars = chars_of(tail);
    if chars.len() < head_chars.len() || chars.len() - head_chars.len() < tail_chars.len() {
        assert forall|between: Seq<char>| chars@ != head@ + between + tail@ by {
            assert((head@ + between + tail@).len() == head@.len() + between.len() + tail@.len());
        }
        return None;
    }
    let start = head_chars.len();
    let end = chars.len() - tail_chars.len();
    let mut i: usize = 0;
    while i < head_chars.len()
        invariant
            i <= head_chars.len() <= chars.len(),
            head_chars@ == head@,
            forall|j: int| 0 <= j < i ==> chars@[j] == head@[j],
        decreases head_chars.len() - i,
    {
        if chars[i] != head_chars[i] {
            assert forall|between: Seq<char>| chars@ != head@ + between + tail@ by {
                assert((head@ + between + tail@)[i as int] == head@[i as int]);
            }
            return None;
        }
        i = i + 1;
    }
    let mut k: usize = 0;
    while k < tail_chars.len()
        invariant
            k <= tail_chars.len(),
            tail_chars@ == tail@,
            head_chars@ == head@,
            start == head_chars.len(),
            end + tail_chars.len() == chars.len(),
            start <= end,
            forall|j: int| 0 <= j < head@.len() ==> chars@[j] == head@[j],
            forall|j: int| 0 <= j < k ==> chars@[end + j] == tail@[j],
        decreases tail_chars.len() - k,
    {
        if chars[end + k] != tail_chars[k] {
            assert forall|between: Seq<char>| chars@ != head@ + between + tail@ by {
                let whole = head@ + between + tail@;
                if chars@ == whole {
                    assert(whole.len() == head@.len() + between.len() + tail@.len());
                    assert(whole[head@.len() + between.len() + k] == tail@[k as int]);
                }
            }
            return None;
        }
        k = k + 1;
    }
    assert(chars@ =~= head@ + chars@.subrange(start as int, end as int) + tail@);
    Some((start, end))
}

/// What stands between a head and a tail is one text only.
pub proof fn lemma_between(head: Seq<char>, left: Seq<char>, right: Seq<char>, tail: Seq<char>)
    requires
        head + left + tail == head + right + tail,
    ensures
        left == right,
{
    let a = head + left + tail;
    let b = head + right + tail;
    assert(a.len() == head.len() + left.len() + tail.len());
    assert(b.len() == head.len() + right.len() + tail.len());
    assert forall|i: int| 0 <= i < left.len() implies left[i] == right[i] by {
        assert(a[head.len() + i] == left[i]);
        assert(b[head.len() + i] == right[i]);
    }
    assert(left =~= right);
}

/// The character of a digit in base 16; up to 9 it is the decimal digit.
pub open spec fn digit_char(digit: nat) -> char {
    if digit == 0 {
        '0'
    } else if digit == 1 {
        '1'
    } else if digit == 2 {
        '2'
    } else if digit == 3 {
        '3'
    } else if digit == 4 {
        '4'
    } else if digit == 5 {
        '5'
    } else if digit == 6 {
        '6'
    } else if digit == 7 {
        '7'
    } else if digit == 8 {
        '8'
    } else if digit == 9 {
        '9'
    } else if digit == 10 {
        'a'
    } else if digit == 11 {
        'b'
    } else if digit == 12 {
        'c'
    } else if digit == 13 {
        'd'
    } else if digit == 14 {
        'e'
    } else {
        'f'
    }
}

/// The digit in base 16 that a character stands for.
pub open spec fn digit_value(ch: char) -> Option<nat> {
    match ch {
        '0' => Some(0),
        '1' => Some(1),
        '2' => Some(2),
        '3' => Some(3),
        '4' => Some(4),
        '5' => Some(5),
        '6' => Some(6),
        '7' => Some(7),
        '8' => Some(8),
        '9' => Some(9),
        'a' => Some(10),
        'b' => Some(11),
        'c' => Some(12),
        'd' => Some(13),
        'e' => Some(14),
        'f' => Some(15),
        _ => None,
    }
}

/// The decimal digit that a character stands for.
pub open spec fn decimal_value(ch: char) -> Option<nat> {
    match digit_value(ch) {
        Some(digit) => if digit < 10 {
            Some(digit)
        } else {
            None
        },
        None => None,
    }
}

/// The character of a digit below 16.
pub(crate) fn digit_to_char(digit: u8) -> (ch: char)
    requires
        digit < 16,
    ensures
        ch == digit_char(digit as nat),
{
    match digit {
        0 => '0',
        1 => '1',
        2 => '2',
        3 => '3',
        4 => '4',
        5 => '5',
        6 => '6',
        7 => '7',
        8 => '8',
        9 => '9',
        10 => 'a',
        11 => 'b',
        12 => 'c',
        13 => 'd',
        14 => 'e',
        _ => 'f',
    }
}

/// The digit in base 16 that a character stands for.
pub(crate) fn char_to_digit(ch: char) -> (digit: Option<u8>)
    ensures
        match digit {
            Some(value) => digit_value(ch) == Some(value as nat) && value < 16,
            None => digit_value(ch).is_none(),
        },
{
    match ch {
        '0' => Some(0),
        '1' => Some(1),
        '2' => Some(2),
        '3' => Some(3),
        '4' => Some(4),
        '5' => Some(5),
        '6' => Some(6),
        '7' => Some(7),
        '8' => Some(8),
        '9' => Some(9),
        'a' => Some(10),
        'b' => Some(11),
        'c' => Some(12),
        'd' => Some(13),
        'e' => Some(14),
        'f' => Some(15),
        _ => None,
    }
}

/// A number in decimal digits, without leading zeros.
pub open spec fn decimal(number: nat) -> Seq<char>
    decreases number,
{
    if number < 10 {
        seq![digit_char(number)]
    } else {
        decimal(number / 10).push(digit_char(number % 10))
    }
}

/// The number that a text of decimal digits stands for, whether it begins
/// with zeros or not.
pub open spec fn number(text: Seq<char>) -> Option<nat>
    decreases text.len(),
{
    if text.len() == 0 {
        None
    } else {
        match decimal_value(text.last()) {
            None => None,
            Some(low) => if text.len() == 1 {
                Some(low)
            } else {
                match number(text.drop_last()) {
                    Some(high) => Some(high * 10 + low),
                    None => None,
                }
            },
        }
    }
}

/// A number that is written and read again is the same number.
pub proof fn lemma_number_of_decimal(value: nat)
    ensures
        number(decimal(value)) == Some(value),
        decimal(value).len() > 0,
        forall|i: int|
            0 <= i < decimal(value).len() ==> decimal_value(#[trigger] decimal(value)[i]).is_some(),
    decreases value,
{
    if value >= 10 {
        lemma_number_of_decimal(value / 10);
        let text = decimal(value);
        assert(text.drop_last() =~= decimal(value / 10));
        assert(text.last() == digit_char(value % 10));
    }
}

/// Where a text is a number, so is every beginning of it, and a smaller one.
proof fn lemma_number_prefix(text: Seq<char>, length: int)
    requires
        1 <= length <= text.len(),
    ensures
        number(text) matches Some(whole) ==> number(text.take(length)) matches Some(part) && part
            <= whole,
    decreases text.len(),
{
    if length < text.len() {
        assert(text.drop_last().take(length) =~= text.take(length));
        lemma_number_prefix(text.drop_last(), length);
    } else {
        assert(text.take(length) =~= text);
    }
}

/// Writes `value` in decimal digits at the end of `out`.
pub(crate) fn write_number(out: &mut Vec<char>, value: u64)
    ensures
        final(out)@ == old(out)@ + decimal(value as nat),
    decreases value,
{
    if value >= 10 {
        write_number(out, value / 10);
    }
    out.push(digit_to_char((value % 10) as u8));
    assert(out@ =~= old(out)@ + decimal(value as nat));
}

/// Reads the characters from `from` up to `to` as a number that is at most
/// `limit`.
pub(crate) fn read_number(chars: &Vec<char>, from: usize, to: usize, limit: u64) -> (value: Option<u64>)
    requires
        from <= to <= chars.len(),
        limit <= 1_000_000_000_000,
    ensures
        value == (match number(chars@.subrange(from as int, to as int)) {
            Some(read) => if read <= limit {
                Some(read as u64)
            } else {
                None
            },
            None => None,
        }),
{
    let ghost text = chars@.subrange(from as int, to as int);
    if from == to {
        return None;
    }
    let mut value: u64 = 0;
    let mut i: usize = from;
    while i < to
        invariant
            from <= i <= to <= chars.len(),
            text == chars@.subrange(from as int, to as int),
            value <= limit <= 1_000_000_000_000,
            i > from ==> number(text.take(i - from)) == Some(value as nat),
            i == from ==> value == 0,
        decreases to - i,
    {
        let ghost part = text.take(i - from + 1);
        proof {
            assert(part.last() == chars@[i as int]);
            assert(part.drop_last() =~= text.take(i - from));
            lemma_number_prefix(text, i - from + 1);
        }
        let digit = match char_to_digit(chars[i]) {
            Some(digit) => digit,
            None => {
                return None;
            },
        };
        if digit >= 10 {
            return None;
        }
        value = value * 10 + digit as u64;
        if value > limit {
            return None;
        }
        i = i + 1;
    }
    assert(text.take(to - from) =~= text);
    Some(value)
}

/// The character with the given code below 32.
pub open spec fn control(code: nat) -> char {
    (code as u8) as char
}

/// How one character of a string is written: a quote and a backslash get a
/// backslash before them, a control character is written with its code, and
/// every other character stands for itself.
pub open spec fn escape(ch: char) -> Seq<char> {
    if ch == '"' {
        seq!['\\', '"']
    } else if ch == '\\' {
        seq!['\\', '\\']
    } else if (ch as u32) < 32 {
        seq![
            '\\',
            'u',
            '0',
            '0',
            digit_char(((ch as u32) / 16) as nat),
            digit_char(((ch as u32) % 16) as nat),
        ]
    } else {
        seq![ch]
    }
}

/// How the characters of a string are written.
pub open spec fn escaped(text: Seq<char>) -> Seq<char>
    decreases text.len(),
{
    if text.len() == 0 {
        Seq::empty()
    } else {
        escape(text[0]) + escaped(text.drop_first())
    }
}

/// The character that an escape at the beginning of `text` stands for, and
/// the length of the escape.
pub open spec fn escape_at(text: Seq<char>) -> Option<(char, int)> {
    if text.len() == 0 {
        None
    } else if text[0] != '\\' {
        Some((text[0], 1))
    } else if text.len() >= 2 && (text[1] == '"' || text[1] == '\\') {
        Some((text[1], 2))
    } else if text.len() >= 6 && text[1] == 'u' && text[2] == '0' && text[3] == '0' {
        match (digit_value(text[4]), digit_value(text[5])) {
            (Some(high), Some(low)) => if high < 2 {
                Some((control(high * 16 + low), 6))
            } else {
                None
            },
            _ => None,
        }
    } else {
        None
    }
}

/// The string that a text of escapes stands for.
pub open spec fn unescaped(text: Seq<char>) -> Option<Seq<char>>
    decreases text.len(),
{
    if text.len() == 0 {
        Some(Seq::empty())
    } else {
        match escape_at(text) {
            Some((ch, length)) => match unescaped(text.skip(length)) {
                Some(rest) => Some(seq![ch] + rest),
                None => None,
            },
            None => None,
        }
    }
}

/// An escape that is read again is the character that was written.
pub proof fn lemma_escape_at(ch: char, rest: Seq<char>)
    ensures
        escape_at(escape(ch) + rest) == Some((ch, escape(ch).len() as int)),
        (escape(ch) + rest).skip(escape(ch).len() as int) == rest,
{
    let text = escape(ch) + rest;
    assert(text.skip(escape(ch).len() as int) =~= rest);
    if ch != '"' && ch != '\\' && (ch as u32) < 32 {
        let code = (ch as u32) as nat;
        assert(text[4] == digit_char(code / 16));
        assert(text[5] == digit_char(code % 16));
        assert(code / 16 < 2);
        assert((code / 16) * 16 + code % 16 == code);
        assert(control(code) == ch);
    }
}

/// A string that is written and read again is the same string.
pub proof fn lemma_unescaped_of_escaped(text: Seq<char>)
    ensures
        unescaped(escaped(text)) == Some(text),
    decreases text.len(),
{
    if text.len() > 0 {
        let rest = escaped(text.drop_first());
        lemma_escape_at(text[0], rest);
        lemma_unescaped_of_escaped(text.drop_first());
        assert(seq![text[0]] + text.drop_first() =~= text);
    }
}

/// Writes `chars` at the end of `out`, each character as a string holds
/// it.
pub(crate) fn write_escaped(out: &mut Vec<char>, chars: &Vec<char>)
    ensures
        final(out)@ == old(out)@ + escaped(chars@),
{
    let mut i: usize = 0;
    assert(chars@.skip(0) =~= chars@);
    while i < chars.len()
        invariant
            i <= chars.len(),
            out@ + escaped(chars@.skip(i as int)) == old(out)@ + escaped(chars@),
        decreases chars.len() - i,
    {
        let ch = chars[i];
        let ghost before = out@;
        proof {
            assert(chars@.skip(i as int).drop_first() =~= chars@.skip(i as int + 1));
            assert(chars@.skip(i as int)[0] == ch);
        }
        let code = ch as u32;
        if ch == '"' {
            out.push('\\');
            out.push('"');
        } else if ch == '\\' {
            out.push('\\');
            out.push('\\');
        } else if code < 32 {
            out.push('\\');
            out.push('u');
            out.push('0');
            out.push('0');
            out.push(digit_to_char((code / 16) as u8));
            out.push(digit_to_char((code % 16) as u8));
        } else {
            out.push(ch);
        }
        assert(out@ =~= before + escape(ch));
        assert(out@ + escaped(chars@.skip(i as int + 1)) =~= before + escaped(chars@.skip(i as int)));
        i = i + 1;
    }
    assert(escaped(chars@.skip(chars.len() as int)) =~= Seq::<char>::empty());
    assert(out@ =~= old(out)@ + escaped(chars@));
}

/// Reads the characters from `from` up to `to` as the inside of a string.
/// It takes more than was ever written: a reader that wants one text for
/// each string writes the string again and compares.
pub(crate) fn read_escaped(chars: &Vec<char>, from: usize, to: usize) -> (read: Option<Vec<char>>)
    requires
        from <= to <= chars.len(),
    ensures
        match read {
            Some(text) => unescaped(chars@.subrange(from as int, to as int)) == Some(text@),
            None => unescaped(chars@.subrange(from as int, to as int)).is_none(),
        },
{
    let ghost whole = chars@.subrange(from as int, to as int);
    let mut out: Vec<char> = Vec::new();
    let mut i: usize = from;
    assert(whole.skip(0) =~= whole);
    while i < to
        invariant
            from <= i <= to <= chars.len(),
            whole == chars@.subrange(from as int, to as int),
            unescaped(whole) == (match unescaped(whole.skip(i - from)) {
                Some(rest) => Some(out@ + rest),
                None => None,
            }),
        decreases to - i,
    {
        let ghost rest = whole.skip(i - from);
        let ghost before = out@;
        proof {
            assert(rest.len() == to - i);
            assert forall|j: int| 0 <= j < rest.len() implies rest[j] == chars@[i + j] by {}
        }
        let ch = chars[i];
        let mut length: usize = 1;
        if ch != '\\' {
            out.push(ch);
        } else if to - i >= 2 && (chars[i + 1] == '"' || chars[i + 1] == '\\') {
            out.push(chars[i + 1]);
            length = 2;
        } else if to - i >= 6 && chars[i + 1] == 'u' && chars[i + 2] == '0' && chars[i + 3] == '0' {
            let high = char_to_digit(chars[i + 4]);
            let low = char_to_digit(chars[i + 5]);
            match (high, low) {
                (Some(high), Some(low)) => {
                    if high < 2 {
                        out.push((high * 16 + low) as char);
                        length = 6;
                    } else {
                        return None;
                    }
                },
                _ => {
                    return None;
                },
            }
        } else {
            return None;
        }
        proof {
            assert(escape_at(rest) == Some((out@.last(), length as int)));
            assert(rest.skip(length as int) =~= whole.skip(i - from + length));
            assert(out@ =~= before.push(out@.last()));
            match unescaped(whole.skip(i - from + length)) {
                Some(tail) => {
                    assert(before + (seq![out@.last()] + tail) =~= out@ + tail);
                },
                None => {},
            }
        }
        i = i + length;
    }
    assert(whole.skip(to - from) =~= Seq::<char>::empty());
    assert(out@ + Seq::<char>::empty() =~= out@);
    Some(out)
}

} // verus!
