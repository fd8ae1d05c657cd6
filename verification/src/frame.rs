//! The integrity frame that every ciphertext of the vault is written in.
//!
//! A framed text is written in the base64 alphabet alone. It is the length
//! of a body in twenty decimal digits, the body, and two decimal digits more:
//! the sum of the body's characters modulo 97. A text that begins like a
//! framed text but is shorter names a length that is not its own, and no two
//! bodies that differ in one character have the same sum. A framed text that
//! was cut short, or in which one character was changed, is therefore never
//! framed.

use vstd::prelude::*;

verus! {

/// The number of decimal digits in front of the body.
pub const HEADER: usize = 20;

/// The number of decimal digits behind the body.
pub const TRAILER: usize = 2;

/// The longest body that has a frame: every length that a text in memory can
/// have is below it.
pub const LONGEST_BODY: u64 = 0xFFFF_FFFF_FFFF_FFFF;

/// The characters of standard base64, the padding sign included.
pub open spec fn is_base64_char(c: char) -> bool {
    ||| 'A' <= c <= 'Z'
    ||| 'a' <= c <= 'z'
    ||| '0' <= c <= '9'
    ||| c == '+'
    ||| c == '/'
    ||| c == '='
}

/// Every character of `text` is one of base64.
pub open spec fn all_base64(text: Seq<char>) -> bool {
    forall|i: int| 0 <= i < text.len() ==> is_base64_char(#[trigger] text[i])
}

/// The sum of the characters of `text`, each taken as its code point.
pub open spec fn char_sum(text: Seq<char>) -> int
    decreases text.len(),
{
    if text.len() == 0 {
        0
    } else {
        char_sum(text.drop_last()) + text.last() as int
    }
}

/// The check value of a body: the sum of its characters modulo 97.
pub open spec fn check_value(body: Seq<char>) -> int {
    char_sum(body) % 97
}

/// The decimal digit that stands for `digit`.
pub open spec fn digit_char(digit: int) -> char {
    if digit == 0 {
        '0'
    } else if digit == 1 {
        '1'
    } else if digit == 2 {
        '2'
    } else if digit == 3 {
        '3'
    } else if digit == 4 {
        '4'
    } else if digit == 5 {
        '5'
    } else if digit == 6 {
        '6'
    } else if digit == 7 {
        '7'
    } else if digit == 8 {
        '8'
    } else {
        '9'
    }
}

/// The last `width` decimal digits of `value`, the highest first, with zeros
/// in front where the value has fewer.
pub open spec fn decimal_digits(value: nat, width: nat) -> Seq<char>
    decreases width,
{
    if width == 0 {
        Seq::empty()
    } else {
        decimal_digits(value / 10, (width - 1) as nat).push(digit_char((value % 10) as int))
    }
}

/// Ten to the power of `width`.
pub open spec fn pow10(width: nat) -> nat
    decreases width,
{
    if width == 0 {
        1
    } else {
        10 * pow10((width - 1) as nat)
    }
}

/// The check value of a body in two decimal digits.
pub open spec fn check_digits(body: Seq<char>) -> Seq<char> {
    seq![digit_char(check_value(body) / 10), digit_char(check_value(body) % 10)]
}

/// The frame around `body`: its length in twenty digits, the body, and its
/// check digits.
pub open spec fn framed_text(body: Seq<char>) -> Seq<char> {
    decimal_digits(body.len(), HEADER as nat) + body + check_digits(body)
}

/// All of `text` but its first twenty and its last two characters.
pub open spec fn body_of(text: Seq<char>) -> Seq<char> {
    text.subrange(HEADER as int, text.len() - TRAILER)
}

/// `text` is the frame around a body in the base64 alphabet.
pub open spec fn framed(text: Seq<char>) -> bool {
    &&& text.len() >= HEADER + TRAILER
    &&& body_of(text).len() <= LONGEST_BODY
    &&& all_base64(body_of(text))
    &&& text == framed_text(body_of(text))
}

/// A value has as many digits as were asked for, and all are digits.
pub proof fn decimal_digits_are_digits(value: nat, width: nat)
    ensures
        decimal_digits(value, width).len() == width,
        forall|i: int|
            0 <= i < width ==> '0' <= #[trigger] decimal_digits(value, width)[i] <= '9',
    decreases width,
{
    if width > 0 {
        decimal_digits_are_digits(value / 10, (width - 1) as nat);
    }
}

/// Two values below ten to the power of `width` with the same `width` digits
/// are the same value.
pub proof fn same_digits_same_value(first: nat, second: nat, width: nat)
    requires
        first < pow10(width),
        second < pow10(width),
        decimal_digits(first, width) == decimal_digits(second, width),
    ensures
        first == second,
    decreases width,
{
    if width > 0 {
        let less: nat = (width - 1) as nat;
        let high_first = decimal_digits(first / 10, less);
        let high_second = decimal_digits(second / 10, less);
        assert(decimal_digits(first, width).drop_last() =~= high_first);
        assert(decimal_digits(second, width).drop_last() =~= high_second);
        assert(decimal_digits(first, width).last() == digit_char((first % 10) as int));
        assert(decimal_digits(second, width).last() == digit_char((second % 10) as int));
        same_digits_same_value(first / 10, second / 10, less);
    }
}

/// Every length that a body may have is below ten to the power of twenty.
pub proof fn longest_body_has_twenty_digits()
    ensures
        pow10(HEADER as nat) > LONGEST_BODY,
{
    reveal_with_fuel(pow10, 21);
}

/// A framed text is written in the base64 alphabet.
pub proof fn framed_is_base64(text: Seq<char>)
    requires
        framed(text),
    ensures
        all_base64(text),
        vstd::utf8::is_ascii_chars(text),
{
    let body = body_of(text);
    let whole = framed_text(body);
    decimal_digits_are_digits(body.len(), HEADER as nat);
    let header = decimal_digits(body.len(), HEADER as nat);
    assert forall|i: int| 0 <= i < text.len() implies is_base64_char(#[trigger] text[i]) by {
        if i < HEADER {
            assert(whole[i] == header[i]);
        } else if i < HEADER + body.len() {
            assert(whole[i] == body[i - HEADER]);
            assert(is_base64_char(body[i - HEADER]));
        } else if i == HEADER + body.len() {
            assert(whole[i] == check_digits(body)[0]);
        } else {
            assert(whole[i] == check_digits(body)[1]);
        }
    }
    assert forall|i: int| 0 <= i < text.len() implies '\0' <= #[trigger] text[i] <= '\u{7f}' by {
        assert(is_base64_char(text[i]));
    }
}

/// The body of a frame is the body that was framed, and the frame around a
/// body in the base64 alphabet is framed.
pub proof fn body_of_framed_text(body: Seq<char>)
    ensures
        body_of(framed_text(body)) == body,
        all_base64(body) && body.len() <= LONGEST_BODY ==> framed(framed_text(body)),
{
    decimal_digits_are_digits(body.len(), HEADER as nat);
    assert(body_of(framed_text(body)) =~= body);
}

/// A framed text that is cut short is not framed: its first twenty digits
/// name the length of the longer body.
pub proof fn proper_prefix_is_not_framed(text: Seq<char>, length: int)
    requires
        framed(text),
        0 <= length < text.len(),
    ensures
        !framed(text.take(length)),
{
    let prefix = text.take(length);
    if framed(prefix) {
        let long = body_of(text);
        let short = body_of(prefix);
        decimal_digits_are_digits(long.len(), HEADER as nat);
        decimal_digits_are_digits(short.len(), HEADER as nat);
        assert(framed_text(long).take(HEADER as int) =~= decimal_digits(long.len(), HEADER as nat));
        assert(framed_text(short).take(HEADER as int) =~= decimal_digits(
            short.len(),
            HEADER as nat,
        ));
        assert(prefix.take(HEADER as int) =~= text.take(HEADER as int));
        longest_body_has_twenty_digits();
        same_digits_same_value(long.len(), short.len(), HEADER as nat);
        assert(false);
    }
}

/// Changing one character of a text changes the sum of its characters by the
/// difference of the two.
pub proof fn char_sum_of_update(text: Seq<char>, position: int, character: char)
    requires
        0 <= position < text.len(),
    ensures
        char_sum(text.update(position, character)) == char_sum(text) - text[position] as int
            + character as int,
    decreases text.len(),
{
    let updated = text.update(position, character);
    if position == text.len() - 1 {
        assert(updated.drop_last() =~= text.drop_last());
    } else {
        assert(updated.drop_last() =~= text.drop_last().update(position, character));
        char_sum_of_update(text.drop_last(), position, character);
    }
}

/// A framed text in which one character is changed is not framed: a change
/// in the body changes the check value, and a change before or behind the
/// body leaves digits that are not the body's.
pub proof fn changed_character_is_not_framed(text: Seq<char>, position: int, character: char)
    requires
        framed(text),
        0 <= position < text.len(),
        character != text[position],
    ensures
        !framed(text.update(position, character)),
{
    let other = text.update(position, character);
    let length: int = text.len() as int;
    let body = body_of(text);
    let other_body = body_of(other);
    if framed(other) {
        if position < HEADER || position >= length - TRAILER {
            assert(other_body =~= body);
            assert(other[position] == text[position]);
        } else {
            let inside: int = position - HEADER;
            assert(other_body =~= body.update(inside, character));
            assert(is_base64_char(other_body[inside]));
            assert(is_base64_char(body[inside]));
            char_sum_of_update(body, inside, character);
            let old_value = check_value(body);
            let new_value = check_value(other_body);
            assert(old_value != new_value);
            decimal_digits_are_digits(body.len(), HEADER as nat);
            assert(framed_text(body)[length - 2] == check_digits(body)[0]);
            assert(framed_text(body)[length - 1] == check_digits(body)[1]);
            assert(framed_text(other_body)[length - 2] == check_digits(other_body)[0]);
            assert(framed_text(other_body)[length - 1] == check_digits(other_body)[1]);
            assert(other[length - 2] == text[length - 2]);
            assert(other[length - 1] == text[length - 1]);
            assert(old_value / 10 == new_value / 10);
            assert(old_value % 10 == new_value % 10);
            assert(false);
        }
    }
}

/// Whether a byte is a character of base64.
fn is_base64_byte(byte: u8) -> (ok: bool)
    ensures
        ok == is_base64_char(byte as char),
{
    (65 <= byte && byte <= 90) || (97 <= byte && byte <= 122) || (48 <= byte && byte <= 57)
        || byte == 43 || byte == 47 || byte == 61
}

/// The text of one decimal digit.
fn digit_text(digit: u64) -> (text: &'static str)
    requires
        digit < 10,
    ensures
        text@ == seq![digit_char(digit as int)],
{
    proof {
        reveal_strlit("0");
        reveal_strlit("1");
        reveal_strlit("2");
        reveal_strlit("3");
        reveal_strlit("4");
        reveal_strlit("5");
        reveal_strlit("6");
        reveal_strlit("7");
        reveal_strlit("8");
        reveal_strlit("9");
    }
    let text = if digit == 0 {
        "0"
    } else if digit == 1 {
        "1"
    } else if digit == 2 {
        "2"
    } else if digit == 3 {
        "3"
    } else if digit == 4 {
        "4"
    } else if digit == 5 {
        "5"
    } else if digit == 6 {
        "6"
    } else if digit == 7 {
        "7"
    } else if digit == 8 {
        "8"
    } else {
        "9"
    };
    assert(text@ =~= seq![digit_char(digit as int)]);
    text
}

/// Writes the last `width` decimal digits of `value` behind `text`.
fn append_digits(text: &mut String, value: u64, width: usize)
    ensures
        final(text)@ == old(text)@ + decimal_digits(value as nat, width as nat),
    decreases width,
{
    if width > 0 {
        append_digits(text, value / 10, width - 1);
        text.append(digit_text(value % 10));
        assert(text@ =~= old(text)@ + decimal_digits(value as nat, width as nat));
    } else {
        assert(text@ =~= old(text)@ + decimal_digits(value as nat, width as nat));
    }
}

/// Puts `body` in its frame. A body with a character outside the base64
/// alphabet has no frame.
pub fn frame(body: &str) -> (text: Option<String>)
    ensures
        all_base64(body@) ==> text.deep_view() == Some(framed_text(body@)),
        all_base64(body@) ==> framed(framed_text(body@)),
        !all_base64(body@) ==> text is None,
{
    if !body.is_ascii() {
        assert(!all_base64(body@)) by {
            if all_base64(body@) {
                assert forall|i: int| 0 <= i < body@.len() implies '\0' <= #[trigger] body@[i]
                    <= '\u{7f}' by {
                    assert(is_base64_char(body@[i]));
                }
            }
        }
        return None;
    }
    let length = body.unicode_len();
    let mut sum: u64 = 0;
    let mut at: usize = 0;
    while at < length
        invariant
            body.is_ascii(),
            length == body@.len(),
            at <= length,
            sum < 97,
            sum == char_sum(body@.take(at as int)) % 97,
            all_base64(body@.take(at as int)),
        decreases length - at,
    {
        let byte = body.get_ascii(at);
        assert('\0' <= body@[at as int] <= '\u{7f}');
        assert(byte as char == body@[at as int]);
        if !is_base64_byte(byte) {
            return None;
        }
        proof {
            let next = body@.take(at + 1);
            assert(next.drop_last() =~= body@.take(at as int));
            assert(next.last() == body@[at as int]);
            assert forall|i: int| 0 <= i < next.len() implies is_base64_char(#[trigger] next[i]) by {
                if i < at {
                    assert(next[i] == body@.take(at as int)[i]);
                }
            }
        }
        sum = (sum + byte as u64) % 97;
        at += 1;
    }
    assert(body@.take(length as int) =~= body@);
    let mut text = String::new();
    append_digits(&mut text, length as u64, HEADER);
    text.append(body);
    text.append(digit_text(sum / 10));
    text.append(digit_text(sum % 10));
    proof {
        assert(text@ =~= framed_text(body@));
        body_of_framed_text(body@);
    }
    Some(text)
}

/// Takes `text` out of its frame: the body, where `text` is framed, and
/// nothing where it is not.
pub fn unframe(text: &str) -> (body: Option<String>)
    ensures
        framed(text@) ==> body.deep_view() == Some(body_of(text@)),
        !framed(text@) ==> body is None,
{
    if !text.is_ascii() {
        proof {
            if framed(text@) {
                framed_is_base64(text@);
            }
        }
        return None;
    }
    let length = text.unicode_len();
    if length < HEADER + TRAILER {
        return None;
    }
    let body = text.substring_ascii(HEADER, length - TRAILER);
    assert(body@ =~= body_of(text@));
    match frame(body) {
        None => None,
        Some(again) => {
            let given = text.to_owned();
            if again == given {
                Some(body.to_owned())
            } else {
                None
            }
        },
    }
}

} // verus!
