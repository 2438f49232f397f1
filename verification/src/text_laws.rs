//! What holds of the operations on text.

#[allow(unused_imports)]
use crate::text;
use vstd::prelude::*;

verus! {

/// The views of a list of strings, and of an optional string, hold their characters and nothing
/// else.
pub proof fn law_views_hold_the_characters(list: Seq<String>, value: Option<String>)
    ensures
        text::views(list).len() == list.len(),
        forall|i: int| 0 <= i < list.len() ==> #[trigger] text::views(list)[i] == list[i]@,
        value matches Some(given) ==> text::opt_view(value) == Some(given@),
        value is None ==> text::opt_view(value) is None,
{
}

/// Making a text small changes no character but the ASCII capitals, each to the letter thirty-two
/// places on, and keeps the length; doing it again changes nothing.
pub proof fn law_lowering_changes_capitals_only(value: Seq<char>)
    ensures
        text::lower(value).len() == value.len(),
        forall|i: int|
            0 <= i < value.len() ==> #[trigger] text::lower(value)[i] as int == value[i] as int
                + if 65 <= value[i] as int <= 90 {
                32int
            } else {
                0int
            },
        text::lower(text::lower(value)) == text::lower(value),
{
    assert(text::lower(text::lower(value)) =~= text::lower(value));
}

/// A text holds a needle exactly when it is something, then the needle, then something.
pub proof fn law_texts_hold_what_stands_between(value: Seq<char>, needle: Seq<char>)
    ensures
        text::holds(value, needle) <==> exists|before: Seq<char>, after: Seq<char>|
            value == #[trigger] (before + needle + after),
{
    if text::holds(value, needle) {
        let at = choose|at: int| text::stands_at(value, needle, at);
        let before = value.subrange(0, at);
        let after = value.subrange(at + needle.len(), value.len() as int);
        assert(value =~= before + needle + after) by {
            let part = value.subrange(at, at + needle.len());
            assert forall|i: int| 0 <= i < value.len() implies value[i] == (before + needle
                + after)[i] by {
                if at <= i < at + needle.len() {
                    assert(part[i - at] == value[i]);
                }
            }
        }
    }
    if exists|before: Seq<char>, after: Seq<char>| value == #[trigger] (before + needle + after) {
        let (before, after) = choose|before: Seq<char>, after: Seq<char>|
            value == #[trigger] (before + needle + after);
        let at = before.len() as int;
        assert(value.subrange(at, at + needle.len()) =~= needle);
        assert(text::stands_at(value, needle, at));
    }
}

/// A text begins with a prefix exactly when it is the prefix, then something.
pub proof fn law_texts_begin_with_what_stands_first(value: Seq<char>, prefix: Seq<char>)
    ensures
        text::begins(value, prefix) <==> exists|rest: Seq<char>| value == #[trigger] (prefix + rest),
{
    if text::begins(value, prefix) {
        let rest = value.subrange(prefix.len() as int, value.len() as int);
        let part = value.subrange(0, prefix.len() as int);
        assert(value =~= prefix + rest) by {
            assert forall|i: int| 0 <= i < value.len() implies value[i] == (prefix + rest)[i] by {
                if i < prefix.len() {
                    assert(part[i] == value[i]);
                }
            }
        }
    }
    if exists|rest: Seq<char>| value == #[trigger] (prefix + rest) {
        let rest = choose|rest: Seq<char>| value == #[trigger] (prefix + rest);
        assert(value.subrange(0, prefix.len() as int) =~= prefix);
    }
}

/// The number that a small hexadecimal digit stands for.
pub open spec fn nibble(digit: char) -> int {
    if 48 <= digit as int <= 57 {
        digit as int - 48
    } else if 97 <= digit as int <= 102 {
        digit as int - 87
    } else {
        -1
    }
}

/// Hexadecimal digits read back as the bytes that they were written for, two digits a byte, the
/// high one first; so different bytes have different digits.
pub proof fn law_hexadecimal_reads_back(bytes: Seq<u8>, other: Seq<u8>)
    ensures
        text::hex(bytes).len() == 2 * bytes.len(),
        forall|i: int|
            0 <= i < bytes.len() ==> {
                &&& 0 <= nibble(text::hex(bytes)[2 * i]) < 16
                &&& 0 <= nibble(text::hex(bytes)[2 * i + 1]) < 16
                &&& #[trigger] bytes[i] as int == 16 * nibble(text::hex(bytes)[2 * i]) + nibble(
                    text::hex(bytes)[2 * i + 1],
                )
            },
        text::hex(bytes) == text::hex(other) ==> bytes == other,
{
    assert forall|i: int| 0 <= i < bytes.len() implies {
        &&& 0 <= nibble(text::hex(bytes)[2 * i]) < 16
        &&& 0 <= nibble(text::hex(bytes)[2 * i + 1]) < 16
        &&& #[trigger] bytes[i] as int == 16 * nibble(text::hex(bytes)[2 * i]) + nibble(
            text::hex(bytes)[2 * i + 1],
        )
    } by {
        lemma_hex_pair(bytes, i);
    }
    if text::hex(bytes) == text::hex(other) {
        assert(text::hex(other).len() == 2 * other.len());
        assert forall|i: int| 0 <= i < bytes.len() implies bytes[i] == other[i] by {
            lemma_hex_pair(bytes, i);
            lemma_hex_pair(other, i);
        }
        assert(bytes =~= other);
    }
}

proof fn lemma_hex_pair(bytes: Seq<u8>, i: int)
    requires
        0 <= i < bytes.len(),
    ensures
        0 <= nibble(text::hex(bytes)[2 * i]) < 16,
        0 <= nibble(text::hex(bytes)[2 * i + 1]) < 16,
        bytes[i] as int == 16 * nibble(text::hex(bytes)[2 * i]) + nibble(
            text::hex(bytes)[2 * i + 1],
        ),
{
    let high = bytes[i] as int / 16;
    let low = bytes[i] as int % 16;
    assert((2 * i) % 2 == 0 && (2 * i) / 2 == i);
    assert((2 * i + 1) % 2 == 1 && (2 * i + 1) / 2 == i);
    assert(text::hex(bytes)[2 * i] == text::hex_digit(high));
    assert(text::hex(bytes)[2 * i + 1] == text::hex_digit(low));
    assert(nibble(text::hex_digit(high)) == high);
    assert(nibble(text::hex_digit(low)) == low);
}

/// The number that decimal digits stand for.
pub open spec fn numeral(digits: Seq<char>) -> int
    decreases digits.len(),
{
    if digits.len() == 0 {
        0
    } else {
        10 * numeral(digits.drop_last()) + (digits.last() as int - 48)
    }
}

proof fn lemma_digits_read_back(n: nat)
    ensures
        text::digits(n).len() > 0,
        numeral(text::digits(n)) == n,
        forall|i: int|
            0 <= i < text::digits(n).len() ==> 48 <= #[trigger] text::digits(n)[i] as int <= 57,
        n > 0 ==> text::digits(n)[0] != '0',
    decreases n,
{
    if n >= 10 {
        lemma_digits_read_back(n / 10);
        assert(text::digits(n).drop_last() =~= text::digits(n / 10));
    } else {
        assert(text::digits(n).drop_last() =~= Seq::empty());
        assert(numeral(Seq::<char>::empty()) == 0);
    }
}

/// A number in decimal reads back as the number: digits only, without a leading zero, behind a
/// minus sign where the number is negative.
pub proof fn law_decimal_reads_back(n: int)
    ensures
        n >= 0 ==> numeral(text::decimal(n)) == n,
        n < 0 ==> text::decimal(n) == seq!['-'] + text::decimal(-n),
        forall|i: int|
            0 <= i < text::decimal(n).len() && n >= 0 ==> 48 <= #[trigger] text::decimal(
                n,
            )[i] as int <= 57,
        n > 0 ==> text::decimal(n)[0] != '0',
        n == 0 ==> text::decimal(n).len() == 1,
{
    if n >= 0 {
        lemma_digits_read_back(n as nat);
    }
}

} // verus!
