//! Text as the command line gives it: numbers, lists and addresses.

use vstd::prelude::*;

verus! {

/// `std::num::ParseIntError`, carried as it is.
#[verifier::external_type_specification]
#[verifier::external_body]
pub struct ExParseIntError(std::num::ParseIntError);

/// Whether `c` is an ASCII decimal digit.
pub open spec fn is_digit(c: char) -> bool {
    '0' <= c <= '9'
}

/// The digit for `d`.
pub open spec fn digit(d: nat) -> char
    recommends
        d < 10,
{
    (('0' as int) + d) as char
}

/// The number that a string of digits writes in base ten.
pub open spec fn digits_value(digits: Seq<char>) -> nat
    decreases digits.len(),
{
    if digits.len() == 0 {
        0
    } else {
        (digits_value(digits.drop_last()) * 10 + (digits.last() as int - '0' as int)) as nat
    }
}

/// The digits of a numeral, without the plus sign that may lead it.
pub open spec fn unsigned_digits(text: Seq<char>) -> Seq<char> {
    if text.len() > 0 && text[0] == '+' {
        text.skip(1)
    } else {
        text
    }
}

/// The number that `text` writes: an optional plus sign, then at least one
/// digit, and nothing else.
pub open spec fn unsigned_value(text: Seq<char>) -> Option<nat> {
    let digits = unsigned_digits(text);
    if digits.len() > 0 && (forall|i: int| 0 <= i < digits.len() ==> is_digit(#[trigger] digits[i])) {
        Some(digits_value(digits))
    } else {
        None
    }
}

/// The number that `text` writes, where it is at most `limit`.
pub open spec fn bounded_value(text: Seq<char>, limit: nat) -> Option<nat> {
    match unsigned_value(text) {
        Some(value) => if value <= limit {
            Some(value)
        } else {
            None
        },
        None => None,
    }
}

/// `n` in base ten, without leading zeros.
pub open spec fn decimal(n: nat) -> Seq<char>
    decreases n,
{
    if n < 10 {
        seq![digit(n)]
    } else {
        decimal(n / 10).push(digit(n % 10))
    }
}

/// The parts of `text` between the separators. There is one part more than
/// there are separators, so parts can be empty.
pub open spec fn split(text: Seq<char>, separator: char) -> Seq<Seq<char>>
    decreases text.len(),
{
    if text.contains(separator) {
        let first = text.index_of_first(separator)->0;
        proof {
            text.index_of_first_ensures(separator);
        }
        seq![text.take(first)] + split(text.skip(first + 1), separator)
    } else {
        seq![text]
    }
}

/// Calls `str::parse::<u16>`. Claims that it accepts exactly the numerals of
/// an optional plus sign and digits whose number a `u16` can hold, and gives
/// that number. Which error comes for the others is left open.
#[verifier::external_body]
pub(crate) fn parse_u16(text: &str) -> (parsed: Result<u16, std::num::ParseIntError>)
    ensures
        match bounded_value(text@, u16::MAX as nat) {
            Some(value) => parsed matches Ok(n) && n as nat == value,
            None => parsed is Err,
        },
{
    text.parse::<u16>()
}

/// Calls `str::parse::<usize>`. Claims that it accepts exactly the numerals of
/// an optional plus sign and digits whose number a `usize` can hold, and gives
/// that number. Which error comes for the others is left open.
#[verifier::external_body]
pub(crate) fn parse_usize(text: &str) -> (parsed: Result<usize, std::num::ParseIntError>)
    ensures
        match bounded_value(text@, usize::MAX as nat) {
            Some(value) => parsed matches Ok(n) && n as nat == value,
            None => parsed is Err,
        },
{
    text.parse::<usize>()
}

/// Whether two texts have the same characters.
pub fn same_text(left: &str, right: &str) -> (same: bool)
    ensures
        same == (left@ == right@),
{
    left.to_owned() == right.to_owned()
}

/// The text of one digit.
fn digit_text(d: u16) -> (text: &'static str)
    requires
        d < 10,
    ensures
        text@ == seq![digit(d as nat)],
{
    proof {
        reveal_strlit("0");
        reveal_strlit("1");
        reveal_strlit("2");
        reveal_strlit("3");
        reveal_strlit("4");
        reveal_strlit("5");
        reveal_strlit("6");
        reveal_strlit("7");
        reveal_strlit("8");
        reveal_strlit("9");
    }
    match d {
        0 => "0",
        1 => "1",
        2 => "2",
        3 => "3",
        4 => "4",
        5 => "5",
        6 => "6",
        7 => "7",
        8 => "8",
        _ => "9",
    }
}

/// `n` in base ten.
pub fn decimal_text(n: u16) -> (text: String)
    ensures
        text@ == decimal(n as nat),
    decreases n,
{
    if n < 10 {
        digit_text(n).to_owned()
    } else {
        let front = decimal_text(n / 10);
        let text = front.concat(digit_text(n % 10));
        assert(text@ =~= decimal(n as nat));
        text
    }
}

/// The parts of `text` between the separators, in order.
pub fn split_text(text: &str, separator: char) -> (parts: Vec<String>)
    ensures
        parts@.map_values(|part: String| part@) == split(text@, separator),
{
    let mut parts: Vec<String> = Vec::new();
    let length: usize = text.unicode_len();
    let mut start: usize = 0;
    let mut i: usize = 0;
    assert(text@.skip(0) =~= text@);
    assert(parts@.map_values(|part: String| part@) =~= Seq::empty());
    while i < length
        invariant
            length == text@.len(),
            start <= i <= length,
            forall|k: int| start <= k < i ==> text@[k] != separator,
            parts@.map_values(|part: String| part@) + split(text@.skip(start as int), separator)
                == split(text@, separator),
        decreases length - i,
    {
        if text.get_char(i) == separator {
            let part = text.substring_char(start, i).to_owned();
            proof {
                let rest = text@.skip(start as int);
                let gap = i - start;
                assert(rest[gap] == separator);
                lemma_first_separator(rest, separator, gap);
                assert(rest.take(gap) =~= part@);
                assert(rest.skip(gap + 1) =~= text@.skip(i + 1));
                assert(parts@.push(part).map_values(|part: String| part@) =~= parts@.map_values(
                    |part: String| part@,
                ).push(part@));
                assert(parts@.map_values(|part: String| part@) + split(rest, separator)
                    =~= parts@.push(part).map_values(|part: String| part@) + split(
                    text@.skip(i + 1),
                    separator,
                ));
            }
            parts.push(part);
            start = i + 1;
        }
        i = i + 1;
    }
    let part = text.substring_char(start, length).to_owned();
    proof {
        let rest = text@.skip(start as int);
        assert forall|k: int| 0 <= k < rest.len() implies rest[k] != separator by {
            assert(rest[k] == text@[start + k]);
        }
        assert(part@ =~= rest);
        assert(split(rest, separator) == seq![rest]);
        assert(parts@.push(part).map_values(|part: String| part@) =~= parts@.map_values(
            |part: String| part@,
        ) + seq![rest]);
    }
    parts.push(part);
    parts
}

/// Reading the decimal of a number gives the number back.
pub proof fn law_decimal_reads_back(n: nat)
    ensures
        unsigned_value(decimal(n)) == Some(n),
{
    lemma_decimal_digits(n);
    assert(decimal(n)[0] != '+') by {
        assert(is_digit(decimal(n)[0]));
    }
}

/// A decimal is made of the ten digits, its last one is what is left of the
/// number by ten, and none but that of zero starts with a zero.
pub proof fn law_decimal_is_plain(n: nat)
    ensures
        decimal(n).len() > 0,
        forall|i: int| 0 <= i < decimal(n).len() ==> '0' <= #[trigger] decimal(n)[i] <= '9',
        decimal(n).last() as int == '0' as int + n % 10,
        decimal(n)[0] == '0' ==> n == 0,
    decreases n,
{
    lemma_decimal_digits(n);
    if n >= 10 {
        law_decimal_is_plain(n / 10);
    }
}

/// Parts of a text with a separator between each and the next.
pub open spec fn joined_by(parts: Seq<Seq<char>>, separator: char) -> Seq<char>
    decreases parts.len(),
{
    if parts.len() == 0 {
        seq![]
    } else if parts.len() == 1 {
        parts[0]
    } else {
        parts[0].push(separator) + joined_by(parts.drop_first(), separator)
    }
}

/// Splitting gives back the parts that were joined.
pub proof fn law_split_undoes_join(parts: Seq<Seq<char>>, separator: char)
    requires
        parts.len() > 0,
        forall|i: int| 0 <= i < parts.len() ==> !(#[trigger] parts[i]).contains(separator),
    ensures
        split(joined_by(parts, separator), separator) == parts,
    decreases parts.len(),
{
    let text = joined_by(parts, separator);
    if parts.len() == 1 {
        assert(seq![text] =~= parts);
    } else {
        let rest = parts.drop_first();
        let at = parts[0].len() as int;
        assert forall|i: int| 0 <= i < rest.len() implies !(#[trigger] rest[i]).contains(
            separator,
        ) by {
            assert(rest[i] == parts[i + 1]);
        }
        law_split_undoes_join(rest, separator);
        assert forall|k: int| 0 <= k < at implies text[k] != separator by {
            assert(text[k] == parts[0][k]);
            assert(parts[0].contains(parts[0][k]));
        }
        assert(text[at] == separator);
        lemma_first_separator(text, separator, at);
        assert(text.take(at) =~= parts[0]);
        assert(text.skip(at + 1) =~= joined_by(rest, separator));
        assert(seq![parts[0]] + rest =~= parts);
    }
}

/// Joining gives back the text that was split, and no part holds a separator.
pub proof fn law_join_undoes_split(text: Seq<char>, separator: char)
    ensures
        split(text, separator).len() > 0,
        joined_by(split(text, separator), separator) == text,
        forall|i: int|
            0 <= i < split(text, separator).len() ==> !(#[trigger] split(
                text,
                separator,
            )[i]).contains(separator),
    decreases text.len(),
{
    let parts = split(text, separator);
    if text.contains(separator) {
        text.index_of_first_ensures(separator);
        let first = text.index_of_first(separator)->0;
        let rest = text.skip(first + 1);
        law_join_undoes_split(rest, separator);
        assert(parts.drop_first() =~= split(rest, separator));
        assert(parts[0] == text.take(first));
        assert(text =~= text.take(first).push(separator) + rest);
        assert forall|i: int| 0 <= i < parts.len() implies !(#[trigger] parts[i]).contains(
            separator,
        ) by {
            if i > 0 {
                assert(parts[i] == split(rest, separator)[i - 1]);
            }
        }
    }
}

/// A decimal has digits only, and their value is the number.
proof fn lemma_decimal_digits(n: nat)
    ensures
        decimal(n).len() > 0,
        forall|i: int| 0 <= i < decimal(n).len() ==> is_digit(#[trigger] decimal(n)[i]),
        digits_value(decimal(n)) == n,
    decreases n,
{
    if n < 10 {
        reveal_with_fuel(digits_value, 2);
        assert(decimal(n).drop_last() =~= Seq::empty());
    } else {
        lemma_decimal_digits(n / 10);
        assert(decimal(n).drop_last() =~= decimal(n / 10));
        assert(decimal(n).last() == digit(n % 10));
    }
}

/// A text splits at its first separator.
proof fn lemma_first_separator(text: Seq<char>, separator: char, at: int)
    requires
        0 <= at < text.len(),
        text[at] == separator,
        forall|k: int| 0 <= k < at ==> text[k] != separator,
    ensures
        split(text, separator) == seq![text.take(at)] + split(text.skip(at + 1), separator),
{
    text.index_of_first_ensures(separator);
    let first = text.index_of_first(separator)->0;
    assert(text.contains(separator));
    assert(first == at);
}

/// Texts are the same if their characters are; a number is written by its
/// decimal, which reads back as the number; and the parts of a text make up the
/// text and hold no separator.
pub proof fn law_texts_are_kept(
    left: &str,
    right: &str,
    same: bool,
    n: u16,
    written: String,
    separator: char,
    parts: Vec<String>,
)
    requires
        call_ensures(same_text, (left, right), same),
        call_ensures(decimal_text, (n,), written),
        call_ensures(split_text, (left, separator), parts),
    ensures
        same <==> left@ == right@,
        unsigned_value(written@) == Some(n as nat),
        written@[0] == '0' ==> n == 0,
        joined_by(parts@.map_values(|part: String| part@), separator) == left@,
        forall|i: int| 0 <= i < parts@.len() ==> !(#[trigger] parts@[i])@.contains(separator),
{
    law_decimal_reads_back(n as nat);
    law_decimal_is_plain(n as nat);
    law_join_undoes_split(left@, separator);
    assert forall|i: int| 0 <= i < parts@.len() implies !(#[trigger] parts@[i])@.contains(
        separator,
    ) by {
        assert(parts@.map_values(|part: String| part@)[i] == parts@[i]@);
    }
}

} // verus!
