//! The request body read back.
//!
//! The exchange reads the JSON body of a private request; what it makes of
//! it decides what the call does. This module holds a model of that
//! reading, and the proof that it finds in a body exactly the fields and
//! values that were written into it.

use vstd::prelude::*;
use crate::codec::{hex_lower, json_escaped, json_escaped_char, json_string_text};
use crate::params::{
    entries,
    from_entries,
    json_member,
    json_members,
    json_text,
    json_value,
    lemma_entries_round_trip,
    lemma_keys_are_distinct,
    Datum,
    Field,
    Params,
    UNITS_PER_COIN,
};
use crate::text::{decimal, digit_char, fixed_digits, is_digit};

verus! {

/// The value of a hexadecimal digit.
pub open spec fn hex_value(c: char) -> Option<nat> {
    if '0' <= c && c <= '9' {
        Some((c as u32 - 0x30) as nat)
    } else if 'a' <= c && c <= 'f' {
        Some((c as u32 - 0x61 + 10) as nat)
    } else if 'A' <= c && c <= 'F' {
        Some((c as u32 - 0x41 + 10) as nat)
    } else {
        None
    }
}

/// The character that a short escape stands for, by the character behind
/// the backslash.
pub open spec fn unescaped(c: char) -> Option<char> {
    if c == '"' {
        Some('"')
    } else if c == '\\' {
        Some('\\')
    } else if c == '/' {
        Some('/')
    } else if c == 'b' {
        Some('\u{8}')
    } else if c == 't' {
        Some('\t')
    } else if c == 'n' {
        Some('\n')
    } else if c == 'f' {
        Some('\u{c}')
    } else if c == 'r' {
        Some('\r')
    } else {
        None
    }
}

/// The code that four hexadecimal digits spell.
pub open spec fn escaped_code(a: char, b: char, c: char, d: char) -> Option<nat> {
    if hex_value(a) is Some && hex_value(b) is Some && hex_value(c) is Some && hex_value(d)
        is Some {
        Some(
            hex_value(a)->0 * 4096 + hex_value(b)->0 * 256 + hex_value(c)->0 * 16 + hex_value(
                d,
            )->0,
        )
    } else {
        None
    }
}

/// Reads on in a string literal whose opening quotation mark has been read:
/// returns the string, with `read` before it, and what follows the closing
/// quotation mark. A `\u` escape is read where it spells a character by
/// itself.
pub open spec fn read_text(text: Seq<char>, read: Seq<char>) -> Option<(Seq<char>, Seq<char>)>
    decreases text.len(),
{
    if text.len() == 0 {
        None
    } else if text[0] == '"' {
        Some((read, text.skip(1)))
    } else if text[0] == '\\' {
        if text.len() < 2 {
            None
        } else if text[1] == 'u' {
            if text.len() < 6 {
                None
            } else {
                match escaped_code(text[2], text[3], text[4], text[5]) {
                    Some(code) => if code < 0xd800 || 0xe000 <= code {
                        read_text(text.skip(6), read.push((code as u32) as char))
                    } else {
                        None
                    },
                    None => None,
                }
            }
        } else {
            match unescaped(text[1]) {
                Some(c) => read_text(text.skip(2), read.push(c)),
                None => None,
            }
        }
    } else if (text[0] as u32) < 0x20 {
        None
    } else {
        read_text(text.skip(1), read.push(text[0]))
    }
}

/// Reads a string literal at the head of `text`: returns the string and
/// what follows the literal.
pub open spec fn read_string(text: Seq<char>) -> Option<(Seq<char>, Seq<char>)> {
    if text.len() > 0 && text[0] == '"' {
        read_text(text.skip(1), Seq::empty())
    } else {
        None
    }
}

/// How many decimal digits stand at the head of `text`.
pub open spec fn leading_digits(text: Seq<char>) -> nat
    decreases text.len(),
{
    if text.len() == 0 || !is_digit(text[0]) {
        0
    } else {
        1 + leading_digits(text.skip(1))
    }
}

/// The number that a string of decimal digits spells.
pub open spec fn number_value(digits: Seq<char>) -> nat
    decreases digits.len(),
{
    if digits.len() == 0 {
        0
    } else {
        number_value(digits.drop_last()) * 10 + (digits.last() as u32 - 0x30) as nat
    }
}

/// Reads a value at the head of `text`: a string literal, a whole number,
/// or a number with exactly eight decimal places. Returns the value and
/// what follows it.
#[verifier::opaque]
pub open spec fn read_value(text: Seq<char>) -> Option<(Datum, Seq<char>)> {
    if text.len() > 0 && text[0] == '"' {
        match read_string(text) {
            Some((s, rest)) => Some((Datum::Text(s), rest)),
            None => None,
        }
    } else {
        let whole = leading_digits(text) as int;
        let rest = text.skip(whole);
        if whole == 0 {
            None
        } else if rest.len() > 0 && rest[0] == '.' {
            if leading_digits(rest.skip(1)) == 8 {
                Some(
                    (
                        Datum::Quantity(
                            number_value(text.take(whole)) * (UNITS_PER_COIN as nat) + number_value(
                                rest.subrange(1, 9),
                            ),
                        ),
                        rest.skip(9),
                    ),
                )
            } else {
                None
            }
        } else {
            Some((Datum::Number(number_value(text.take(whole))), rest))
        }
    }
}

/// The field that goes by the name `key`, if there is one.
#[verifier::opaque]
pub open spec fn field_named(key: Seq<char>) -> Option<Field> {
    if key == Field::Market.key_text() {
        Some(Field::Market)
    } else if key == Field::Count.key_text() {
        Some(Field::Count)
    } else if key == Field::Currency.key_text() {
        Some(Field::Currency)
    } else if key == Field::Type.key_text() {
        Some(Field::Type)
    } else if key == Field::Depth.key_text() {
        Some(Field::Depth)
    } else if key == Field::Amount.key_text() {
        Some(Field::Amount)
    } else if key == Field::Price.key_text() {
        Some(Field::Price)
    } else if key == Field::Address.key_text() {
        Some(Field::Address)
    } else if key == Field::PageNumber.key_text() {
        Some(Field::PageNumber)
    } else if key == Field::OrderId.key_text() {
        Some(Field::OrderId)
    } else if key == Field::Username.key_text() {
        Some(Field::Username)
    } else {
        None
    }
}

/// Reads members up to the closing brace of the object, `text` beginning
/// with the name of a member: returns the fields and values in the order
/// in which they stand, with `read` before them. A name that is no
/// field's is refused.
pub open spec fn read_members(text: Seq<char>, read: Seq<(Field, Datum)>) -> Option<
    Seq<(Field, Datum)>,
>
    decreases text.len(),
{
    match read_string(text) {
        Some((key, after_key)) => if after_key.len() > 0 && after_key[0] == ':' && field_named(key)
            is Some {
            match read_value(after_key.skip(1)) {
                Some((value, rest)) => {
                    let list = read.push((field_named(key)->0, value));
                    if rest.len() >= text.len() || rest.len() == 0 {
                        None
                    } else if rest[0] == '}' && rest.len() == 1 {
                        Some(list)
                    } else if rest[0] == ',' {
                        read_members(rest.skip(1), list)
                    } else {
                        None
                    }
                },
                None => None,
            }
        } else {
            None
        },
        None => None,
    }
}

/// Reads a request body: one JSON object whose members are fields with a
/// text, a whole number or a quantity each. Returns the fields and values
/// in the order in which they stand, or `None` where the text is no such
/// object.
pub open spec fn read_body(text: Seq<char>) -> Option<Seq<(Field, Datum)>> {
    if text.len() >= 2 && text[0] == '{' {
        if text[1] == '}' && text.len() == 2 {
            Some(Seq::empty())
        } else {
            read_members(text.skip(1), Seq::empty())
        }
    } else {
        None
    }
}

/// An escaped string, its closing quotation mark behind it, is read back
/// as the string, whatever follows.
proof fn lemma_read_text(s: Seq<char>, rest: Seq<char>, read: Seq<char>)
    ensures
        read_text(json_escaped(s) + seq!['"'] + rest, read) == Some((read + s, rest)),
    decreases s.len(),
{
    let text = json_escaped(s) + seq!['"'] + rest;
    if s.len() == 0 {
        assert(text[0] == '"');
        assert(text.skip(1) =~= rest);
        assert(read + s =~= read);
    } else {
        let c = s.first();
        let later = s.drop_first();
        let escape = json_escaped_char(c);
        let tail = json_escaped(later) + seq!['"'] + rest;
        assert(text =~= escape + tail);
        assert(read.push(c) + later =~= read + s);
        lemma_read_text(later, rest, read.push(c));
        if c == '"' || c == '\\' || c == '\u{8}' || c == '\t' || c == '\n' || c == '\u{c}' || c
            == '\r' {
            assert(text[0] == '\\');
            assert(text[1] == escape[1]);
            assert(unescaped(escape[1]) == Some(c));
            assert(text.skip(2) =~= tail);
        } else if (c as u32) < 0x20 {
            let high = (c as u32 / 16) as nat;
            let low = (c as u32 % 16) as nat;
            assert(text[0] == '\\' && text[1] == 'u' && text[2] == '0' && text[3] == '0');
            assert(text[4] == hex_lower(high) && text[5] == hex_lower(low));
            assert(hex_value(hex_lower(high)) == Some(high));
            assert(hex_value(hex_lower(low)) == Some(low));
            assert(hex_value('0') == Some(0nat));
            let code = escaped_code(text[2], text[3], text[4], text[5])->0;
            assert(code == c as u32);
            assert((code as u32) as char == c) by {
                vstd::utf8::char_u32_cast(c, c as u32);
            }
            assert(text.skip(6) =~= tail);
        } else {
            assert(text[0] == c);
            assert(text.skip(1) =~= tail);
        }
    }
}

/// A string literal is read back as the string it was written for.
proof fn lemma_read_string(s: Seq<char>, rest: Seq<char>)
    ensures
        read_string(json_string_text(s) + rest) == Some((s, rest)),
{
    let text = json_string_text(s) + rest;
    assert(text[0] == '"');
    assert(text.skip(1) =~= json_escaped(s) + seq!['"'] + rest);
    lemma_read_text(s, rest, Seq::empty());
    assert(Seq::<char>::empty() + s =~= s);
}

/// Ten to the power of `exponent`.
pub open spec fn pow10(exponent: nat) -> nat
    decreases exponent,
{
    if exponent == 0 {
        1
    } else {
        10 * pow10((exponent - 1) as nat)
    }
}

/// Whether every character of `text` is a decimal digit.
pub open spec fn all_digits(text: Seq<char>) -> bool {
    forall|i: int| 0 <= i < text.len() ==> is_digit(#[trigger] text[i])
}

/// A numeral is made of digits, and of one at least.
proof fn lemma_decimal_is_digits(n: nat)
    ensures
        all_digits(decimal(n)),
        decimal(n).len() > 0,
    decreases n,
{
    if n >= 10 {
        lemma_decimal_is_digits(n / 10);
    }
}

/// Zero-padded digits are digits, and as many as asked for.
proof fn lemma_fixed_digits_are_digits(n: nat, width: nat)
    ensures
        all_digits(fixed_digits(n, width)),
        fixed_digits(n, width).len() == width,
    decreases width,
{
    if width > 0 {
        lemma_fixed_digits_are_digits(n / 10, (width - 1) as nat);
    }
}

/// Digits in front of something that is no digit are counted in full.
proof fn lemma_leading_digits(digits: Seq<char>, rest: Seq<char>)
    requires
        all_digits(digits),
        rest.len() == 0 || !is_digit(rest[0]),
    ensures
        leading_digits(digits + rest) == digits.len(),
    decreases digits.len(),
{
    let text = digits + rest;
    if digits.len() == 0 {
        assert(text =~= rest);
    } else {
        assert(text[0] == digits[0]);
        assert(text.skip(1) =~= digits.skip(1) + rest);
        assert forall|i: int| 0 <= i < digits.skip(1).len() implies is_digit(
            #[trigger] digits.skip(1)[i],
        ) by {
            assert(digits.skip(1)[i] == digits[i + 1]);
        }
        lemma_leading_digits(digits.skip(1), rest);
    }
}

/// A numeral spells the number it was written for.
proof fn lemma_number_value_of_decimal(n: nat)
    ensures
        number_value(decimal(n)) == n,
    decreases n,
{
    if n < 10 {
        assert(decimal(n).drop_last() =~= Seq::<char>::empty());
        assert(decimal(n).last() == digit_char(n));
        assert(number_value(decimal(n).drop_last()) == 0);
    } else {
        assert(decimal(n).drop_last() =~= decimal(n / 10));
        assert(decimal(n).last() == digit_char(n % 10));
        lemma_number_value_of_decimal(n / 10);
    }
}

/// Zero-padded digits spell the number they were written for, where it
/// fits in them.
proof fn lemma_number_value_of_fixed_digits(n: nat, width: nat)
    requires
        n < pow10(width),
    ensures
        number_value(fixed_digits(n, width)) == n,
    decreases width,
{
    if width > 0 {
        let shorter = (width - 1) as nat;
        assert(fixed_digits(n, width).drop_last() =~= fixed_digits(n / 10, shorter));
        assert(fixed_digits(n, width).last() == digit_char(n % 10));
        lemma_number_value_of_fixed_digits(n / 10, shorter);
    }
}

/// A value is read back as it was written, where a comma or a closing
/// brace follows it.
proof fn lemma_read_value(value: Datum, rest: Seq<char>)
    requires
        rest.len() > 0,
        rest[0] == ',' || rest[0] == '}',
    ensures
        read_value(json_value(value) + rest) == Some((value, rest)),
{
    reveal(read_value);
    let text = json_value(value) + rest;
    match value {
        Datum::Text(s) => {
            assert(text[0] == '"');
            lemma_read_string(s, rest);
        },
        Datum::Number(n) => {
            let numeral = decimal(n);
            lemma_decimal_is_digits(n);
            lemma_leading_digits(numeral, rest);
            lemma_number_value_of_decimal(n);
            assert(text[0] == numeral[0]);
            assert(text.skip(numeral.len() as int) =~= rest);
            assert(text.take(numeral.len() as int) =~= numeral);
        },
        Datum::Quantity(units) => {
            let per_coin = UNITS_PER_COIN as nat;
            let numeral = decimal(units / per_coin);
            let places = fixed_digits(units % per_coin, 8);
            let behind = seq!['.'] + places + rest;
            lemma_decimal_is_digits(units / per_coin);
            lemma_fixed_digits_are_digits(units % per_coin, 8);
            assert(text =~= numeral + behind);
            lemma_leading_digits(numeral, behind);
            lemma_leading_digits(places, rest);
            lemma_number_value_of_decimal(units / per_coin);
            assert(pow10(8) == per_coin) by {
                reveal_with_fuel(pow10, 9);
            }
            lemma_number_value_of_fixed_digits(units % per_coin, 8);
            assert(text[0] == numeral[0]);
            assert(text.skip(numeral.len() as int) =~= behind);
            assert(text.take(numeral.len() as int) =~= numeral);
            assert(behind[0] == '.');
            assert(behind.skip(1) =~= places + rest);
            assert(behind.subrange(1, 9) =~= places);
            assert(behind.skip(9) =~= rest);
        },
    }
}

/// Whether a character stands for itself inside a string literal.
pub open spec fn is_plain(c: char) -> bool {
    c != '"' && c != '\\' && (c as u32) >= 0x20
}

/// A string of characters that stand for themselves is its own escaped
/// form.
proof fn lemma_plain_text_is_unchanged(s: Seq<char>)
    requires
        forall|i: int| 0 <= i < s.len() ==> is_plain(#[trigger] s[i]),
    ensures
        json_escaped(s) == s,
    decreases s.len(),
{
    if s.len() > 0 {
        assert(is_plain(s[0]));
        assert forall|i: int| 0 <= i < s.drop_first().len() implies is_plain(
            #[trigger] s.drop_first()[i],
        ) by {
            assert(s.drop_first()[i] == s[i + 1]);
        }
        lemma_plain_text_is_unchanged(s.drop_first());
        assert(json_escaped(s) =~= s);
    }
}

/// The name of a field needs no escaping.
proof fn lemma_key_is_plain(field: Field)
    ensures
        json_escaped(field.key_text()) == field.key_text(),
{
    reveal_strlit("Market");
    reveal_strlit("Count");
    reveal_strlit("Currency");
    reveal_strlit("Type");
    reveal_strlit("Depth");
    reveal_strlit("Amount");
    reveal_strlit("Price");
    reveal_strlit("Address");
    reveal_strlit("PageNumber");
    reveal_strlit("OrderId");
    reveal_strlit("Username");
    lemma_plain_text_is_unchanged(field.key_text());
}

/// The name of a field leads back to the field.
proof fn lemma_field_named(field: Field)
    ensures
        field_named(field.key_text()) == Some(field),
{
    reveal(field_named);
    assert forall|other: Field| other != field implies other.key_text() != field.key_text() by {
        lemma_keys_are_distinct(other, field);
    }
}

/// The members from place `from` on, each behind a comma but the first.
pub open spec fn members_from(list: Seq<(Field, Datum)>, from: int) -> Seq<char>
    decreases list.len() - from,
{
    if from < 0 || from >= list.len() {
        Seq::empty()
    } else if from + 1 == list.len() {
        json_member(list[from])
    } else {
        json_member(list[from]).push(',') + members_from(list, from + 1)
    }
}

/// Writing the members from the front on gives what writing them from the
/// back on gives.
proof fn lemma_members_from(list: Seq<(Field, Datum)>, upto: int)
    requires
        1 <= upto <= list.len(),
    ensures
        members_from(list, 0) == json_members(list.take(upto)) + (if upto < list.len() {
            seq![','] + members_from(list, upto)
        } else {
            Seq::empty()
        }),
    decreases upto,
{
    let written = json_members(list.take(upto));
    if upto == 1 {
        assert(list.take(1).last() == list[0]);
        assert(written == json_member(list[0]));
        if list.len() == 1 {
            assert(members_from(list, 0) =~= written + Seq::<char>::empty());
        } else {
            assert(members_from(list, 0) =~= written + (seq![','] + members_from(list, 1)));
        }
    } else {
        lemma_members_from(list, upto - 1);
        let before = json_members(list.take(upto - 1));
        assert(list.take(upto).drop_last() =~= list.take(upto - 1));
        assert(list.take(upto).last() == list[upto - 1]);
        assert(written == before.push(',') + json_member(list[upto - 1]));
        if upto < list.len() {
            assert(members_from(list, upto - 1) == json_member(list[upto - 1]).push(',')
                + members_from(list, upto));
            assert(members_from(list, 0) =~= written + (seq![','] + members_from(list, upto)));
        } else {
            assert(members_from(list, upto - 1) == json_member(list[upto - 1]));
            assert(members_from(list, 0) =~= written + Seq::<char>::empty());
        }
    }
}

/// A member is read back in its parts, where a comma or a closing brace
/// follows it: its name, and behind the colon its value.
proof fn lemma_read_member(entry: (Field, Datum), rest: Seq<char>)
    requires
        rest.len() > 0,
        rest[0] == ',' || rest[0] == '}',
    ensures
        read_string(json_member(entry) + rest) == Some(
            (entry.0.key_text(), seq![':'] + (json_value(entry.1) + rest)),
        ),
        field_named(entry.0.key_text()) == Some(entry.0),
        read_value(json_value(entry.1) + rest) == Some((entry.1, rest)),
{
    let after_key = seq![':'] + (json_value(entry.1) + rest);
    assert(json_member(entry) + rest =~= json_string_text(entry.0.key_text()) + after_key) by {
        lemma_key_is_plain(entry.0);
    }
    lemma_read_string(entry.0.key_text(), after_key);
    lemma_field_named(entry.0);
    lemma_read_value(entry.1, rest);
}

/// What stands behind the member at place `from`: the closing brace, or a
/// comma and the members that follow with the closing brace behind them.
pub open spec fn behind_member(list: Seq<(Field, Datum)>, from: int) -> Seq<char> {
    if from + 1 == list.len() {
        seq!['}']
    } else {
        seq![','] + members_from(list, from + 1).push('}')
    }
}

/// The members from a place on, the closing brace behind them, are read
/// back as the fields and values from that place on.
proof fn lemma_read_members(list: Seq<(Field, Datum)>, from: int, read: Seq<(Field, Datum)>)
    requires
        0 <= from < list.len(),
    ensures
        read_members(members_from(list, from).push('}'), read) == Some(read + list.skip(from)),
    decreases list.len() - from,
{
    let entry = list[from];
    let text = members_from(list, from).push('}');
    let rest = behind_member(list, from);
    let after_key = seq![':'] + (json_value(entry.1) + rest);
    let list_read = read.push(entry);
    lemma_read_member(entry, rest);
    assert(text =~= json_member(entry) + rest);
    assert(after_key[0] == ':');
    assert(after_key.skip(1) =~= json_value(entry.1) + rest);
    assert(rest.len() < text.len());
    if from + 1 == list.len() {
        assert(list_read =~= read + list.skip(from));
        assert(read_members(text, read) == Some(list_read));
    } else {
        assert(rest[0] == ',');
        assert(rest.skip(1) =~= members_from(list, from + 1).push('}'));
        lemma_read_members(list, from + 1, list_read);
        assert(list_read + list.skip(from + 1) =~= read + list.skip(from));
        assert(read_members(text, read) == read_members(rest.skip(1), list_read));
    }
}

/// Reading a body gives back the very list of fields and values that it
/// was written from.
pub proof fn lemma_body_reads_back(list: Seq<(Field, Datum)>)
    ensures
        read_body(json_text(list)) == Some(list),
{
    let text = json_text(list);
    if list.len() == 0 {
        assert(text =~= seq!['{', '}']);
        assert(list =~= Seq::<(Field, Datum)>::empty());
    } else {
        lemma_members_from(list, list.len() as int);
        assert(list.take(list.len() as int) =~= list);
        assert(json_members(list) =~= members_from(list, 0));
        assert(text.skip(1) =~= members_from(list, 0).push('}'));
        lemma_read_members(list, 0, Seq::empty());
        assert(Seq::<(Field, Datum)>::empty() + list.skip(0) =~= list);
        assert(text[0] == '{');
        assert(text[1] == '"') by {
            assert(members_from(list, 0)[0] == '"');
        }
    }
}

/// What is written into the body of a request is what is read out of it:
/// reading the JSON body of a parameter set gives back its populated
/// fields, each with the value that was set, and these rebuild the set.
pub proof fn lemma_json_body_round_trip(params: Params)
    ensures
        read_body(json_text(entries(params@))) == Some(entries(params@)),
        from_entries(read_body(json_text(entries(params@)))->0) == params@,
{
    lemma_body_reads_back(entries(params@));
    lemma_entries_round_trip(params);
}

} // verus!
