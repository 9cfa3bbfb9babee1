//! Textual MAC addresses.
//!
//! Two notations are read. In the delimited one, six fields of one or two
//! hexadecimal digits are separated by `:` or `-`; the two separators may be
//! mixed within one address. In the bare one, twelve hexadecimal digits
//! stand alone and are read in pairs. Digits are accepted in either case.

use vstd::prelude::*;
use vstd::string::*;

verus! {

/// Whether `c` separates two fields of a delimited address.
pub open spec fn is_separator(c: char) -> bool {
    c == ':' || c == '-'
}

/// Whether `c` is a hexadecimal digit, in either case.
pub open spec fn is_hex_digit(c: char) -> bool {
    ('0' <= c <= '9') || ('a' <= c <= 'f') || ('A' <= c <= 'F')
}

/// The number that the hexadecimal digit `c` stands for.
pub open spec fn hex_digit_value(c: char) -> int {
    if '0' <= c <= '9' {
        c as int - '0' as int
    } else if 'a' <= c <= 'f' {
        c as int - 'a' as int + 10
    } else {
        c as int - 'A' as int + 10
    }
}

/// The byte written by `field`: one or two hexadecimal digits, the first
/// being the more significant. Anything else writes no byte.
pub open spec fn hex_byte(field: Seq<char>) -> Option<u8> {
    if field.len() == 1 && is_hex_digit(field[0]) {
        Some(hex_digit_value(field[0]) as u8)
    } else if field.len() == 2 && is_hex_digit(field[0]) && is_hex_digit(field[1]) {
        Some((16 * hex_digit_value(field[0]) + hex_digit_value(field[1])) as u8)
    } else {
        None
    }
}

/// Whether a separator occurs in `text`.
pub open spec fn has_separator(text: Seq<char>) -> bool {
    exists|i: int| 0 <= i < text.len() && is_separator(#[trigger] text[i])
}

/// The fields of `text`: the stretches between its separators, in order.
/// A text with `n` separators has `n + 1` fields, some of them possibly
/// empty.
pub open spec fn split_fields(text: Seq<char>) -> Seq<Seq<char>>
    decreases text.len(),
{
    if text.len() == 0 {
        seq![Seq::<char>::empty()]
    } else {
        let before = split_fields(text.drop_last());
        if is_separator(text.last()) {
            before.push(Seq::<char>::empty())
        } else {
            before.drop_last().push(before.last().push(text.last()))
        }
    }
}

/// The address written by `text` in the delimited notation.
pub open spec fn delimited_mac(text: Seq<char>) -> Option<Seq<u8>> {
    let fields = split_fields(text);
    if fields.len() == 6 && (forall|i: int| 0 <= i < 6 ==> hex_byte(#[trigger] fields[i]) is Some) {
        Some(Seq::new(6, |i: int| hex_byte(fields[i])->Some_0))
    } else {
        None
    }
}

/// The address written by `text` in the bare notation.
pub open spec fn bare_mac(text: Seq<char>) -> Option<Seq<u8>> {
    if text.len() == 12 && (forall|i: int| 0 <= i < 12 ==> is_hex_digit(#[trigger] text[i])) {
        Some(Seq::new(6, |i: int| hex_byte(text.subrange(2 * i, 2 * i + 2))->Some_0))
    } else {
        None
    }
}

/// The address written by `text`, if it writes one. A text that holds a
/// separator is read in the delimited notation, any other in the bare one.
pub open spec fn mac_of_text(text: Seq<char>) -> Option<Seq<u8>> {
    if has_separator(text) {
        delimited_mac(text)
    } else {
        bare_mac(text)
    }
}

/// The text that the ASCII bytes `bytes` encode.
pub open spec fn ascii_text(bytes: Seq<u8>) -> Seq<char> {
    Seq::new(bytes.len(), |i: int| bytes[i] as char)
}

/// Whether every byte of `bytes` is an ASCII code.
pub open spec fn is_ascii_bytes(bytes: Seq<u8>) -> bool {
    forall|i: int| 0 <= i < bytes.len() ==> #[trigger] bytes[i] < 128
}

/// A text always has at least one field.
pub proof fn lemma_split_fields_nonempty(text: Seq<char>)
    ensures
        split_fields(text).len() >= 1,
    decreases text.len(),
{
    if text.len() > 0 {
        lemma_split_fields_nonempty(text.drop_last());
    }
}

/// Every character of a text that is no separator stands in one of its
/// fields.
pub proof fn lemma_split_fields_cover(text: Seq<char>, i: int)
    requires
        0 <= i < text.len(),
        !is_separator(text[i]),
    ensures
        exists|k: int, j: int|
            0 <= k < split_fields(text).len() && 0 <= j < split_fields(text)[k].len()
                && #[trigger] split_fields(text)[k][j] == text[i],
    decreases text.len(),
{
    let before = split_fields(text.drop_last());
    let fields = split_fields(text);
    lemma_split_fields_nonempty(text.drop_last());
    if i == text.len() - 1 {
        let k = fields.len() - 1;
        let j = fields[k].len() - 1;
        assert(fields[k][j] == text[i]);
    } else {
        lemma_split_fields_cover(text.drop_last(), i);
        let (k, j) = choose|k: int, j: int|
            0 <= k < before.len() && 0 <= j < before[k].len() && #[trigger] before[k][j]
                == text.drop_last()[i];
        assert(fields[k][j] == text[i]);
    }
}

/// A text that writes an address holds ASCII characters only.
pub proof fn lemma_mac_text_is_ascii(text: Seq<char>)
    requires
        mac_of_text(text) is Some,
    ensures
        vstd::utf8::is_ascii_chars(text),
{
    let fields = split_fields(text);
    assert forall|i: int| 0 <= i < text.len() implies '\0' <= #[trigger] text[i] <= '\u{7f}' by {
        if is_separator(text[i]) {
        } else if has_separator(text) {
            lemma_split_fields_cover(text, i);
            let (k, j) = choose|k: int, j: int|
                0 <= k < fields.len() && 0 <= j < fields[k].len() && #[trigger] fields[k][j]
                    == text[i];
            assert(hex_byte(fields[k]) is Some);
            assert(is_hex_digit(fields[k][j]));
        } else {
            assert(is_hex_digit(text[i]));
        }
    }
}

/// An address has six bytes.
pub proof fn lemma_mac_has_six_bytes(text: Seq<char>)
    ensures
        mac_of_text(text) matches Some(mac) ==> mac.len() == 6,
{
}

/// The case of a digit does not matter: a lower-case letter and its
/// upper-case form stand for the same number.
pub proof fn lemma_hex_digit_ignores_case(lower: char, upper: char)
    requires
        'a' <= lower <= 'f',
        upper as int == lower as int - ('a' as int - 'A' as int),
    ensures
        is_hex_digit(lower),
        is_hex_digit(upper),
        hex_digit_value(lower) == hex_digit_value(upper),
        10 <= hex_digit_value(lower) <= 15,
{
}

/// The value of the hexadecimal digit with the ASCII code `b`.
fn hex_digit(b: u8) -> (value: Option<u8>)
    ensures
        value is Some <==> is_hex_digit(b as char),
        value matches Some(v) ==> v == hex_digit_value(b as char) && v < 16,
{
    if 0x30 <= b && b <= 0x39 {
        Some(b - 0x30)
    } else if 0x61 <= b && b <= 0x66 {
        Some(b - 0x61 + 10)
    } else if 0x41 <= b && b <= 0x46 {
        Some(b - 0x41 + 10)
    } else {
        None
    }
}

/// Reads the field that occupies `bytes[start..end]`.
fn parse_hex_field(bytes: &[u8], start: usize, end: usize) -> (value: Option<u8>)
    requires
        start <= end <= bytes@.len(),
    ensures
        value == hex_byte(ascii_text(bytes@).subrange(start as int, end as int)),
{
    let ghost field = ascii_text(bytes@).subrange(start as int, end as int);
    if end - start == 1 {
        assert(field[0] == bytes@[start as int] as char);
        hex_digit(bytes[start])
    } else if end - start == 2 {
        assert(field[0] == bytes@[start as int] as char);
        assert(field[1] == bytes@[start + 1] as char);
        match (hex_digit(bytes[start]), hex_digit(bytes[start + 1])) {
            (Some(high), Some(low)) => Some(16 * high + low),
            _ => None,
        }
    } else {
        None
    }
}

/// Whether a separator occurs among `bytes`.
fn contains_separator(bytes: &[u8]) -> (found: bool)
    ensures
        found == has_separator(ascii_text(bytes@)),
{
    let ghost text = ascii_text(bytes@);
    let mut i: usize = 0;
    while i < bytes.len()
        invariant
            i <= bytes@.len(),
            text == ascii_text(bytes@),
            forall|j: int| 0 <= j < i ==> !is_separator(#[trigger] text[j]),
        decreases bytes@.len() - i,
    {
        if bytes[i] == 0x3A || bytes[i] == 0x2D {
            assert(is_separator(text[i as int]));
            return true;
        }
        i += 1;
    }
    false
}

/// Finds the fields of `bytes`: for each, in order, the index of its first
/// byte and the index just past its last.
fn split_ranges(bytes: &[u8]) -> (ranges: Vec<(usize, usize)>)
    ensures
        ranges@.len() == split_fields(ascii_text(bytes@)).len(),
        forall|k: int|
            0 <= k < ranges@.len() ==> {
                &&& (#[trigger] ranges@[k]).0 <= ranges@[k].1 <= bytes@.len()
                &&& split_fields(ascii_text(bytes@))[k] == ascii_text(bytes@).subrange(
                    ranges@[k].0 as int,
                    ranges@[k].1 as int,
                )
            },
{
    let ghost text = ascii_text(bytes@);
    let mut ranges: Vec<(usize, usize)> = Vec::new();
    let mut start: usize = 0;
    let mut i: usize = 0;
    assert(text.take(0) =~= Seq::<char>::empty());
    assert(text.subrange(0, 0) =~= Seq::<char>::empty());
    while i < bytes.len()
        invariant
            start <= i <= bytes@.len(),
            text == ascii_text(bytes@),
            ranges@.len() + 1 == split_fields(text.take(i as int)).len(),
            split_fields(text.take(i as int)).last() == text.subrange(start as int, i as int),
            forall|k: int|
                0 <= k < ranges@.len() ==> {
                    &&& (#[trigger] ranges@[k]).0 <= ranges@[k].1 <= i
                    &&& split_fields(text.take(i as int))[k] == text.subrange(
                        ranges@[k].0 as int,
                        ranges@[k].1 as int,
                    )
                },
        decreases bytes@.len() - i,
    {
        let ghost before = split_fields(text.take(i as int));
        let ghost seen = text.take(i + 1);
        assert(seen.drop_last() =~= text.take(i as int));
        assert(seen.last() == text[i as int]);
        if bytes[i] == 0x3A || bytes[i] == 0x2D {
            assert(is_separator(text[i as int]));
            ranges.push((start, i));
            start = i + 1;
            assert(text.subrange(start as int, start as int) =~= Seq::<char>::empty());
        } else {
            assert(!is_separator(text[i as int]));
            assert(text.subrange(start as int, i as int).push(text[i as int]) =~= text.subrange(
                start as int,
                i + 1,
            ));
        }
        i += 1;
    }
    assert(text.take(i as int) =~= text);
    ranges.push((start, i));
    ranges
}

/// Reads `bytes` in the delimited notation.
fn parse_delimited(bytes: &[u8]) -> (result: Result<[u8; 6], ()>)
    ensures
        match delimited_mac(ascii_text(bytes@)) {
            Some(mac) => result is Ok && result->Ok_0@ == mac,
            None => result is Err,
        },
{
    let ghost fields = split_fields(ascii_text(bytes@));
    let ranges = split_ranges(bytes);
    if ranges.len() != 6 {
        return Err(());
    }
    let mut mac = [0u8;6];
    let mut i: usize = 0;
    while i < 6
        invariant
            i <= 6,
            ranges@.len() == 6,
            fields == split_fields(ascii_text(bytes@)),
            fields.len() == 6,
            forall|k: int|
                0 <= k < 6 ==> {
                    &&& (#[trigger] ranges@[k]).0 <= ranges@[k].1 <= bytes@.len()
                    &&& fields[k] == ascii_text(bytes@).subrange(
                        ranges@[k].0 as int,
                        ranges@[k].1 as int,
                    )
                },
            forall|k: int| 0 <= k < i ==> hex_byte(#[trigger] fields[k]) == Some(mac@[k]),
        decreases 6 - i,
    {
        let (start, end) = ranges[i];
        match parse_hex_field(bytes, start, end) {
            Some(value) => {
                mac[i] = value;
            },
            None => {
                assert(hex_byte(fields[i as int]) is None);
                return Err(());
            },
        }
        i += 1;
    }
    assert(mac@ =~= delimited_mac(ascii_text(bytes@))->Some_0);
    Ok(mac)
}

/// Reads `bytes` in the bare notation.
fn parse_bare(bytes: &[u8]) -> (result: Result<[u8; 6], ()>)
    ensures
        match bare_mac(ascii_text(bytes@)) {
            Some(mac) => result is Ok && result->Ok_0@ == mac,
            None => result is Err,
        },
{
    let ghost text = ascii_text(bytes@);
    if bytes.len() != 12 {
        return Err(());
    }
    let mut mac = [0u8;6];
    let mut i: usize = 0;
    while i < 6
        invariant
            i <= 6,
            bytes@.len() == 12,
            text == ascii_text(bytes@),
            forall|j: int| 0 <= j < 2 * i ==> is_hex_digit(#[trigger] text[j]),
            forall|k: int|
                0 <= k < i ==> hex_byte(#[trigger] text.subrange(2 * k, 2 * k + 2)) == Some(
                    mac@[k],
                ),
        decreases 6 - i,
    {
        let ghost pair = text.subrange(2 * i, 2 * i + 2);
        assert(pair[0] == text[2 * i]);
        assert(pair[1] == text[2 * i + 1]);
        match parse_hex_field(bytes, 2 * i, 2 * i + 2) {
            Some(value) => {
                mac[i] = value;
            },
            None => {
                assert(!is_hex_digit(text[2 * i]) || !is_hex_digit(text[2 * i + 1]));
                return Err(());
            },
        }
        i += 1;
    }
    assert(mac@ =~= bare_mac(text)->Some_0);
    Ok(mac)
}

/// Parses a MAC address written in the delimited or the bare notation.
///
/// Succeeds exactly on the texts that write an address, with the six bytes
/// in the order in which they are written.
pub fn parse_mac(mac_str: &str) -> (result: Result<[u8; 6], ()>)
    ensures
        match mac_of_text(mac_str@) {
            Some(mac) => result is Ok && result->Ok_0@ == mac,
            None => result is Err,
        },
{
    if !mac_str.is_ascii() {
        proof {
            if mac_of_text(mac_str@) is Some {
                lemma_mac_text_is_ascii(mac_str@);
            }
        }
        return Err(());
    }
    let bytes = mac_str.as_bytes();
    proof {
        broadcast use is_ascii_spec_bytes;

        assert(ascii_text(bytes@) =~= mac_str@);
    }
    if contains_separator(bytes) {
        parse_delimited(bytes)
    } else {
        parse_bare(bytes)
    }
}

} // verus!
