//! Small verified operations on text.

use vstd::prelude::*;
use vstd::string::*;
use vstd::utf8::*;

verus! {

/// The characters of an optional text.
pub open spec fn text_view(text: Option<String>) -> Option<Seq<char>> {
    match text {
        Some(s) => Some(s@),
        None => None,
    }
}

/// Two character sequences with the same UTF-8 encoding are the same.
pub proof fn lemma_encoding_decides_text(a: Seq<char>, b: Seq<char>)
    requires
        encode_utf8(a) == encode_utf8(b),
    ensures
        a == b,
{
    encode_utf8_decode_utf8(a);
    encode_utf8_decode_utf8(b);
}

/// Whether two texts hold the same characters.
pub fn same_text(a: &str, b: &str) -> (same: bool)
    ensures
        same == (a@ == b@),
{
    let left = a.as_bytes();
    let right = b.as_bytes();
    if left.len() != right.len() {
        return false;
    }
    let mut i: usize = 0;
    while i < left.len()
        invariant
            i <= left.len(),
            left.len() == right.len(),
            left@ == a.spec_bytes(),
            right@ == b.spec_bytes(),
            forall|j: int| 0 <= j < i ==> left@[j] == right@[j],
        decreases left.len() - i,
    {
        if left[i] != right[i] {
            return false;
        }
        i = i + 1;
    }
    proof {
        assert(left@ =~= right@);
        lemma_encoding_decides_text(a@, b@);
    }
    true
}

/// Whether `c` is white space, as Unicode defines it.
pub open spec fn is_space(c: char) -> bool {
    let code = c as u32;
    ||| 0x09 <= code <= 0x0d
    ||| code == 0x20
    ||| code == 0x85
    ||| code == 0xa0
    ||| code == 0x1680
    ||| 0x2000 <= code <= 0x200a
    ||| code == 0x2028
    ||| code == 0x2029
    ||| code == 0x202f
    ||| code == 0x205f
    ||| code == 0x3000
}

/// Tests a character for white space.
pub fn is_space_char(c: char) -> (space: bool)
    ensures
        space == is_space(c),
{
    let code = c as u32;
    (0x09 <= code && code <= 0x0d) || code == 0x20 || code == 0x85 || code == 0xa0 || code
        == 0x1680 || (0x2000 <= code && code <= 0x200a) || code == 0x2028 || code == 0x2029
        || code == 0x202f || code == 0x205f || code == 0x3000
}

/// A text without the white space it starts with.
pub open spec fn trim_start(text: Seq<char>) -> Seq<char>
    decreases text.len(),
{
    if text.len() > 0 && is_space(text.first()) {
        trim_start(text.drop_first())
    } else {
        text
    }
}

/// A text without the white space it ends with.
pub open spec fn trim_end(text: Seq<char>) -> Seq<char>
    decreases text.len(),
{
    if text.len() > 0 && is_space(text.last()) {
        trim_end(text.drop_last())
    } else {
        text
    }
}

/// A text without the white space around it.
pub open spec fn trimmed(text: Seq<char>) -> Seq<char> {
    trim_end(trim_start(text))
}

/// The part of a text between the white space around it.
pub fn trim(text: &str) -> (inner: &str)
    ensures
        inner@ == trimmed(text@),
{
    let len = text.unicode_len();
    let mut start: usize = 0;
    proof {
        assert(text@.skip(0) == text@);
    }
    while start < len
        invariant
            start <= len,
            len == text@.len(),
            trim_start(text@) == trim_start(text@.skip(start as int)),
        ensures
            start == len || !is_space(text@[start as int]),
        decreases len - start,
    {
        if !is_space_char(text.get_char(start)) {
            break ;
        }
        proof {
            assert(text@.skip(start as int).drop_first() == text@.skip(start + 1));
        }
        start = start + 1;
    }
    proof {
        assert(text@.skip(start as int) == text@.subrange(start as int, len as int));
        assert(trim_start(text@) == text@.skip(start as int));
    }
    let mut end: usize = len;
    while end > start
        invariant
            start <= end <= len,
            len == text@.len(),
            trimmed(text@) == trim_end(text@.subrange(start as int, end as int)),
        ensures
            end == start || !is_space(text@[end - 1]),
        decreases end - start,
    {
        if !is_space_char(text.get_char(end - 1)) {
            break ;
        }
        proof {
            assert(text@.subrange(start as int, end as int).drop_last() == text@.subrange(
                start as int,
                end - 1,
            ));
        }
        end = end - 1;
    }
    text.substring_char(start, end)
}

/// The pieces of a text between its commas: one more than it has commas,
/// none of them holding a comma.
pub open spec fn split_commas(text: Seq<char>) -> Seq<Seq<char>>
    decreases text.len(),
{
    if text.len() == 0 {
        seq![Seq::<char>::empty()]
    } else {
        let pieces = split_commas(text.drop_last());
        if text.last() == ',' {
            pieces.push(Seq::<char>::empty())
        } else {
            pieces.drop_last().push(pieces.last().push(text.last()))
        }
    }
}

/// Splitting loses nothing and leaves no comma behind: a text is split into
/// at least one piece, no piece holds a comma, and the pieces joined with
/// commas are the text again.
pub proof fn lemma_split_commas_rejoins(text: Seq<char>)
    ensures
        split_commas(text).len() >= 1,
        forall|i: int, j: int|
            0 <= i < split_commas(text).len() && 0 <= j < split_commas(text)[i].len()
                ==> split_commas(text)[i][j] != ',',
        joined(split_commas(text), seq![',']) == text,
    decreases text.len(),
{
    let comma = seq![','];
    if text.len() == 0 {
        assert(joined(split_commas(text), comma) =~= text);
    } else {
        let shorter = text.drop_last();
        let pieces = split_commas(shorter);
        lemma_split_commas_rejoins(shorter);
        let after = split_commas(text);
        if text.last() == ',' {
            assert(after.drop_last() == pieces);
            assert(joined(after, comma) =~= shorter + comma);
            assert(shorter + comma =~= text);
        } else {
            let grown = pieces.last().push(text.last());
            assert(after.last() == grown);
            assert forall|i: int, j: int| 0 <= i < after.len() && 0 <= j < after[i].len() implies
                after[i][j] != ',' by {
                if i < after.len() - 1 {
                    assert(after[i] == pieces[i]);
                } else if j < pieces.last().len() {
                    assert(after[i][j] == pieces[pieces.len() - 1][j]);
                }
            }
            if pieces.len() == 1 {
                assert(joined(after, comma) =~= shorter.push(text.last()));
            } else {
                assert(after.drop_last() == pieces.drop_last());
                assert(joined(after, comma) =~= (joined(pieces.drop_last(), comma) + comma
                    + pieces.last()).push(text.last()));
            }
            assert(shorter.push(text.last()) =~= text);
        }
    }
}

/// The characters of each text of a list.
pub open spec fn texts(list: Seq<String>) -> Seq<Seq<char>> {
    list.map_values(|text: String| text@)
}

/// The pieces of a text between its commas, each without the white space
/// around it.
pub open spec fn trimmed_pieces(text: Seq<char>) -> Seq<Seq<char>> {
    split_commas(text).map_values(|piece: Seq<char>| trimmed(piece))
}

/// Splits a text at its commas and trims each piece.
pub fn split_and_trim(text: &str) -> (pieces: Vec<String>)
    ensures
        texts(pieces@) == trimmed_pieces(text@),
{
    let len = text.unicode_len();
    let mut pieces: Vec<String> = Vec::new();
    let mut start: usize = 0;
    let mut i: usize = 0;
    proof {
        assert(text@.take(0) =~= Seq::<char>::empty());
        assert(text@.subrange(0, 0) =~= Seq::<char>::empty());
    }
    while i < len
        invariant
            start <= i <= len,
            len == text@.len(),
            split_commas(text@.take(i as int)).len() == pieces.len() + 1,
            split_commas(text@.take(i as int)).last() == text@.subrange(start as int, i as int),
            forall|k: int|
                0 <= k < pieces.len() ==> pieces@[k]@ == trimmed(
                    split_commas(text@.take(i as int))[k],
                ),
        decreases len - i,
    {
        proof {
            assert(text@.take(i + 1).drop_last() == text@.take(i as int));
            assert(text@.take(i + 1).last() == text@[i as int]);
        }
        if text.get_char(i) == ',' {
            pieces.push(trim(text.substring_char(start, i)).to_owned());
            start = i + 1;
            proof {
                assert(text@.subrange(start as int, i + 1) =~= Seq::<char>::empty());
            }
        } else {
            proof {
                assert(text@.subrange(start as int, i as int).push(text@[i as int])
                    == text@.subrange(start as int, i + 1));
            }
        }
        i = i + 1;
    }
    pieces.push(trim(text.substring_char(start, len)).to_owned());
    proof {
        assert(text@.take(len as int) == text@);
        assert(texts(pieces@) =~= trimmed_pieces(text@));
    }
    pieces
}

/// The parts of a list, with a separator between each two.
pub open spec fn joined(parts: Seq<Seq<char>>, separator: Seq<char>) -> Seq<char>
    decreases parts.len(),
{
    if parts.len() == 0 {
        Seq::empty()
    } else if parts.len() == 1 {
        parts[0]
    } else {
        joined(parts.drop_last(), separator) + separator + parts.last()
    }
}

/// Joins the texts of a list with a separator.
pub fn join(parts: &Vec<String>, separator: &str) -> (text: String)
    ensures
        text@ == joined(texts(parts@), separator@),
{
    let mut text = String::new();
    let mut i: usize = 0;
    proof {
        assert(texts(parts@).take(0) =~= Seq::<Seq<char>>::empty());
    }
    while i < parts.len()
        invariant
            i <= parts.len(),
            text@ == joined(texts(parts@).take(i as int), separator@),
        decreases parts.len() - i,
    {
        proof {
            assert(texts(parts@).take(i + 1).drop_last() == texts(parts@).take(i as int));
            assert(texts(parts@).take(i + 1).last() == parts@[i as int]@);
        }
        if i > 0 {
            text.append(separator);
        } else {
            proof {
                assert(text@ + parts@[0]@ =~= parts@[0]@);
            }
        }
        text.append(parts[i].as_str());
        i = i + 1;
    }
    proof {
        assert(texts(parts@).take(parts.len() as int) == texts(parts@));
    }
    text
}

/// Whether `c` is a decimal digit.
pub open spec fn is_digit(c: char) -> bool {
    0x30 <= c as u32 <= 0x39
}

/// Whether a text is made of decimal digits alone.
pub open spec fn all_digits(text: Seq<char>) -> bool {
    forall|i: int| 0 <= i < text.len() ==> is_digit(#[trigger] text[i])
}

/// The number that a text of decimal digits writes.
pub open spec fn decimal_value(digits: Seq<char>) -> nat
    decreases digits.len(),
{
    if digits.len() == 0 {
        0
    } else {
        decimal_value(digits.drop_last()) * 10 + (digits.last() as u32 - 0x30) as nat
    }
}

/// The number that a text writes in decimal, where it writes one up to
/// `max`: digits alone, at least one, after at most one plus sign.
pub open spec fn unsigned_decimal(text: Seq<char>, max: nat) -> Option<nat> {
    let digits = if text.len() > 0 && text.first() == '+' {
        text.drop_first()
    } else {
        text
    };
    if digits.len() > 0 && all_digits(digits) && decimal_value(digits) <= max {
        Some(decimal_value(digits))
    } else {
        None
    }
}

/// More digits never write a smaller number.
pub proof fn lemma_decimal_value_grows(digits: Seq<char>, shorter: int)
    requires
        all_digits(digits),
        0 <= shorter <= digits.len(),
    ensures
        decimal_value(digits.take(shorter)) <= decimal_value(digits),
    decreases digits.len(),
{
    if shorter < digits.len() {
        let rest = digits.drop_last();
        assert(is_digit(digits[digits.len() - 1]));
        assert forall|i: int| 0 <= i < rest.len() implies is_digit(#[trigger] rest[i]) by {
            assert(rest[i] == digits[i]);
        }
        lemma_decimal_value_grows(rest, shorter);
        assert(rest.take(shorter) == digits.take(shorter));
    } else {
        assert(digits.take(shorter) == digits);
    }
}

/// Reads a number up to 65535 written in decimal.
pub fn parse_u16(text: &str) -> (value: Option<u16>)
    ensures
        match unsigned_decimal(text@, 65535) {
            Some(number) => value == Some(number as u16),
            None => value is None,
        },
{
    let len = text.unicode_len();
    if len == 0 {
        return None;
    }
    let first: usize = if text.get_char(0) == '+' {
        1
    } else {
        0
    };
    if first == len {
        return None;
    }
    let ghost digits = text@.subrange(first as int, len as int);
    proof {
        if first == 1 {
            assert(digits == text@.drop_first());
        } else {
            assert(digits == text@);
        }
        assert(digits.take(0) =~= Seq::<char>::empty());
    }
    let mut value: u32 = 0;
    let mut i: usize = first;
    while i < len
        invariant
            first <= i <= len,
            len == text@.len(),
            digits == text@.subrange(first as int, len as int),
            digits == if text@.first() == '+' {
                text@.drop_first()
            } else {
                text@
            },
            all_digits(digits.take(i - first)),
            value == decimal_value(digits.take(i - first)),
            value <= 65535,
        decreases len - i,
    {
        let code = text.get_char(i) as u32;
        if code < 0x30 || code > 0x39 {
            proof {
                assert(!is_digit(digits[i - first]));
            }
            return None;
        }
        proof {
            assert(digits.take(i + 1 - first).drop_last() == digits.take(i - first));
            assert(digits.take(i + 1 - first).last() == text@[i as int]);
            assert forall|k: int| 0 <= k < i + 1 - first implies is_digit(
                #[trigger] digits.take(i + 1 - first)[k],
            ) by {
                if k < i - first {
                    assert(digits.take(i - first)[k] == digits[k]);
                }
            }
        }
        value = value * 10 + (code - 0x30);
        if value > 65535 {
            proof {
                if all_digits(digits) {
                    lemma_decimal_value_grows(digits, i + 1 - first);
                }
            }
            return None;
        }
        i = i + 1;
    }
    proof {
        assert(digits.take(len - first) == digits);
    }
    Some(value as u16)
}

} // verus!
