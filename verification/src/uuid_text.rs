//! The textual form of a player's UUID: thirty-two hexadecimal digits in a
//! row, or the same digits in five groups with hyphens between them.

use vstd::prelude::*;
use vstd::string::StringExecFns;
use vstd::string::StringSliceAdditionalSpecFns;
use vstd::utf8::decode_utf8;
use vstd::utf8::encode_utf8;
use vstd::utf8::encode_utf8_decode_utf8;
use vstd::utf8::encode_utf8_valid_utf8;
use vstd::utf8::is_ascii_chars;
use vstd::utf8::is_ascii_chars_encode_utf8;
use vstd::utf8::is_char_boundary;
use vstd::utf8::is_char_boundary_iff_not_is_continuation_byte;
use vstd::utf8::is_char_boundary_start_end_of_seq;
use vstd::utf8::valid_utf8;

verus! {

/// The text that the bytes `from..to` of the encoding of `text` spell.
pub open spec fn part(text: Seq<char>, from: int, to: int) -> Seq<char> {
    decode_utf8(encode_utf8(text).subrange(from, to))
}

/// `text` can be cut after its 8th, 12th, 16th and 20th byte without
/// cutting through a character.
pub open spec fn can_format(text: Seq<char>) -> bool {
    let bytes = encode_utf8(text);
    &&& 20 <= bytes.len()
    &&& is_char_boundary(bytes, 8)
    &&& is_char_boundary(bytes, 12)
    &&& is_char_boundary(bytes, 16)
    &&& is_char_boundary(bytes, 20)
}

/// `text` in five groups of 8, 4, 4, 4 and all remaining bytes, with a
/// hyphen between one group and the next.
pub open spec fn hyphenated(text: Seq<char>) -> Seq<char> {
    let end = encode_utf8(text).len() as int;
    part(text, 0, 8) + seq!['-'] + part(text, 8, 12) + seq!['-'] + part(text, 12, 16) + seq!['-']
        + part(text, 16, 20) + seq!['-'] + part(text, 20, end)
}

/// A position at which a byte sequence may be cut stays one when the bytes
/// before an earlier cut are dropped.
proof fn lemma_boundary_in_tail(bytes: Seq<u8>, cut: int, at: int)
    requires
        valid_utf8(bytes),
        valid_utf8(bytes.subrange(cut, bytes.len() as int)),
        0 <= cut <= at <= bytes.len(),
        is_char_boundary(bytes, at),
    ensures
        is_char_boundary(bytes.subrange(cut, bytes.len() as int), at - cut),
{
    let tail = bytes.subrange(cut, bytes.len() as int);
    if at == bytes.len() {
        is_char_boundary_start_end_of_seq(tail);
    } else {
        is_char_boundary_iff_not_is_continuation_byte(bytes, at);
        is_char_boundary_iff_not_is_continuation_byte(tail, at - cut);
        assert(tail[at - cut] == bytes[at]);
    }
}

/// Puts the hyphens into a UUID written as digits in a row.
pub fn format_uuid(uuid: String) -> (out: String)
    requires
        can_format(uuid@),
    ensures
        out@ == hyphenated(uuid@),
{
    let ghost bytes = encode_utf8(uuid@);
    let ghost end = bytes.len() as int;
    proof {
        encode_utf8_valid_utf8(uuid@);
    }
    let whole = uuid.as_str();
    let (first, rest) = whole.split_at(8);
    proof {
        encode_utf8_valid_utf8(rest@);
        encode_utf8_decode_utf8(first@);
        assert(rest.spec_bytes() == bytes.subrange(8, end));
        lemma_boundary_in_tail(bytes, 8, 12);
    }
    let (second, rest) = rest.split_at(4);
    proof {
        encode_utf8_valid_utf8(rest@);
        encode_utf8_decode_utf8(second@);
        assert(second.spec_bytes() == bytes.subrange(8, 12));
        assert(rest.spec_bytes() == bytes.subrange(12, end));
        lemma_boundary_in_tail(bytes, 12, 16);
    }
    let (third, rest) = rest.split_at(4);
    proof {
        encode_utf8_valid_utf8(rest@);
        encode_utf8_decode_utf8(third@);
        assert(third.spec_bytes() == bytes.subrange(12, 16));
        assert(rest.spec_bytes() == bytes.subrange(16, end));
        lemma_boundary_in_tail(bytes, 16, 20);
    }
    let (fourth, fifth) = rest.split_at(4);
    proof {
        encode_utf8_decode_utf8(fourth@);
        encode_utf8_decode_utf8(fifth@);
        assert(fourth.spec_bytes() == bytes.subrange(16, 20));
        assert(fifth.spec_bytes() == bytes.subrange(20, end));
        reveal_strlit("-");
        assert("-"@ == seq!['-']);
    }
    let mut out = String::from_str(first);
    out.append("-");
    out.append(second);
    out.append("-");
    out.append(third);
    out.append("-");
    out.append(fourth);
    out.append("-");
    out.append(fifth);
    out
}

/// Puts the hyphens into `uuid` where that can be done without cutting
/// through a character, and says so where it cannot.
pub fn try_format_uuid(uuid: String) -> (out: Option<String>)
    ensures
        can_format(uuid@) ==> (out matches Some(text) && text@ == hyphenated(uuid@)),
        !can_format(uuid@) ==> out is None,
{
    let text = uuid.as_str();
    let fits = text.is_char_boundary(8) && text.is_char_boundary(12) && text.is_char_boundary(16)
        && text.is_char_boundary(20);
    proof {
        encode_utf8_valid_utf8(uuid@);
    }
    if fits {
        Some(format_uuid(uuid))
    } else {
        None
    }
}

/// The part of a text of ASCII characters that its bytes `from..to` spell
/// is its characters `from..to`.
proof fn lemma_part_of_ascii(text: Seq<char>, from: int, to: int)
    requires
        is_ascii_chars(text),
        0 <= from <= to <= text.len(),
    ensures
        part(text, from, to) == text.subrange(from, to),
{
    let sub = text.subrange(from, to);
    assert(is_ascii_chars(sub)) by {
        assert forall|i: int| 0 <= i < sub.len() implies '\0' <= #[trigger] sub[i] <= '\u{7f}' by {
            assert(sub[i] == text[from + i]);
        }
    }
    is_ascii_chars_encode_utf8(text);
    is_ascii_chars_encode_utf8(sub);
    let bytes = encode_utf8(text);
    assert(encode_utf8(sub) =~= bytes.subrange(from, to)) by {
        assert forall|i: int| 0 <= i < sub.len() implies encode_utf8(sub)[i] == bytes.subrange(
            from,
            to,
        )[i] by {
            assert(sub[i] == text[from + i]);
            assert(encode_utf8(sub)[i] == sub[i] as u8);
            assert(bytes[from + i] == text[from + i] as u8);
        }
    }
    encode_utf8_decode_utf8(sub);
}

/// A text of ASCII characters may be cut anywhere.
proof fn lemma_boundary_of_ascii(text: Seq<char>, at: int)
    requires
        is_ascii_chars(text),
        0 <= at <= text.len(),
    ensures
        is_char_boundary(encode_utf8(text), at),
{
    let bytes = encode_utf8(text);
    encode_utf8_valid_utf8(text);
    is_ascii_chars_encode_utf8(text);
    if at == bytes.len() {
        is_char_boundary_start_end_of_seq(bytes);
    } else {
        is_char_boundary_iff_not_is_continuation_byte(bytes, at);
        let c = text[at];
        assert(bytes[at] == c as u8);
        assert('\0' <= c <= '\u{7f}');
        assert((c as u32) < 128);
        assert(c as u8 == c as u32);
    }
}

/// Of a text of at least 20 ASCII characters, digits of a UUID among them,
/// the five groups are its characters 0..8, 8..12, 12..16, 16..20 and the
/// rest. Thirty-two digits in a row come out in the usual 8-4-4-4-12 form.
pub proof fn lemma_hyphenated_ascii(text: Seq<char>)
    requires
        is_ascii_chars(text),
        text.len() >= 20,
    ensures
        can_format(text),
        hyphenated(text) == text.subrange(0, 8) + seq!['-'] + text.subrange(8, 12) + seq!['-']
            + text.subrange(12, 16) + seq!['-'] + text.subrange(16, 20) + seq!['-']
            + text.subrange(20, text.len() as int),
        hyphenated(text).len() == text.len() + 4,
{
    is_ascii_chars_encode_utf8(text);
    lemma_boundary_of_ascii(text, 8);
    lemma_boundary_of_ascii(text, 12);
    lemma_boundary_of_ascii(text, 16);
    lemma_boundary_of_ascii(text, 20);
    lemma_part_of_ascii(text, 0, 8);
    lemma_part_of_ascii(text, 8, 12);
    lemma_part_of_ascii(text, 12, 16);
    lemma_part_of_ascii(text, 16, 20);
    lemma_part_of_ascii(text, 20, text.len() as int);
}

} // verus!
