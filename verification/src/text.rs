//! Searching a text through its UTF-8 bytes.
//!
//! A text is searched fastest byte by byte. These lemmas show that for a
//! plain ASCII needle the bytes tell the truth about the characters: the
//! needle's bytes occur in the text's bytes exactly when the needle occurs
//! in the text.

use vstd::prelude::*;
use vstd::utf8::*;

use crate::search::contains_run;
use crate::search::occurs_at;

verus! {

/// Encoding a text piece by piece gives the encoding of the whole.
proof fn lemma_encode_concat(front: Seq<char>, back: Seq<char>)
    ensures
        encode_utf8(front + back) == encode_utf8(front) + encode_utf8(back),
    decreases front.len(),
{
    if front.len() == 0 {
        assert(front + back =~= back);
        assert(encode_utf8(front) + encode_utf8(back) =~= encode_utf8(back));
    } else {
        let whole = front + back;
        assert(whole[0] == front[0]);
        assert(whole.drop_first() =~= front.drop_first() + back);
        lemma_encode_concat(front.drop_first(), back);
        assert(encode_utf8(whole) =~= encode_utf8(front) + encode_utf8(back));
    }
}

/// Where a needle occurs in a text, its bytes occur in the text's bytes.
proof fn lemma_occurrence_encodes(text: Seq<char>, needle: Seq<char>, at: int)
    requires
        occurs_at(text, needle, at),
    ensures
        contains_run(encode_utf8(text), encode_utf8(needle)),
{
    let front = text.subrange(0, at);
    let back = text.subrange(at + needle.len(), text.len() as int);
    assert(text =~= front + needle + back);
    lemma_encode_concat(front + needle, back);
    lemma_encode_concat(front, needle);
    let offset: int = encode_utf8(front).len() as int;
    assert(encode_utf8(text).subrange(offset, offset + encode_utf8(needle).len()) =~= encode_utf8(
        needle,
    ));
    assert(occurs_at(encode_utf8(text), encode_utf8(needle), offset));
}

/// The bytes of a text after those of its first character are the bytes of
/// the rest of the text; the first character's bytes after the first one are
/// continuation bytes, which no ASCII character has.
proof fn lemma_first_character(text: Seq<char>)
    requires
        text.len() > 0,
    ensures
        valid_first_scalar(encode_utf8(text)),
        decode_first_scalar(encode_utf8(text)) == text[0] as u32,
        1 <= length_of_first_scalar(encode_utf8(text)) <= encode_utf8(text).len(),
        encode_utf8(text.drop_first()) == encode_utf8(text).subrange(
            length_of_first_scalar(encode_utf8(text)),
            encode_utf8(text).len() as int,
        ),
        forall|i: int|
            0 < i < length_of_first_scalar(encode_utf8(text)) ==> 0x80 <= #[trigger] encode_utf8(
                text,
            )[i],
{
    let bytes = encode_utf8(text);
    encode_utf8_first_scalar(text);
    assert(pop_first_scalar(bytes) =~= encode_utf8(text.drop_first()));
}

/// An ASCII byte stands for the character with the same number.
proof fn lemma_ascii_byte(byte: u8)
    by (bit_vector)
    requires
        byte <= 0x7f,
    ensures
        byte & 0x7f == byte,
{
}

/// Where the bytes of a text start with the bytes of an ASCII needle, the
/// text starts with the needle.
proof fn lemma_ascii_prefix(text: Seq<char>, needle: Seq<char>)
    requires
        is_ascii_chars(needle),
        occurs_at(encode_utf8(text), encode_utf8(needle), 0),
    ensures
        occurs_at(text, needle, 0),
    decreases needle.len(),
{
    if needle.len() == 0 {
        assert(text.subrange(0, 0) =~= needle);
    } else {
        let bytes = encode_utf8(text);
        let wanted = encode_utf8(needle);
        is_ascii_chars_encode_utf8(needle);
        assert(wanted[0] == needle[0] as u8);
        assert(bytes.subrange(0, wanted.len() as int)[0] == bytes[0]);
        assert(bytes[0] == wanted[0]);
        assert(text.len() > 0);
        lemma_first_character(text);
        lemma_ascii_byte(bytes[0]);
        assert(text[0] == needle[0]) by {
            let scalar = text[0] as u32;
            assert(scalar == needle[0] as u32);
            char_u32_cast(text[0], scalar);
            char_u32_cast(needle[0], scalar);
        }
        let text_rest = text.drop_first();
        let needle_rest = needle.drop_first();
        assert(is_ascii_chars(needle_rest));
        assert(encode_utf8(text_rest).subrange(0, encode_utf8(needle_rest).len() as int)
            =~= encode_utf8(needle_rest)) by {
            assert forall|i: int| 0 <= i < encode_utf8(needle_rest).len() implies encode_utf8(
                text_rest,
            )[i] == encode_utf8(needle_rest)[i] by {
                assert(bytes.subrange(0, wanted.len() as int)[i + 1] == bytes[i + 1]);
            }
        }
        lemma_ascii_prefix(text_rest, needle_rest);
        assert(text.subrange(0, needle.len() as int) =~= needle) by {
            assert forall|i: int| 0 <= i < needle.len() implies text[i] == needle[i] by {
                if i > 0 {
                    assert(text_rest.subrange(0, needle_rest.len() as int)[i - 1] == text_rest[i
                        - 1]);
                    assert(needle_rest[i - 1] == needle[i]);
                }
            }
        }
    }
}

/// Where the bytes of an ASCII needle occur in the bytes of a text, the
/// needle occurs in the text.
proof fn lemma_ascii_occurrence_decodes(text: Seq<char>, needle: Seq<char>, at: int)
    requires
        is_ascii_chars(needle),
        occurs_at(encode_utf8(text), encode_utf8(needle), at),
    ensures
        contains_run(text, needle),
    decreases text.len(),
{
    let bytes = encode_utf8(text);
    let wanted = encode_utf8(needle);
    is_ascii_chars_encode_utf8(needle);
    if needle.len() == 0 {
        assert(text.subrange(0, 0) =~= needle);
        assert(occurs_at(text, needle, 0));
    } else if at == 0 {
        lemma_ascii_prefix(text, needle);
    } else {
        assert(text.len() > 0);
        lemma_first_character(text);
        let width: int = length_of_first_scalar(bytes);
        assert(bytes.subrange(at, at + wanted.len())[0] == bytes[at]);
        assert(bytes[at] == needle[0] as u8);
        assert(at >= width);
        let rest = text.drop_first();
        assert(encode_utf8(rest).subrange(at - width, at - width + wanted.len()) =~= wanted) by {
            assert forall|i: int| 0 <= i < wanted.len() implies encode_utf8(rest)[at - width + i]
                == wanted[i] by {
                assert(bytes.subrange(at, at + wanted.len())[i] == bytes[at + i]);
            }
        }
        lemma_ascii_occurrence_decodes(rest, needle, at - width);
        let inner: int = choose|k: int| occurs_at(rest, needle, k);
        assert(text.subrange(inner + 1, inner + 1 + needle.len()) =~= rest.subrange(
            inner,
            inner + needle.len(),
        ));
        assert(occurs_at(text, needle, inner + 1));
    }
}

/// An ASCII needle occurs in a text exactly when its bytes occur in the
/// bytes of the text.
pub proof fn lemma_ascii_search_in_bytes(text: Seq<char>, needle: Seq<char>)
    requires
        is_ascii_chars(needle),
    ensures
        contains_run(encode_utf8(text), encode_utf8(needle)) <==> contains_run(text, needle),
{
    if contains_run(text, needle) {
        let at: int = choose|at: int| occurs_at(text, needle, at);
        lemma_occurrence_encodes(text, needle, at);
    }
    if contains_run(encode_utf8(text), encode_utf8(needle)) {
        let at: int = choose|at: int| occurs_at(encode_utf8(text), encode_utf8(needle), at);
        lemma_ascii_occurrence_decodes(text, needle, at);
    }
}

} // verus!
