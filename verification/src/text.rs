//! Small helpers on text.

use vstd::prelude::*;
use vstd::string::StringSliceAdditionalSpecFns;

verus! {

/// Whether two string slices hold the same characters.
pub fn text_eq(a: &str, b: &str) -> (r: bool)
    ensures
        r == (a@ == b@),
{
    let left = a.as_bytes();
    let right = b.as_bytes();
    proof {
        vstd::utf8::encode_utf8_decode_utf8(a@);
        vstd::utf8::encode_utf8_decode_utf8(b@);
    }
    if left.len() != right.len() {
        return false;
    }
    let mut i: usize = 0;
    while i < left.len()
        invariant
            0 <= i <= left.len(),
            left.len() == right.len(),
            left@ == a.spec_bytes(),
            right@ == b.spec_bytes(),
            forall|k: int| 0 <= k < i ==> left@[k] == right@[k],
        decreases left.len() - i,
    {
        if left[i] != right[i] {
            return false;
        }
        i += 1;
    }
    assert(left@ =~= right@);
    true
}

/// Whether `index` is where `delimiter` first stands in `text`.
pub open spec fn is_first_at(text: Seq<char>, delimiter: char, index: int) -> bool {
    &&& 0 <= index < text.len()
    &&& text[index] == delimiter
    &&& forall|j: int| 0 <= j < index ==> text[j] != delimiter
}

/// The encoding of an ASCII character is the one byte with its code.
proof fn lemma_ascii_encoding(c: char)
    requires
        (c as u32) < 0x80,
    ensures
        vstd::utf8::encode_utf8(seq![c]) == seq![c as u8],
        vstd::utf8::decode_utf8(seq![c as u8]) == seq![c],
{
    let code = c as u32;
    assert((code & 0x7F) as u8 == code as u8) by (bit_vector)
        requires
            code < 0x80,
    ;
    assert(seq![c].drop_first() =~= Seq::<char>::empty());
    assert(vstd::utf8::encode_utf8(seq![c].drop_first()) =~= Seq::<u8>::empty()) by {
        reveal_with_fuel(vstd::utf8::encode_utf8, 1);
    }
    assert(vstd::utf8::encode_utf8(seq![c]) =~= seq![c as u8]) by {
        reveal_with_fuel(vstd::utf8::encode_utf8, 2);
    }
    vstd::utf8::encode_utf8_decode_utf8(seq![c]);
}

/// An ASCII character that occurs in a text occurs, as its code, among the
/// bytes of the text's encoding.
proof fn lemma_ascii_occurs_in_encoding(chars: Seq<char>, c: char)
    requires
        (c as u32) < 0x80,
        chars.contains(c),
    ensures
        vstd::utf8::encode_utf8(chars).contains(c as u8),
    decreases chars.len(),
{
    let bytes = vstd::utf8::encode_utf8(chars);
    let head = vstd::utf8::encode_scalar(chars[0] as u32);
    let tail = vstd::utf8::encode_utf8(chars.drop_first());
    assert(bytes == head + tail);
    if chars[0] == c {
        let code = c as u32;
        assert((code & 0x7F) as u8 == code as u8) by (bit_vector)
            requires
                code < 0x80,
        ;
        assert(head[0] == c as u8);
        assert(bytes[0] == c as u8);
    } else {
        let j = choose|j: int| 0 <= j < chars.len() && chars[j] == c;
        assert(chars.drop_first()[j - 1] == c);
        lemma_ascii_occurs_in_encoding(chars.drop_first(), c);
        let k = choose|k: int| 0 <= k < tail.len() && tail[k] == c as u8;
        assert(bytes[head.len() + k] == c as u8);
    }
}

/// Splits a text at the first occurrence of an ASCII delimiter: the two parts
/// are the text before the delimiter and the text after it. A text without
/// the delimiter is not split.
pub fn split_once<'a>(text: &'a str, delimiter: char) -> (r: Option<(&'a str, &'a str)>)
    requires
        (delimiter as u32) < 0x80,
    ensures
        match r {
            Some((before, after)) => is_first_at(text@, delimiter, before@.len() as int)
                && before@ == text@.subrange(0, before@.len() as int) && after@
                == text@.subrange(before@.len() as int + 1, text@.len() as int),
            None => !text@.contains(delimiter),
        },
{
    let bytes = text.as_bytes();
    let code = delimiter as u8;
    proof {
        vstd::utf8::encode_utf8_valid_utf8(text@);
        vstd::utf8::encode_utf8_decode_utf8(text@);
    }
    let mut i: usize = 0;
    while i < bytes.len()
        invariant
            0 <= i <= bytes.len(),
            bytes@ == text.spec_bytes(),
            vstd::utf8::valid_utf8(bytes@),
            vstd::utf8::decode_utf8(bytes@) == text@,
            (delimiter as u32) < 0x80,
            code == delimiter as u8,
            forall|k: int| 0 <= k < i ==> bytes@[k] != code,
        decreases bytes.len() - i,
    {
        if bytes[i] == code {
            proof {
                vstd::utf8::is_char_boundary_iff_not_is_continuation_byte(bytes@, i as int);
            }
            let (before, rest) = text.split_at(i);
            proof {
                vstd::utf8::encode_utf8_valid_utf8(rest@);
                reveal_with_fuel(vstd::utf8::is_char_boundary, 2);
                assert(rest.spec_bytes()[0] == code);
                assert(vstd::utf8::is_char_boundary(rest.spec_bytes(), 1));
            }
            let (mark, after) = rest.split_at(1);
            proof {
                let all = bytes@;
                let at = i as int;
                vstd::utf8::encode_utf8_decode_utf8(before@);
                vstd::utf8::encode_utf8_decode_utf8(rest@);
                vstd::utf8::encode_utf8_decode_utf8(mark@);
                vstd::utf8::encode_utf8_decode_utf8(after@);
                vstd::utf8::decode_utf8_split(all, at);
                vstd::utf8::decode_utf8_split(rest.spec_bytes(), 1);
                lemma_ascii_encoding(delimiter);
                assert(mark.spec_bytes() =~= seq![code]);
                assert(text@ =~= before@ + (seq![delimiter] + after@));
                if before@.contains(delimiter) {
                    lemma_ascii_occurs_in_encoding(before@, delimiter);
                    let k = choose|k: int|
                        0 <= k < before.spec_bytes().len() && before.spec_bytes()[k] == code;
                    assert(all[k] == code);
                }
                assert forall|j: int| 0 <= j < before@.len() implies text@[j] != delimiter by {
                    assert(text@[j] == before@[j]);
                    if before@[j] == delimiter {
                        assert(before@.contains(delimiter));
                    }
                }
                assert(before@ =~= text@.subrange(0, before@.len() as int));
                assert(after@ =~= text@.subrange(before@.len() as int + 1, text@.len() as int));
            }
            return Some((before, after));
        }
        i += 1;
    }
    proof {
        if text@.contains(delimiter) {
            lemma_ascii_occurs_in_encoding(text@, delimiter);
        }
    }
    None
}

} // verus!
