//! The layout of NUL-terminated text: where the text of a buffer ends, when
//! a buffer is one C string, and how UTF-8 relates NUL characters to NUL
//! bytes.

use vstd::prelude::*;
use vstd::utf8::*;

verus! {

/// The number of bytes that stand before the first NUL of `bytes`; all of
/// them where `bytes` holds no NUL.
pub open spec fn c_str_len(bytes: Seq<u8>) -> nat
    decreases bytes.len(),
{
    if bytes.len() == 0 || bytes[0] == 0 {
        0
    } else {
        1 + c_str_len(bytes.drop_first())
    }
}

/// The text bytes of a host buffer: what stands before its first NUL.
pub open spec fn c_str_content(bytes: Seq<u8>) -> Seq<u8> {
    bytes.take(c_str_len(bytes) as int)
}

/// `n` is where the text of `bytes` ends: no NUL stands before `n`, and at
/// `n` stands a NUL or the end of the buffer.
pub open spec fn ends_text_at(bytes: Seq<u8>, n: int) -> bool {
    &&& 0 <= n <= bytes.len()
    &&& forall|k: int| 0 <= k < n ==> bytes[k] != 0
    &&& (n == bytes.len() || bytes[n] == 0)
}

/// The end of the text is unique, and `c_str_len` names it.
pub proof fn lemma_c_str_len_unique(bytes: Seq<u8>, n: int)
    requires
        ends_text_at(bytes, n),
    ensures
        c_str_len(bytes) == n,
    decreases bytes.len(),
{
    if bytes.len() == 0 || bytes[0] == 0 {
    } else {
        let rest = bytes.drop_first();
        assert forall|k: int| 0 <= k < n - 1 implies rest[k] != 0 by {
            assert(rest[k] == bytes[k + 1]);
        }
        lemma_c_str_len_unique(rest, n - 1);
    }
}

/// `c_str_len` is an end of the text.
pub proof fn lemma_c_str_len_ends_text(bytes: Seq<u8>)
    ensures
        ends_text_at(bytes, c_str_len(bytes) as int),
    decreases bytes.len(),
{
    if bytes.len() == 0 || bytes[0] == 0 {
    } else {
        let rest = bytes.drop_first();
        lemma_c_str_len_ends_text(rest);
        let n = c_str_len(bytes) as int;
        assert forall|k: int| 0 <= k < n implies bytes[k] != 0 by {
            if k > 0 {
                assert(rest[k - 1] == bytes[k]);
            }
        }
        if n < bytes.len() {
            assert(rest[n - 1] == bytes[n]);
        }
    }
}

/// Finds where the text of a host buffer ends, reading no byte behind the
/// first NUL.
pub fn terminator_index(bytes: &[u8]) -> (n: usize)
    ensures
        n == c_str_len(bytes@),
        ends_text_at(bytes@, n as int),
{
    let mut i: usize = 0;
    while i < bytes.len() && bytes[i] != 0
        invariant
            i <= bytes.len(),
            forall|k: int| 0 <= k < i ==> bytes@[k] != 0,
        decreases bytes.len() - i,
    {
        i += 1;
    }
    proof {
        lemma_c_str_len_unique(bytes@, i as int);
    }
    i
}

/// The UTF-8 encoding of one character holds a NUL byte exactly when the
/// character is NUL.
pub proof fn lemma_scalar_nul(c: char)
    ensures
        encode_scalar(c as u32).contains(0u8) <==> c == '\0',
{
    let s = c as u32;
    let e = encode_scalar(s);
    char_is_scalar(c);
    if has_width_1_encoding(s) {
        assert(((s & 0x7F) as u8 == 0u8) <==> s == 0) by (bit_vector)
            requires
                s <= 0x7F,
        ;
        assert(e[0] == leading_byte_width_1(s));
        if c == '\0' {
            assert(e[0] == 0u8);
        } else {
            char_u32_cast(c, s);
            assert forall|i: int| 0 <= i < e.len() implies e[i] != 0u8 by {
                assert(i == 0);
            }
        }
    } else {
        assert(c != '\0');
        assert((0xC0u8 | ((s >> 6) & 0x1F) as u8) != 0u8) by (bit_vector);
        assert((0xE0u8 | ((s >> 12) & 0x0F) as u8) != 0u8) by (bit_vector);
        assert((0xF0u8 | ((s >> 18) & 0x7) as u8) != 0u8) by (bit_vector);
        assert((0x80u8 | (s & 0x3F) as u8) != 0u8) by (bit_vector);
        assert((0x80u8 | ((s >> 6) & 0x3F) as u8) != 0u8) by (bit_vector);
        assert((0x80u8 | ((s >> 12) & 0x3F) as u8) != 0u8) by (bit_vector);
        assert forall|i: int| 0 <= i < e.len() implies e[i] != 0u8 by {
            if has_width_2_encoding(s) {
                assert(i == 0 || i == 1);
            } else if has_width_3_encoding(s) {
                assert(i == 0 || i == 1 || i == 2);
            } else {
                assert(i == 0 || i == 1 || i == 2 || i == 3);
            }
        }
    }
}

/// UTF-8 writes a NUL byte only for a NUL character: the encoding of a text
/// holds a NUL byte exactly when the text holds a NUL character.
pub proof fn lemma_nul_char_iff_nul_byte(text: Seq<char>)
    ensures
        encode_utf8(text).contains(0u8) <==> text.contains('\0'),
    decreases text.len(),
{
    if text.len() == 0 {
    } else {
        let head = encode_scalar(text[0] as u32);
        let rest = text.drop_first();
        let tail = encode_utf8(rest);
        lemma_scalar_nul(text[0]);
        lemma_nul_char_iff_nul_byte(rest);
        if text.contains('\0') {
            let i = choose|i: int| 0 <= i < text.len() && text[i] == '\0';
            if i == 0 {
                let j = choose|j: int| 0 <= j < head.len() && head[j] == 0u8;
                assert((head + tail)[j] == 0u8);
            } else {
                assert(rest[i - 1] == '\0');
                let j = choose|j: int| 0 <= j < tail.len() && tail[j] == 0u8;
                assert((head + tail)[head.len() + j] == 0u8);
            }
        }
        if (head + tail).contains(0u8) {
            let j = choose|j: int| 0 <= j < (head + tail).len() && (head + tail)[j] == 0u8;
            if j < head.len() {
                assert(head[j] == 0u8);
                assert(text[0] == '\0');
            } else {
                assert(tail[j - head.len()] == 0u8);
                let i = choose|i: int| 0 <= i < rest.len() && rest[i] == '\0';
                assert(text[i + 1] == '\0');
            }
        }
    }
}

/// The bytes form one C string: the first NUL is the last byte.
pub open spec fn is_c_string(bytes: Seq<u8>) -> bool {
    bytes.len() > 0 && c_str_len(bytes) == bytes.len() - 1
}

/// A byte sequence without NUL, closed by one NUL, is a C string whose text
/// is that sequence.
pub proof fn lemma_terminated_is_c_string(content: Seq<u8>)
    requires
        !content.contains(0u8),
    ensures
        is_c_string(content.push(0u8)),
        c_str_content(content.push(0u8)) == content,
        content.push(0u8).drop_last() == content,
{
    let bytes = content.push(0u8);
    assert(bytes.drop_last() =~= content);
    assert forall|k: int| 0 <= k < content.len() implies bytes[k] != 0 by {
        assert(content[k] == bytes[k]);
    }
    lemma_c_str_len_unique(bytes, content.len() as int);
    assert(bytes.take(content.len() as int) =~= content);
}

/// The text of a C string holds no NUL, and the C string is that text closed
/// by a NUL.
pub proof fn lemma_c_string_layout(bytes: Seq<u8>)
    requires
        is_c_string(bytes),
    ensures
        !bytes.drop_last().contains(0u8),
        bytes == bytes.drop_last().push(0u8),
        c_str_content(bytes) == bytes.drop_last(),
{
    lemma_c_str_len_ends_text(bytes);
    let content = bytes.drop_last();
    assert forall|k: int| 0 <= k < content.len() implies content[k] != 0 by {
        assert(content[k] == bytes[k]);
    }
    assert(bytes =~= content.push(0u8));
    assert(bytes.take(bytes.len() - 1) =~= content);
}

} // verus!
