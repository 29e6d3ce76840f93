//! Text on its way across the boundary: reading what the host passes, and
//! the owned strings that the host receives and gives back.

use crate::cstr::{
    c_str_content, c_str_len, is_c_string, lemma_c_str_len_ends_text, lemma_c_str_len_unique,
    lemma_c_string_layout, lemma_nul_char_iff_nul_byte, lemma_terminated_is_c_string,
    terminator_index,
};
use crate::error::BridgeError;
use vstd::prelude::*;
use vstd::slice::*;
use vstd::string::*;
use vstd::utf8::*;

verus! {

/// Names the text that `String::from_utf8_lossy` makes of a byte sequence:
/// the text that the bytes encode, with U+FFFD in place of every sequence
/// that is not valid UTF-8.
pub uninterp spec fn lossy_text(bytes: Seq<u8>) -> Seq<char>;

/// The text that the boundary reads from a host buffer: the bytes before the
/// first NUL, decoded as UTF-8 where they are valid UTF-8, and with every
/// invalid sequence replaced where they are not.
pub open spec fn borrowed_text(bytes: Seq<u8>) -> Seq<char> {
    let content = c_str_content(bytes);
    if valid_utf8(content) {
        decode_utf8(content)
    } else {
        lossy_text(content)
    }
}

/// Calls `String::from_utf8_lossy`. The text it makes depends on the bytes
/// alone; for valid UTF-8 it is the text that the bytes encode, unchanged.
/// Every character of the text is one that the bytes encode or U+FFFD, so
/// bytes without NUL give a text without a NUL character. Which sequences
/// U+FFFD stands for is not stated here.
#[verifier::external_body]
fn decode_lossy(bytes: &[u8]) -> (text: String)
    ensures
        text@ == lossy_text(bytes@),
        valid_utf8(bytes@) ==> text@ == decode_utf8(bytes@),
        !bytes@.contains(0u8) ==> !text@.contains('\0'),
{
    String::from_utf8_lossy(bytes).into_owned()
}

/// Reads the text that the host passed. `None` stands for a null pointer and
/// is refused; of a buffer only the bytes before its first NUL are read, and
/// bytes that are not valid UTF-8 are replaced, never refused. The text
/// holds no NUL character, so it can be owned again in full.
pub fn borrow_text(raw: Option<&[u8]>) -> (res: Result<String, BridgeError>)
    ensures
        match raw {
            None => res == Err::<String, BridgeError>(BridgeError::InvalidInput),
            Some(bytes) => {
                &&& res matches Ok(text)
                &&& text@ == borrowed_text(bytes@)
                &&& !text@.contains('\0')
            },
        },
{
    match raw {
        None => Err(BridgeError::InvalidInput),
        Some(bytes) => {
            let end = terminator_index(bytes);
            let content = slice_subrange(bytes, 0, end);
            proof {
                assert forall|k: int| 0 <= k < content@.len() implies content@[k] != 0 by {
                    assert(content@[k] == bytes@[k]);
                }
            }
            Ok(decode_lossy(content))
        },
    }
}

/// Nothing behind the first NUL of a host buffer is read: the text of a
/// buffer is that of its bytes before the NUL, whatever follows it.
pub proof fn lemma_tail_is_not_read(content: Seq<u8>, tail: Seq<u8>)
    requires
        !content.contains(0u8),
    ensures
        c_str_content(content.push(0u8) + tail) == content,
        c_str_content(content) == content,
        borrowed_text(content.push(0u8) + tail) == borrowed_text(content),
{
    let buffer = content.push(0u8) + tail;
    assert forall|k: int| 0 <= k < content.len() implies buffer[k] != 0 && content[k] != 0 by {
        assert(content[k] == buffer[k]);
    }
    assert(buffer[content.len() as int] == 0u8);
    lemma_c_str_len_unique(buffer, content.len() as int);
    lemma_c_str_len_unique(content, content.len() as int);
    assert(buffer.take(content.len() as int) =~= content);
    assert(content.take(content.len() as int) =~= content);
}

/// Two host buffers with the same bytes before their first NUL are read as
/// the same text, valid UTF-8 or not.
pub proof fn lemma_same_content_same_text(a: Seq<u8>, b: Seq<u8>)
    requires
        c_str_content(a) == c_str_content(b),
    ensures
        borrowed_text(a) == borrowed_text(b),
{
}

/// Bytes below 0x80 are valid UTF-8 and encode, one by one, the characters
/// with their codes.
pub proof fn lemma_ascii_is_utf8(content: Seq<u8>)
    requires
        forall|i: int| 0 <= i < content.len() ==> content[i] < 0x80,
    ensures
        valid_utf8(content),
        decode_utf8(content).len() == content.len(),
        forall|i: int| 0 <= i < content.len() ==> decode_utf8(content)[i] == content[i] as char,
    decreases content.len(),
{
    if content.len() > 0 {
        let first = content[0];
        let rest = content.drop_first();
        assert((first & 0x7F) as u32 == first as u32) by (bit_vector)
            requires
                first < 0x80,
        ;
        assert(pop_first_scalar(content) =~= rest);
        assert forall|i: int| 0 <= i < rest.len() implies rest[i] < 0x80 by {
            assert(rest[i] == content[i + 1]);
        }
        lemma_ascii_is_utf8(rest);
        assert forall|i: int| 0 <= i < content.len() implies decode_utf8(content)[i]
            == content[i] as char by {
            if i > 0 {
                assert(decode_utf8(content)[i] == decode_utf8(rest)[i - 1]);
                assert(rest[i - 1] == content[i]);
            }
        }
    }
}

/// Host text in ASCII is read byte for byte: each byte before the first NUL
/// becomes the character with its code.
pub proof fn lemma_ascii_is_read_byte_for_byte(bytes: Seq<u8>)
    requires
        forall|i: int| 0 <= i < c_str_len(bytes) ==> bytes[i] < 0x80,
    ensures
        borrowed_text(bytes).len() == c_str_len(bytes),
        forall|i: int| 0 <= i < c_str_len(bytes) ==> borrowed_text(bytes)[i] == bytes[i] as char,
{
    let content = c_str_content(bytes);
    lemma_c_str_len_ends_text(bytes);
    assert forall|i: int| 0 <= i < content.len() implies content[i] < 0x80 by {
        assert(content[i] == bytes[i]);
    }
    lemma_ascii_is_utf8(content);
    assert forall|i: int| 0 <= i < c_str_len(bytes) implies borrowed_text(bytes)[i]
        == bytes[i] as char by {
        assert(content[i] == bytes[i]);
    }
}

/// The owned string of a text without a NUL character holds the whole
/// encoding of the text.
pub proof fn lemma_whole_text_is_owned(text: Seq<char>)
    ensures
        !text.contains('\0') ==> c_str_content(encode_utf8(text)) == encode_utf8(text),
{
    if !text.contains('\0') {
        let bytes = encode_utf8(text);
        lemma_nul_char_iff_nul_byte(text);
        lemma_c_str_len_unique(bytes, bytes.len() as int);
        assert(bytes.take(bytes.len() as int) =~= bytes);
    }
}

/// Reading valid UTF-8 from the host and making an owned string of the text
/// keeps every byte: the text holds no NUL character, and the bytes of its
/// owned string are the bytes that were read.
pub proof fn lemma_read_then_own_keeps_bytes(bytes: Seq<u8>)
    requires
        valid_utf8(c_str_content(bytes)),
    ensures
        !borrowed_text(bytes).contains('\0'),
        encode_utf8(borrowed_text(bytes)) == c_str_content(bytes),
        c_str_content(encode_utf8(borrowed_text(bytes))) == c_str_content(bytes),
{
    let content = c_str_content(bytes);
    lemma_c_str_len_ends_text(bytes);
    assert forall|k: int| 0 <= k < content.len() implies content[k] != 0 by {
        assert(content[k] == bytes[k]);
    }
    decode_utf8_encode_utf8(content);
    lemma_nul_char_iff_nul_byte(decode_utf8(content));
    lemma_whole_text_is_owned(borrowed_text(bytes));
}

/// Making an owned string of a text without a NUL character and reading it
/// as the host does gives the text back: the string holds the whole
/// encoding, which is valid UTF-8, and nothing is replaced on reading.
pub proof fn lemma_own_then_read_keeps_text(text: Seq<char>)
    requires
        !text.contains('\0'),
    ensures
        c_str_content(encode_utf8(text)) == encode_utf8(text),
        valid_utf8(encode_utf8(text)),
        borrowed_text(c_str_content(encode_utf8(text)).push(0u8)) == text,
{
    let content = encode_utf8(text);
    lemma_whole_text_is_owned(text);
    lemma_nul_char_iff_nul_byte(text);
    lemma_terminated_is_c_string(content);
    encode_utf8_valid_utf8(text);
    encode_utf8_decode_utf8(text);
}

/// An owned, NUL-terminated string on its way to or from the host. It has
/// one owner at a time, cannot be copied, and is given up by value.
#[derive(Debug, PartialEq, Eq)]
pub struct ForeignString {
    bytes: Vec<u8>,
}

impl View for ForeignString {
    type V = Seq<u8>;

    /// The text bytes of the string, without the closing NUL.
    closed spec fn view(&self) -> Seq<u8> {
        self.bytes@.drop_last()
    }
}

impl ForeignString {
    #[verifier::type_invariant]
    spec fn terminated(&self) -> bool {
        is_c_string(self.bytes@)
    }

    /// The text bytes, without the closing NUL.
    pub fn as_bytes(&self) -> (bytes: &[u8])
        ensures
            bytes@ == self@,
            !bytes@.contains(0u8),
    {
        proof {
            use_type_invariant(self);
            lemma_c_string_layout(self.bytes@);
        }
        slice_subrange(self.bytes.as_slice(), 0, self.bytes.len() - 1)
    }

    /// The bytes as the host sees them: the text and its closing NUL.
    pub fn as_bytes_with_nul(&self) -> (bytes: &[u8])
        ensures
            bytes@ == self@.push(0u8),
            is_c_string(bytes@),
    {
        proof {
            use_type_invariant(self);
            lemma_c_string_layout(self.bytes@);
        }
        self.bytes.as_slice()
    }

    /// Hands the buffer over to the host: the text and its closing NUL.
    pub fn into_bytes_with_nul(self) -> (bytes: Vec<u8>)
        ensures
            bytes@ == self@.push(0u8),
            is_c_string(bytes@),
    {
        proof {
            use_type_invariant(&self);
            lemma_c_string_layout(self.bytes@);
        }
        self.bytes
    }

    /// Takes back a buffer that the host returns. It is accepted exactly
    /// when it is one C string: its only NUL is its last byte.
    pub fn from_vec_with_nul(bytes: Vec<u8>) -> (handle: Option<ForeignString>)
        ensures
            handle is Some <==> is_c_string(bytes@),
            handle matches Some(h) ==> h@ == bytes@.drop_last(),
    {
        let end = terminator_index(bytes.as_slice());
        if end < bytes.len() && end == bytes.len() - 1 {
            Some(ForeignString { bytes })
        } else {
            None
        }
    }
}

/// Makes an owned, NUL-terminated string of a text: its UTF-8 bytes, closed
/// by one NUL. The string of a text that holds a NUL character ends where
/// the host would stop reading: it holds the bytes before that character.
pub fn to_c_string(s: String) -> (handle: ForeignString)
    ensures
        handle@ == c_str_content(encode_utf8(s@)),
        !s@.contains('\0') ==> handle@ == encode_utf8(s@),
{
    let text = s.as_str().as_bytes();
    let end = terminator_index(text);
    let mut bytes = slice_to_vec(slice_subrange(text, 0, end));
    proof {
        assert(bytes@ =~= c_str_content(text@));
        assert forall|k: int| 0 <= k < bytes@.len() implies bytes@[k] != 0 by {
            assert(bytes@[k] == text@[k]);
        }
        lemma_terminated_is_c_string(bytes@);
        lemma_whole_text_is_owned(s@);
    }
    bytes.push(0u8);
    ForeignString { bytes }
}

/// Takes back a string that the host no longer needs and releases it.
/// `None` stands for a null pointer: nothing is released.
pub fn free_c_string(handle: Option<ForeignString>) {
    match handle {
        None => {},
        Some(owned) => {
            let _ = owned.into_bytes_with_nul();
        },
    }
}

} // verus!
