//! The validated identifier of the identity subsystem.

use crate::error::BridgeError;
use std::str::FromStr;
use vstd::prelude::*;
use vstd::string::*;
use vstd::utf8::*;

verus! {

/// The greatest length of an alias, in bytes of its UTF-8 encoding.
pub const MAX_ALIAS_LENGTH: usize = 32;

/// The characters for which `char::is_control` holds: the Unicode general
/// category `Cc`.
pub open spec fn is_control(c: char) -> bool {
    let u = c as u32;
    u <= 0x1f || 0x7f <= u <= 0x9f
}

/// The characters for which `char::is_whitespace` holds: those with the
/// Unicode property `White_Space`.
pub open spec fn is_whitespace(c: char) -> bool {
    let u = c as u32;
    ||| 0x09 <= u <= 0x0d
    ||| u == 0x20
    ||| u == 0x85
    ||| u == 0xa0
    ||| u == 0x1680
    ||| 0x2000 <= u <= 0x200a
    ||| u == 0x2028
    ||| u == 0x2029
    ||| u == 0x202f
    ||| u == 0x205f
    ||| u == 0x3000
}

/// The lexical rules of an alias: it is not empty, holds neither a control
/// character nor white space, and its UTF-8 encoding has at most
/// `MAX_ALIAS_LENGTH` bytes.
pub open spec fn alias_text_valid(text: Seq<char>) -> bool {
    &&& text.len() > 0
    &&& forall|i: int|
        0 <= i < text.len() ==> !is_control(#[trigger] text[i]) && !is_whitespace(text[i])
    &&& encode_utf8(text).len() <= MAX_ALIAS_LENGTH
}

/// The error of `radicle::node::Alias::from_str`. Nothing is read from it:
/// every refusal becomes `BridgeError::InvalidFormat`.
#[verifier::external_type_specification]
#[verifier::external_body]
pub struct ExAliasError(radicle::node::AliasError);

/// Calls `radicle::node::Alias::from_str` and hands back the alias as plain
/// text. That function refuses the empty text, a text with a character for
/// which `char::is_control` or `char::is_whitespace` holds, and a text of
/// more than `radicle::node::MAX_ALIAS_LENGTH` (32) bytes; every other text
/// it accepts, and the alias it makes holds the text unchanged.
#[verifier::external_body]
fn radicle_alias(text: &str) -> (res: Result<String, radicle::node::AliasError>)
    ensures
        res is Ok <==> alias_text_valid(text@),
        res matches Ok(name) ==> name@ == text@,
{
    match radicle::node::Alias::from_str(text) {
        Ok(alias) => Ok(String::from(alias)),
        Err(e) => Err(e),
    }
}

/// A validated identifier: a text that follows the lexical rules of the
/// identity subsystem.
#[derive(Debug, PartialEq, Eq)]
pub struct Alias {
    text: String,
}

impl View for Alias {
    type V = Seq<char>;

    closed spec fn view(&self) -> Seq<char> {
        self.text@
    }
}

impl Clone for Alias {
    fn clone(&self) -> (copy: Self)
        ensures
            copy@ == self@,
    {
        proof {
            use_type_invariant(self);
        }
        Alias { text: self.text.clone() }
    }
}

impl Alias {
    #[verifier::type_invariant]
    spec fn valid(&self) -> bool {
        alias_text_valid(self.text@)
    }

    /// Makes an alias of a text, or refuses the text as `InvalidFormat`
    /// where it breaks the lexical rules.
    pub fn parse(text: &str) -> (res: Result<Alias, BridgeError>)
        ensures
            match res {
                Ok(alias) => alias_text_valid(text@) && alias@ == text@,
                Err(e) => !alias_text_valid(text@) && e == BridgeError::InvalidFormat,
            },
    {
        match radicle_alias(text) {
            Ok(name) => Ok(Alias { text: name }),
            Err(_) => Err(BridgeError::InvalidFormat),
        }
    }

    /// The text of the alias.
    pub fn as_str(&self) -> (text: &str)
        ensures
            text@ == self@,
            alias_text_valid(text@),
    {
        proof {
            use_type_invariant(self);
        }
        self.text.as_str()
    }
}

} // verus!
