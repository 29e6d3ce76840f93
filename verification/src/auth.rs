//! Authentication: which requests reach the identity subsystem, and the
//! message that tells the host how a request ended.

use crate::alias::{alias_text_valid, Alias};
use crate::cstr::{c_str_content, c_str_len};
use crate::error::BridgeError;
use crate::text::{borrow_text, borrowed_text, to_c_string, ForeignString};
use vstd::prelude::*;
use vstd::string::*;
use vstd::utf8::*;

verus! {

/// The message for an authentication that went through.
pub const AUTH_SUCCESS: &'static str = "Rad auth successful";

/// The message for a request that carried no text.
pub const AUTH_INVALID_INPUT: &'static str = "Invalid input";

/// The message for a text that is no alias.
pub const AUTH_INVALID_FORMAT: &'static str = "Invalid alias format";

/// What stands before the collaborator's own words in the message for a
/// failed authentication.
pub const AUTH_FAILURE_PREFIX: &'static str = "Rad auth failed: ";

/// What the identity subsystem is asked to do: the alias to set up, and
/// whether the passphrase is read from standard input.
#[derive(Debug, PartialEq, Eq)]
pub struct AuthOptions {
    pub alias: Option<Alias>,
    pub stdin: bool,
}

/// What the boundary decides about a request before the identity subsystem
/// is asked: the alias to authenticate with, or why the request ends here.
pub open spec fn auth_check(alias: Option<&[u8]>) -> Result<Seq<char>, BridgeError> {
    match alias {
        None => Err(BridgeError::InvalidInput),
        Some(bytes) => if alias_text_valid(borrowed_text(bytes@)) {
            Ok(borrowed_text(bytes@))
        } else {
            Err(BridgeError::InvalidFormat)
        },
    }
}

/// Reads and validates the alias of an authentication request. On success
/// the caller invokes the identity subsystem with the options returned,
/// which are not interactive; an error ends the request without it.
pub fn rad_auth(alias: Option<&[u8]>) -> (res: Result<AuthOptions, BridgeError>)
    ensures
        match auth_check(alias) {
            Ok(name) => {
                &&& res matches Ok(options)
                &&& !options.stdin
                &&& options.alias matches Some(found)
                &&& found@ == name
            },
            Err(e) => res == Err::<AuthOptions, BridgeError>(e),
        },
{
    let text = match borrow_text(alias) {
        Ok(text) => text,
        Err(e) => {
            return Err(e);
        },
    };
    match Alias::parse(text.as_str()) {
        Ok(found) => Ok(AuthOptions { alias: Some(found), stdin: false }),
        Err(e) => Err(e),
    }
}

/// A request whose text is empty ends as `InvalidFormat`: the identity
/// subsystem is not asked.
pub proof fn lemma_empty_alias_refused(bytes: &[u8])
    requires
        c_str_len(bytes@) == 0,
    ensures
        auth_check(Some(bytes)) == Err::<Seq<char>, BridgeError>(BridgeError::InvalidFormat),
{
    assert(c_str_content(bytes@) =~= Seq::<u8>::empty());
    assert(valid_utf8(Seq::<u8>::empty()));
    assert(decode_utf8(Seq::<u8>::empty()) =~= Seq::<char>::empty());
}

/// The decision about a request depends on the text alone: requests with
/// the same bytes before the first NUL are decided alike, so a request that
/// reached the identity subsystem once reaches it every time.
pub proof fn lemma_same_alias_same_check(a: &[u8], b: &[u8])
    requires
        c_str_content(a@) == c_str_content(b@),
    ensures
        auth_check(Some(a)) == auth_check(Some(b)),
{
}

/// The text of the message that tells the host how an authentication ended.
pub open spec fn auth_message_text(outcome: Result<(), BridgeError>) -> Seq<char> {
    match outcome {
        Ok(_) => AUTH_SUCCESS@,
        Err(BridgeError::InvalidInput) => AUTH_INVALID_INPUT@,
        Err(BridgeError::InvalidFormat) => AUTH_INVALID_FORMAT@,
        Err(BridgeError::CollaboratorFailure(detail)) => AUTH_FAILURE_PREFIX@ + detail@,
    }
}

/// Renders the outcome of an authentication as the message for the host.
pub fn auth_message(outcome: &Result<(), BridgeError>) -> (text: String)
    ensures
        text@ == auth_message_text(*outcome),
{
    match outcome {
        Ok(_) => AUTH_SUCCESS.to_owned(),
        Err(BridgeError::InvalidInput) => AUTH_INVALID_INPUT.to_owned(),
        Err(BridgeError::InvalidFormat) => AUTH_INVALID_FORMAT.to_owned(),
        Err(BridgeError::CollaboratorFailure(detail)) => AUTH_FAILURE_PREFIX.to_owned().concat(
            detail.as_str(),
        ),
    }
}

/// None of the fixed texts holds a NUL character.
pub proof fn lemma_fixed_texts_hold_no_nul()
    ensures
        !AUTH_SUCCESS@.contains('\0'),
        !AUTH_INVALID_INPUT@.contains('\0'),
        !AUTH_INVALID_FORMAT@.contains('\0'),
        !AUTH_FAILURE_PREFIX@.contains('\0'),
{
    reveal_strlit("Rad auth successful");
    reveal_strlit("Invalid input");
    reveal_strlit("Invalid alias format");
    reveal_strlit("Rad auth failed: ");
}

/// The message for an outcome holds a NUL character only where the
/// collaborator's own words hold one.
pub proof fn lemma_message_nul(outcome: Result<(), BridgeError>)
    ensures
        auth_message_text(outcome).contains('\0') <==> (outcome matches Err(
            BridgeError::CollaboratorFailure(detail),
        ) && detail@.contains('\0')),
{
    lemma_fixed_texts_hold_no_nul();
    match outcome {
        Err(BridgeError::CollaboratorFailure(detail)) => {
            let prefix = AUTH_FAILURE_PREFIX@;
            let text = prefix + detail@;
            if detail@.contains('\0') {
                let i = choose|i: int| 0 <= i < detail@.len() && detail@[i] == '\0';
                assert(text[prefix.len() + i] == '\0');
            }
            if text.contains('\0') {
                let j = choose|j: int| 0 <= j < text.len() && text[j] == '\0';
                if j < prefix.len() {
                    assert(prefix[j] == '\0');
                } else {
                    assert(detail@[j - prefix.len()] == '\0');
                }
            }
        },
        _ => {},
    }
}

/// Two outcomes are of one kind, and where they are failures of a
/// collaborator, described in the same words.
pub open spec fn same_outcome(a: Result<(), BridgeError>, b: Result<(), BridgeError>) -> bool {
    match (a, b) {
        (Ok(_), Ok(_)) => true,
        (Err(BridgeError::InvalidInput), Err(BridgeError::InvalidInput)) => true,
        (Err(BridgeError::InvalidFormat), Err(BridgeError::InvalidFormat)) => true,
        (
            Err(BridgeError::CollaboratorFailure(first)),
            Err(BridgeError::CollaboratorFailure(second)),
        ) => first@ == second@,
        _ => false,
    }
}

/// Where the messages differ: the first character tells a refusal from
/// the rest, and one further character tells the two refusals, or success
/// and failure, apart. Behind the prefix of a failure stand the
/// collaborator's words.
proof fn lemma_message_marks(outcome: Result<(), BridgeError>)
    ensures
        match outcome {
            Ok(_) => auth_message_text(outcome)[0] == 'R' && auth_message_text(outcome)[9] == 's',
            Err(BridgeError::InvalidInput) => auth_message_text(outcome)[0] == 'I'
                && auth_message_text(outcome)[8] == 'i',
            Err(BridgeError::InvalidFormat) => auth_message_text(outcome)[0] == 'I'
                && auth_message_text(outcome)[8] == 'a',
            Err(BridgeError::CollaboratorFailure(detail)) => {
                &&& auth_message_text(outcome)[0] == 'R'
                &&& auth_message_text(outcome)[9] == 'f'
                &&& auth_message_text(outcome).len() == AUTH_FAILURE_PREFIX@.len() + detail@.len()
                &&& auth_message_text(outcome).subrange(
                    AUTH_FAILURE_PREFIX@.len() as int,
                    auth_message_text(outcome).len() as int,
                ) == detail@
            },
        },
{
    reveal_strlit("Rad auth successful");
    reveal_strlit("Invalid input");
    reveal_strlit("Invalid alias format");
    reveal_strlit("Rad auth failed: ");
    match outcome {
        Err(BridgeError::CollaboratorFailure(detail)) => {
            let text = auth_message_text(outcome);
            assert(text.subrange(AUTH_FAILURE_PREFIX@.len() as int, text.len() as int)
                =~= detail@);
        },
        _ => {},
    }
}

/// The message tells the outcomes apart: two outcomes have the same message
/// only where they are the same outcome.
pub proof fn lemma_message_tells_outcome(a: Result<(), BridgeError>, b: Result<(), BridgeError>)
    ensures
        auth_message_text(a) == auth_message_text(b) <==> same_outcome(a, b),
{
    lemma_message_marks(a);
    lemma_message_marks(b);
}

/// Renders the outcome of an authentication as the owned string that the
/// host receives. Every outcome has its string: the whole message, or, for
/// a failure whose description holds a NUL character, the message up to
/// that character.
pub fn rad_auth_reply(outcome: &Result<(), BridgeError>) -> (handle: ForeignString)
    ensures
        handle@ == c_str_content(encode_utf8(auth_message_text(*outcome))),
        !auth_message_text(*outcome).contains('\0') ==> handle@ == encode_utf8(
            auth_message_text(*outcome),
        ),
{
    to_c_string(auth_message(outcome))
}

} // verus!
