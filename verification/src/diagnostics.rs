//! Operations without arguments, for checking that the boundary can be
//! called at all.

use crate::text::{to_c_string, ForeignString};
use vstd::prelude::*;
use vstd::string::*;
use vstd::utf8::*;

verus! {

/// The text that names the bundled native library and its version.
pub const GIT_VERSION: &'static str = "git version 2.34.0 (libgit2)";

/// The line that the liveness probe emits.
pub const HELLO_LINE: &'static str = "Hello from Rust!";

/// The version text as an owned string for the host: the same text on
/// every call, never empty.
pub fn get_git_version() -> (handle: ForeignString)
    ensures
        handle@ == encode_utf8(GIT_VERSION@),
        handle@.len() == GIT_VERSION@.len(),
        handle@.len() > 0,
{
    proof {
        reveal_strlit("git version 2.34.0 (libgit2)");
        is_ascii_chars_encode_utf8(GIT_VERSION@);
    }
    to_c_string(GIT_VERSION.to_owned())
}

/// The line that the probe writes to the diagnostic channel.
pub fn hw_hello_world() -> (line: String)
    ensures
        line@ == HELLO_LINE@,
{
    HELLO_LINE.to_owned()
}

} // verus!
