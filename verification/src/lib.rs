//! A boundary between a memory-managed host application and native
//! repository and identity operations.
//!
//! The host hands over NUL-terminated text and receives status codes and
//! owned, NUL-terminated strings. This crate holds the rules of that
//! exchange: how host text is read, how owned strings are laid out, handed
//! over and taken back, which requests reach a collaborator, and how the
//! outcome of a collaborator is rendered for the host.
//!
//! The crate performs no input or output. An operation that needs a
//! collaborator comes in two steps: the first reads and validates the
//! request and says what to ask of the collaborator, the second renders
//! what the collaborator answered.

pub mod alias;
pub mod auth;
pub mod cstr;
pub mod diagnostics;
pub mod error;
pub mod repo;
pub mod text;

pub use crate::alias::Alias;
pub use crate::auth::{auth_message, rad_auth, rad_auth_reply, AuthOptions};
pub use crate::cstr::terminator_index;
pub use crate::diagnostics::{get_git_version, hw_hello_world};
pub use crate::error::BridgeError;
pub use crate::repo::{
    clone_attempt_line, clone_repo, clone_status, clone_success_line, CloneRequest,
};
pub use crate::text::{borrow_text, free_c_string, to_c_string, ForeignString};
