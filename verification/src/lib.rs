//! Test generation for one annotated function: the requested test names are
//! read from the argument tokens, a conversation is assembled for a
//! text-completion backend, and the backend's answer is accepted only if it is
//! source code, in which case it is appended after the function.
//!
//! Nothing here talks to a provider. The library says what to send and what to
//! do with each possible answer; the caller carries the conversation over the
//! wire.

pub mod args;
pub mod completion;
pub mod prompt;
pub mod tokens;
pub mod validate;
