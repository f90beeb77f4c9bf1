//! What stands between a backend's answer and the compiled output: an answer
//! is taken whole or not at all.
//!
//! The answer is handed to the parser as it came. Nothing is cut from it
//! first, no Markdown fence either: the prompt asks for a fenced block, but
//! a text that opens with a fence is no source code, and is refused like any
//! other such text.

use crate::tokens::{held_by_compiler, lex, parse_file, stream_tokens, TokenView};
use proc_macro2::TokenStream;
use vstd::prelude::*;
use vstd::string::*;

verus! {

/// An answer that passed: the tokens that were lexed from a text which the
/// parser took for items. Only [`accept`] makes one.
#[derive(Debug)]
pub struct ValidatedFragment {
    tokens: TokenStream,
}

impl View for ValidatedFragment {
    type V = Seq<TokenView>;

    /// The fragment's top-level token trees.
    closed spec fn view(&self) -> Seq<TokenView> {
        stream_tokens(self.tokens)
    }
}

impl ValidatedFragment {
    /// Whether the compiler's implementation holds the fragment's tokens,
    /// see [`held_by_compiler`].
    pub closed spec fn held_by_compiler(&self) -> bool {
        held_by_compiler(self.tokens)
    }

    /// The tokens to append.
    pub fn tokens(&self) -> (tokens: &TokenStream)
        ensures
            stream_tokens(*tokens) == self@,
            held_by_compiler(*tokens) == self.held_by_compiler(),
    {
        &self.tokens
    }
}

/// Why an answer was refused.
#[derive(Debug)]
pub enum ValidationError {
    /// The answer is no source code. The answer itself is carried along,
    /// unchanged, for the diagnostic.
    UnparseableResponse(String),
}

/// The line that opens the diagnostic for a refused answer.
pub open spec fn unparseable_head() -> Seq<char> {
    "Failed to parse the response as Rust code:\n"@
}

/// The diagnostic for a refused answer: the opening line, then the answer as
/// it came, then a line break.
pub open spec fn unparseable_message(raw: Seq<char>) -> Seq<char> {
    unparseable_head() + raw + "\n"@
}

/// The diagnostic holds the refused answer verbatim: after the opening line
/// the answer stands in it, character for character.
pub proof fn lemma_message_holds_answer(raw: Seq<char>)
    ensures
        unparseable_message(raw).len() > unparseable_head().len() + raw.len(),
        unparseable_message(raw).subrange(
            unparseable_head().len() as int,
            unparseable_head().len() + raw.len() as int,
        ) == raw,
{
    reveal_strlit("\n");
}

impl ValidationError {
    /// The answer that was refused.
    pub open spec fn payload(&self) -> Seq<char> {
        match self {
            ValidationError::UnparseableResponse(raw) => raw@,
        }
    }

    /// The diagnostic text, which holds the refused answer verbatim.
    pub fn message(&self) -> (text: String)
        ensures
            text@ == unparseable_message(self.payload()),
    {
        match self {
            ValidationError::UnparseableResponse(raw) => {
                let mut text = String::from_str("Failed to parse the response as Rust code:\n");
                text.append(raw.as_str());
                text.append("\n");
                text
            },
        }
    }
}

/// Decides on an answer once the parser has spoken: `attributes` is what
/// parsing the text as a source file gave, the number of its inner
/// attributes or nothing where it did not parse, and `tokens` is what lexing
/// it gave. The answer passes if it parsed, holds no inner attribute, which
/// is no item, and was lexed; the fragment is then those tokens. Otherwise it
/// is refused, and the error carries the answer.
pub fn accept(raw: String, attributes: Option<usize>, tokens: Option<TokenStream>) -> (result:
    Result<ValidatedFragment, ValidationError>)
    ensures
        match result {
            Ok(fragment) => {
                &&& attributes == Some(0usize)
                &&& tokens.is_some()
                &&& fragment@ == stream_tokens(tokens.unwrap())
                &&& fragment.held_by_compiler() == held_by_compiler(tokens.unwrap())
            },
            Err(error) => !(attributes == Some(0usize) && tokens.is_some()) && error
                == ValidationError::UnparseableResponse(raw),
        },
{
    match (attributes, tokens) {
        (Some(0), Some(tokens)) => Ok(ValidatedFragment { tokens }),
        _ => Err(ValidationError::UnparseableResponse(raw)),
    }
}

/// Validates a backend's answer: has it parsed as a source file and, where
/// that gave no inner attribute, has it lexed, and decides as [`accept`]
/// does. Whether an answer passes is the parser's verdict; whenever one is
/// refused, it is refused as unparseable, with the answer as the error's
/// payload.
pub fn validate(raw: String) -> (result: Result<ValidatedFragment, ValidationError>)
    ensures
        result is Err ==> result->Err_0 == ValidationError::UnparseableResponse(raw),
{
    let attributes = parse_file(raw.as_str());
    let tokens = match attributes {
        Some(0) => lex(raw.as_str()),
        _ => None,
    };
    accept(raw, attributes, tokens)
}

} // verus!
