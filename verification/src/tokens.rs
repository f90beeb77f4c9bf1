//! Token streams, and the outside lexer and parser that make and read them.
//!
//! After the plain form of a token, everything in this file is believed, not
//! proved. Each function makes one call into `proc_macro2`, `syn` or `quote`
//! and hands the answer on as plain values; its contract repeats what that
//! call is known to do.
//!
//! `proc_macro2` holds a stream in one of two ways: in the compiler's own
//! implementation, while a macro is expanded, or in the one that the crate
//! brings along. Which one makes a new stream is a switch of the process,
//! and each lexes in its own code. What a text lexes or parses to is
//! therefore no function of the text, and the three functions that take a
//! text promise nothing of their answers: what is done with each answer is
//! decided, and stated, where the answer is taken as an argument.
//!
//! Two streams that are held differently cannot be put together: the attempt
//! panics. [`append`] therefore asks for streams that are held alike. Nothing
//! that the crate offers tells how a stream is held, so the library cannot
//! find out for itself.
//!
//! The parser and the printer of a stream both recurse into nested brackets:
//! input that nests deeper than the stack reaches ends the process, as
//! running out of memory does.

use proc_macro2::{TokenStream, TokenTree};
use vstd::prelude::*;

verus! {

/// The four kinds of token tree.
#[derive(Debug, Clone, Copy, PartialEq, Eq, Structural)]
pub enum TokenKind {
    /// A bracketed run of tokens, brackets and content together.
    Group,
    /// A word: an identifier or a keyword.
    Ident,
    /// A single punctuation character.
    Punct,
    /// A literal.
    Literal,
}

/// One token tree as plain values: its kind, and the text that its `Display`
/// prints.
#[derive(Debug)]
pub struct Token {
    pub kind: TokenKind,
    pub text: String,
}

/// A [`Token`] in contracts.
pub struct TokenView {
    pub kind: TokenKind,
    pub text: Seq<char>,
}

impl View for Token {
    type V = TokenView;

    open spec fn view(&self) -> TokenView {
        TokenView { kind: self.kind, text: self.text@ }
    }
}

/// A token sequence, each token by its view.
pub open spec fn token_views(tokens: Seq<Token>) -> Seq<TokenView> {
    tokens.map_values(|token: Token| token@)
}

/// `proc_macro2::TokenStream`. The verifier sees nothing inside a stream;
/// contracts speak of one through [`stream_tokens`] and [`stream_text`].
#[verifier::external_type_specification]
#[verifier::external_body]
pub struct ExTokenStream(proc_macro2::TokenStream);

/// The token trees that a stream holds at its top level, in order, each by
/// its kind and the text that its `Display` prints.
pub uninterp spec fn stream_tokens(stream: TokenStream) -> Seq<TokenView>;

/// The text that `Display` prints for a whole stream.
pub uninterp spec fn stream_text(stream: TokenStream) -> Seq<char>;

/// Which of the two implementations holds a stream: the compiler's, or else
/// the one that `proc_macro2` brings along.
pub uninterp spec fn held_by_compiler(stream: TokenStream) -> bool;

/// `ToString::to_string` on a `TokenStream`, which goes through its
/// `Display`: the result is the text of the whole stream.
#[verifier::external_body]
pub(crate) fn render(stream: &TokenStream) -> (text: String)
    ensures
        text@ == stream_text(*stream),
{
    stream.to_string()
}

/// `IntoIterator::into_iter` on a copy of the stream: the top-level token
/// trees in order, each handed out by its variant and the text that its
/// `Display` prints.
#[verifier::external_body]
pub(crate) fn top_level(stream: &TokenStream) -> (tokens: Vec<Token>)
    ensures
        token_views(tokens@) == stream_tokens(*stream),
{
    stream.clone().into_iter().map(|tree| match tree {
        TokenTree::Group(group) => Token { kind: TokenKind::Group, text: group.to_string() },
        TokenTree::Ident(ident) => Token { kind: TokenKind::Ident, text: ident.to_string() },
        TokenTree::Punct(punct) => Token { kind: TokenKind::Punct, text: punct.to_string() },
        TokenTree::Literal(literal) => Token { kind: TokenKind::Literal, text: literal.to_string() },
    }).collect()
}

/// `Clone::clone` on a `TokenStream`: the copy holds the same token trees,
/// prints the same text, and is held as the stream is.
#[verifier::external_body]
pub(crate) fn duplicate(stream: &TokenStream) -> (copy: TokenStream)
    ensures
        stream_tokens(copy) == stream_tokens(*stream),
        stream_text(copy) == stream_text(*stream),
        held_by_compiler(copy) == held_by_compiler(*stream),
{
    stream.clone()
}

/// `quote::ToTokens::to_tokens` of one stream into another, which extends the
/// target by a copy of the source: the target keeps the token trees that it
/// held, in order, and the source's token trees follow in theirs. The target
/// stays held as it was. The call panics where the two streams are held
/// differently, so that is ruled out.
#[verifier::external_body]
pub(crate) fn append(target: &mut TokenStream, source: &TokenStream)
    requires
        held_by_compiler(*old(target)) == held_by_compiler(*source),
    ensures
        stream_tokens(*final(target)) == stream_tokens(*old(target)) + stream_tokens(*source),
        held_by_compiler(*final(target)) == held_by_compiler(*old(target)),
{
    quote::ToTokens::to_tokens(source, target)
}

/// `syn::parse_str` with `proc_macro2::TokenStream` as the target: the text is
/// lexed and the stream of all its tokens comes back, or nothing where the
/// lexer refuses the text. Which lexer answers, and how the stream is held,
/// is the process's matter, so nothing is said of the answer.
#[verifier::external_body]
pub(crate) fn lex(text: &str) -> (stream: Option<TokenStream>) {
    syn::parse_str::<TokenStream>(text).ok()
}

/// `syn::parse_str` with `syn::File` as the target: the whole text is parsed
/// as a source file, which is inner attributes followed by items. What comes
/// back is how many inner attributes the file holds, or nothing where the
/// text does not parse. The text is lexed first, as by [`lex`], so nothing
/// is said of the answer here either.
#[verifier::external_body]
pub(crate) fn parse_file(text: &str) -> (attributes: Option<usize>) {
    syn::parse_str::<syn::File>(text).ok().map(|file| file.attrs.len())
}

/// `syn::parse_str` with `syn::Ident` as the target: says whether the whole
/// text is one identifier, which `syn` accepts unless it is a keyword or `_`.
/// The text is lexed first, as by [`lex`], so nothing is said of the answer.
#[verifier::external_body]
pub(crate) fn accepts_identifier(text: &str) -> (accepted: bool) {
    syn::parse_str::<syn::Ident>(text).is_ok()
}

} // verus!
