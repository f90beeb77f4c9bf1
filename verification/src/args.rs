//! The argument list: which tests were asked for.
//!
//! An argument list is zero or more identifiers with a comma between each two,
//! and possibly one more comma at the end. Put differently: counting from
//! zero, every even place holds an identifier and every odd place a comma.
//! What it yields is a set of names. The set is kept as a vector in which no
//! name occurs twice, in the order in which the names first appear.

use crate::tokens::{
    accepts_identifier, stream_tokens, token_views, top_level, Token, TokenKind, TokenView,
};
use proc_macro2::TokenStream;
use vstd::prelude::*;
use vstd::string::*;

verus! {

/// One token of an argument list, as far as the grammar tells tokens apart.
#[derive(Debug)]
pub enum ArgToken {
    /// An identifier that can name a test.
    Name(String),
    /// The separator `,`.
    Comma,
    /// Anything else: a keyword, a literal, a group, another punctuation mark.
    Other,
}

/// What an [`ArgToken`] is in contracts.
pub enum ArgKind {
    Name(Seq<char>),
    Comma,
    Other,
}

impl View for ArgToken {
    type V = ArgKind;

    open spec fn view(&self) -> ArgKind {
        match self {
            ArgToken::Name(text) => ArgKind::Name(text@),
            ArgToken::Comma => ArgKind::Comma,
            ArgToken::Other => ArgKind::Other,
        }
    }
}

/// A token sequence, each token by its view.
pub open spec fn kinds(tokens: Seq<ArgToken>) -> Seq<ArgKind> {
    tokens.map_values(|token: ArgToken| token@)
}

/// Whether a token may be read as `kind`. The punctuation mark `,` is the
/// comma, and nothing else is. Only a word can be a name, and then the name
/// is the word's text; whether a given word is one, or a keyword, is the
/// parser's verdict. Whatever is neither is something that no argument list
/// holds.
pub open spec fn reads_as(token: TokenView, kind: ArgKind) -> bool {
    match token.kind {
        TokenKind::Punct => kind == if token.text == ","@ {
            ArgKind::Comma
        } else {
            ArgKind::Other
        },
        TokenKind::Ident => kind == ArgKind::Name(token.text) || kind == ArgKind::Other,
        TokenKind::Group => kind == ArgKind::Other,
        TokenKind::Literal => kind == ArgKind::Other,
    }
}

/// Whether a sequence of tokens may be read as `list`, token by token.
pub open spec fn read_as(tokens: Seq<TokenView>, list: Seq<ArgKind>) -> bool {
    &&& list.len() == tokens.len()
    &&& forall|at: int| 0 <= at < tokens.len() ==> reads_as(tokens[at], #[trigger] list[at])
}

/// Whether the token at `place` is what an argument list has there: a name at
/// an even place, a comma at an odd one.
pub open spec fn fits(list: Seq<ArgKind>, place: int) -> bool {
    if place % 2 == 0 {
        list[place] is Name
    } else {
        list[place] is Comma
    }
}

/// Whether the tokens form an argument list.
pub open spec fn is_list(list: Seq<ArgKind>) -> bool {
    forall|place: int| 0 <= place < list.len() ==> fits(list, place)
}

/// Whether `place` is where the tokens first stop being an argument list.
pub open spec fn first_misfit(list: Seq<ArgKind>, place: int) -> bool {
    &&& 0 <= place < list.len()
    &&& !fits(list, place)
    &&& forall|before: int| 0 <= before < place ==> fits(list, before)
}

/// The names that an argument list holds, as written: with repetitions, in
/// order. They are the tokens at the even places.
pub open spec fn listed(list: Seq<ArgKind>) -> Seq<Seq<char>> {
    Seq::new(((list.len() + 1) / 2) as nat, |n: int| list[2 * n]->Name_0)
}

/// The names of a sequence without the repetitions: each name once, where it
/// first occurs.
pub open spec fn first_occurrences(names: Seq<Seq<char>>) -> Seq<Seq<char>>
    decreases names.len(),
{
    if names.len() == 0 {
        Seq::empty()
    } else {
        let before = first_occurrences(names.drop_last());
        if before.contains(names.last()) {
            before
        } else {
            before.push(names.last())
        }
    }
}

/// Dropping the repetitions leaves no name twice and loses none: the names
/// that remain are, as a set, the names that were there, and they are as many
/// as there were distinct names.
pub proof fn lemma_first_occurrences(names: Seq<Seq<char>>)
    ensures
        first_occurrences(names).no_duplicates(),
        first_occurrences(names).to_set() == names.to_set(),
        first_occurrences(names).len() == names.to_set().len(),
    decreases names.len(),
{
    let kept = first_occurrences(names);
    if names.len() > 0 {
        let rest = names.drop_last();
        let before = first_occurrences(rest);
        lemma_first_occurrences(rest);
        assert(names == rest.push(names.last()));
        rest.lemma_push_to_set_commute(names.last());
        if before.contains(names.last()) {
            assert(rest.to_set().contains(names.last()));
            assert(rest.to_set().insert(names.last()) == rest.to_set());
        } else {
            before.lemma_push_to_set_commute(names.last());
        }
    }
    assert(kept.to_set() == names.to_set());
    kept.unique_seq_to_set();
}

/// The set of names that is read from a list depends neither on the order in
/// which the names are written nor on how often each is repeated: two
/// sequences that hold the same names give the same set, and its size is the
/// number of distinct names.
pub proof fn lemma_names_form_a_set(written: Seq<Seq<char>>, other: Seq<Seq<char>>)
    requires
        written.to_set() == other.to_set(),
    ensures
        first_occurrences(written).to_set() == first_occurrences(other).to_set(),
        first_occurrences(written).len() == first_occurrences(other).len(),
        first_occurrences(written).len() == written.to_set().len(),
{
    lemma_first_occurrences(written);
    lemma_first_occurrences(other);
}

/// The argument list is no comma-separated list of identifiers.
#[derive(Debug, Clone, Copy)]
pub struct MalformedArgs {
    /// The place, counted from zero, of the first token that does not fit.
    pub position: usize,
}

/// What was expected at a place where an argument list broke off.
pub open spec fn expectation(position: int) -> Seq<char> {
    if position % 2 == 0 {
        "expected identifier"@
    } else {
        "expected `,`"@
    }
}

impl MalformedArgs {
    /// The diagnostic text: what the list should have held at the place.
    pub fn message(&self) -> (text: String)
        ensures
            text@ == expectation(self.position as int),
    {
        if self.position % 2 == 0 {
            String::from_str("expected identifier")
        } else {
            String::from_str("expected `,`")
        }
    }
}

/// The names of the tests to generate. No name is held twice. The empty set
/// is a value like any other, and asks for one test that the backend names.
#[derive(Debug)]
pub struct Args {
    test_names: Vec<String>,
}

impl View for Args {
    type V = Set<Seq<char>>;

    /// The names as a set.
    open spec fn view(&self) -> Set<Seq<char>> {
        self.names().to_set()
    }
}

/// Whether `name` is among `names`.
fn holds(names: &Vec<String>, name: &String) -> (found: bool)
    ensures
        found == names.deep_view().contains(name@),
{
    let mut at: usize = 0;
    while at < names.len()
        invariant
            at <= names.len(),
            forall|i: int| 0 <= i < at ==> names.deep_view()[i] != name@,
        decreases names.len() - at,
    {
        if names[at] == *name {
            assert(names.deep_view()[at as int] == name@);
            return true;
        }
        at += 1;
    }
    false
}

/// Tells the tokens of an argument list apart, each by its kind and text,
/// see [`reads_as`]. A word is handed to the parser, which says whether it
/// is an identifier.
pub fn classify(tokens: &Vec<Token>) -> (list: Vec<ArgToken>)
    ensures
        read_as(token_views(tokens@), kinds(list@)),
{
    let comma = String::from_str(",");
    let mut list: Vec<ArgToken> = Vec::new();
    let mut at: usize = 0;
    while at < tokens.len()
        invariant
            at <= tokens.len(),
            comma@ == ","@,
            read_as(token_views(tokens@).take(at as int), kinds(list@)),
        decreases tokens.len() - at,
    {
        let token = &tokens[at];
        let kind = match token.kind {
            TokenKind::Punct => if token.text == comma {
                ArgToken::Comma
            } else {
                ArgToken::Other
            },
            TokenKind::Ident => if accepts_identifier(token.text.as_str()) {
                ArgToken::Name(token.text.clone())
            } else {
                ArgToken::Other
            },
            TokenKind::Group => ArgToken::Other,
            TokenKind::Literal => ArgToken::Other,
        };
        proof {
            let read = token_views(tokens@).take(at as int);
            let view = token_views(tokens@)[at as int];
            assert(view == token@);
            assert(reads_as(view, kind@));
            assert(token_views(tokens@).take(at + 1) == read.push(view));
            assert(kinds(list@.push(kind)) == kinds(list@).push(kind@));
        }
        list.push(kind);
        at += 1;
    }
    assert(token_views(tokens@).take(at as int) == token_views(tokens@));
    list
}

/// Whether `result` is what reading `list` gives. The tokens are accepted
/// exactly if they form a list, and then each listed name is held once, where
/// it first occurs; otherwise the error names the first place that does not
/// fit.
pub open spec fn parsed_as(list: Seq<ArgKind>, result: Result<Args, MalformedArgs>) -> bool {
    match result {
        Ok(args) => {
            &&& is_list(list)
            &&& args.names() == first_occurrences(listed(list))
            &&& args.names().no_duplicates()
            &&& args@ == listed(list).to_set()
            &&& args.names().len() == listed(list).to_set().len()
        },
        Err(error) => first_misfit(list, error.position as int),
    }
}

impl Args {
    #[verifier::type_invariant]
    spec fn no_name_twice(&self) -> bool {
        self.test_names.deep_view().no_duplicates()
    }

    /// The names, each once, in the order in which they were first written.
    pub closed spec fn names(&self) -> Seq<Seq<char>> {
        self.test_names.deep_view()
    }

    /// How many names there are, which is the size of the set.
    pub fn len(&self) -> (count: usize)
        ensures
            count == self.names().len(),
            count == self@.len(),
            self.names().no_duplicates(),
    {
        proof {
            use_type_invariant(self);
            self.names().unique_seq_to_set();
        }
        self.test_names.len()
    }

    /// Whether no test was named.
    pub fn is_empty(&self) -> (empty: bool)
        ensures
            empty == (self.names().len() == 0),
            empty == (self@ == Set::<Seq<char>>::empty()),
    {
        proof {
            self.names().lemma_cardinality_of_empty_set_is_0();
            broadcast use vstd::seq_lib::seq_to_set_is_finite;

            if self@ == Set::<Seq<char>>::empty() {
                assert(self@.len() == 0);
            } else if self.names().len() == 0 {
                assert(self@ =~= Set::<Seq<char>>::empty());
            }
        }
        self.test_names.len() == 0
    }

    /// The names, in the order of [`Args::names`].
    pub fn test_names(&self) -> (names: &Vec<String>)
        ensures
            names.deep_view() == self.names(),
            self.names().no_duplicates(),
    {
        proof {
            use_type_invariant(self);
        }
        &self.test_names
    }

    /// Whether a test of this name was asked for.
    pub fn contains(&self, name: &String) -> (found: bool)
        ensures
            found == self@.contains(name@),
    {
        holds(&self.test_names, name)
    }

    /// Reads an argument list from its tokens, see [`parsed_as`].
    pub fn from_tokens(tokens: &Vec<ArgToken>) -> (result: Result<Args, MalformedArgs>)
        ensures
            parsed_as(kinds(tokens@), result),
    {
        let ghost list = kinds(tokens@);
        let mut names: Vec<String> = Vec::new();
        let mut place: usize = 0;
        assert(listed(list.take(0)) == Seq::<Seq<char>>::empty());
        while place < tokens.len()
            invariant
                place <= tokens.len(),
                list == kinds(tokens@),
                forall|before: int| 0 <= before < place ==> fits(list, before),
                names.deep_view() == first_occurrences(listed(list.take(place as int))),
            decreases tokens.len() - place,
        {
            let ghost seen = listed(list.take(place as int));
            let ghost now = listed(list.take(place + 1));
            if place % 2 == 0 {
                match &tokens[place] {
                    ArgToken::Name(text) => {
                        assert(list[place as int] == ArgKind::Name(text@));
                        assert(now == seen.push(text@));
                        assert(now.drop_last() == seen);
                        if !holds(&names, text) {
                            let ghost kept = names.deep_view();
                            names.push(text.clone());
                            assert(names.deep_view() == kept.push(text@));
                        }
                    },
                    _ => {
                        return Err(MalformedArgs { position: place });
                    },
                }
            } else {
                match &tokens[place] {
                    ArgToken::Comma => {
                        assert(now == seen);
                    },
                    _ => {
                        return Err(MalformedArgs { position: place });
                    },
                }
            }
            place += 1;
        }
        proof {
            assert(list.take(place as int) == list);
            lemma_first_occurrences(listed(list));
        }
        Ok(Args { test_names: names })
    }

    /// Reads the argument list from the tokens as the compiler hands them
    /// over. Each top-level token is told apart by its kind and text, and the
    /// tokens are then read as [`Args::from_tokens`] reads them: the result
    /// is what some reading of the stream's tokens gives.
    pub fn parse(input: &TokenStream) -> (result: Result<Args, MalformedArgs>)
        ensures
            exists|list: Seq<ArgKind>| #[trigger]
                read_as(stream_tokens(*input), list) && parsed_as(list, result),
    {
        let tokens = top_level(input);
        let list = classify(&tokens);
        let result = Args::from_tokens(&list);
        assert(read_as(stream_tokens(*input), kinds(list@)) && parsed_as(kinds(list@), result));
        result
    }
}

} // verus!
