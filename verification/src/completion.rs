//! What a completion backend is to the pipeline: a conversation that is opened
//! with an instruction and grows turn by turn, and an answer that comes back.
//!
//! The two backends below keep the conversation, each in the form in which
//! its provider wants it, and say what goes on the wire. Carrying it there is
//! the caller's work, and so is everything that can go wrong on the way; the
//! answer, or the failure, is handed back as a value.

use vstd::prelude::*;
use vstd::string::*;

verus! {

/// Who speaks in a turn.
#[derive(Debug, Clone, Copy, PartialEq, Eq, Structural)]
pub enum Role {
    /// The instruction that opens a conversation and sets the backend's part.
    System,
    /// What the pipeline asks or shows.
    User,
}

/// One turn of a conversation, in contracts.
pub struct Turn {
    pub role: Role,
    pub text: Seq<char>,
}

/// One turn of a conversation.
#[derive(Debug)]
pub struct Message {
    pub role: Role,
    pub content: String,
}

impl View for Message {
    type V = Turn;

    open spec fn view(&self) -> Turn {
        Turn { role: self.role, text: self.content@ }
    }
}

/// The turns that a vector of messages holds.
pub open spec fn turns_of(messages: Seq<Message>) -> Seq<Turn> {
    messages.map_values(|message: Message| message@)
}

/// The texts of the turns, one after the other with nothing between them.
pub open spec fn flat(turns: Seq<Turn>) -> Seq<char>
    decreases turns.len(),
{
    if turns.len() == 0 {
        Seq::empty()
    } else {
        flat(turns.drop_last()) + turns.last().text
    }
}

/// Why a backend gave no answer.
#[derive(Debug)]
pub enum CompletionError {
    /// The provider could not be reached, or the exchange broke off.
    Transport(String),
    /// The provider did not accept the credentials.
    Authentication(String),
    /// The provider refused the request.
    Rejected(String),
    /// The provider answered with no text.
    EmptyResponse,
}

/// The diagnostic for a missing answer, by its cause and the provider's words.
pub open spec fn completion_message(error: CompletionError) -> Seq<char> {
    match error {
        CompletionError::Transport(detail) => "The completion backend could not be reached: "@
            + detail@,
        CompletionError::Authentication(detail) =>
            "The completion backend refused the credentials: "@ + detail@,
        CompletionError::Rejected(detail) => "The completion backend rejected the request: "@
            + detail@,
        CompletionError::EmptyResponse => "The completion backend returned no text."@,
    }
}

impl CompletionError {
    /// The diagnostic text.
    pub fn message(&self) -> (text: String)
        ensures
            text@ == completion_message(*self),
    {
        match self {
            CompletionError::Transport(detail) => {
                let mut text = String::from_str("The completion backend could not be reached: ");
                text.append(detail.as_str());
                text
            },
            CompletionError::Authentication(detail) => {
                let mut text = String::from_str(
                    "The completion backend refused the credentials: ",
                );
                text.append(detail.as_str());
                text
            },
            CompletionError::Rejected(detail) => {
                let mut text = String::from_str("The completion backend rejected the request: ");
                text.append(detail.as_str());
                text
            },
            CompletionError::EmptyResponse => String::from_str(
                "The completion backend returned no text.",
            ),
        }
    }
}

/// What the provider's answer counts as: a text that is not empty is the
/// completion, and an empty one is a failure of the backend, as is every
/// failure that the caller reports.
pub open spec fn completion_of(reply: Result<String, CompletionError>) -> Result<
    String,
    CompletionError,
> {
    match reply {
        Ok(text) => if text@.len() == 0 {
            Err(CompletionError::EmptyResponse)
        } else {
            Ok(text)
        },
        Err(error) => Err(error),
    }
}

/// A completion backend, as far as the pipeline deals with one. The pipeline
/// drives every backend through these operations and nothing else.
pub trait CodeCompletion: Sized {
    /// The conversation so far.
    spec fn turns(&self) -> Seq<Turn>;

    /// A backend that has been told nothing yet.
    fn new() -> (backend: Self)
        ensures
            backend.turns() == Seq::<Turn>::empty(),
    ;

    /// Opens the conversation: whatever was there before, the instruction is
    /// now its first and only turn.
    fn init(&mut self, init_prompt: String)
        ensures
            final(self).turns() == seq![Turn { role: Role::System, text: init_prompt@ }],
    ;

    /// Adds one turn at the end. The turns before it stay as they are, in
    /// their order.
    fn add_context(&mut self, context: String)
        ensures
            final(self).turns() == old(self).turns().push(
                Turn { role: Role::User, text: context@ },
            ),
    ;

    /// Takes what came back from the provider for the whole conversation
    /// and says what the completion is, see [`completion_of`].
    fn code_completion(&self, reply: Result<String, CompletionError>) -> (completion: Result<
        String,
        CompletionError,
    >)
        ensures
            completion == completion_of(reply),
    {
        match reply {
            Ok(text) => if text.as_str().is_empty() {
                Err(CompletionError::EmptyResponse)
            } else {
                Ok(text)
            },
            Err(error) => Err(error),
        }
    }
}

/// The chat backend: the provider is sent the turns one by one, each tagged
/// with its role.
#[derive(Debug)]
pub struct ChatGPT {
    messages: Vec<Message>,
}

impl ChatGPT {
    /// What goes on the wire: the messages, in order.
    pub fn messages(&self) -> (messages: &Vec<Message>)
        ensures
            turns_of(messages@) == self.turns(),
    {
        &self.messages
    }
}

impl CodeCompletion for ChatGPT {
    closed spec fn turns(&self) -> Seq<Turn> {
        turns_of(self.messages@)
    }

    fn new() -> (backend: Self) {
        let backend = ChatGPT { messages: Vec::new() };
        assert(backend.turns() == Seq::<Turn>::empty());
        backend
    }

    fn init(&mut self, init_prompt: String) {
        let mut messages: Vec<Message> = Vec::new();
        messages.push(Message { role: Role::System, content: init_prompt });
        self.messages = messages;
        assert(self.turns() == seq![Turn { role: Role::System, text: init_prompt@ }]);
    }

    fn add_context(&mut self, context: String) {
        self.messages.push(Message { role: Role::User, content: context });
        assert(self.turns() == old(self).turns().push(
            Turn { role: Role::User, text: context@ },
        ));
    }
}

/// The single-shot backend: the provider is sent one prompt, which is the
/// turns' texts one after the other. The prompt is all that is kept of the
/// turns.
pub struct TextCompletion {
    prompt: String,
    turns: Ghost<Seq<Turn>>,
}

impl TextCompletion {
    #[verifier::type_invariant]
    spec fn prompt_is_flat(&self) -> bool {
        self.prompt@ == flat(self.turns@)
    }

    /// What goes on the wire: the flat prompt.
    pub fn prompt(&self) -> (prompt: &str)
        ensures
            prompt@ == flat(self.turns()),
    {
        proof {
            use_type_invariant(self);
        }
        self.prompt.as_str()
    }
}

impl CodeCompletion for TextCompletion {
    closed spec fn turns(&self) -> Seq<Turn> {
        self.turns@
    }

    fn new() -> (backend: Self) {
        TextCompletion { prompt: String::new(), turns: Ghost(Seq::empty()) }
    }

    fn init(&mut self, init_prompt: String) {
        let ghost turns = seq![Turn { role: Role::System, text: init_prompt@ }];
        assert(flat(turns) == init_prompt@) by {
            assert(turns.drop_last() == Seq::<Turn>::empty());
            assert(flat(turns.drop_last()) + init_prompt@ == init_prompt@);
        }
        *self = TextCompletion { prompt: init_prompt, turns: Ghost(turns) };
    }

    fn add_context(&mut self, context: String) {
        // The prompt and the turns change together, so the backend is taken
        // out whole, extended, and put back.
        let mut held = TextCompletion { prompt: String::new(), turns: Ghost(Seq::empty()) };
        core::mem::swap(self, &mut held);
        proof {
            use_type_invariant(&held);
        }
        let TextCompletion { prompt, turns } = held;
        let mut prompt = prompt;
        prompt.append(context.as_str());
        let ghost turns = turns@.push(Turn { role: Role::User, text: context@ });
        assert(turns.drop_last() == old(self).turns());
        *self = TextCompletion { prompt, turns: Ghost(turns) };
    }
}

} // verus!
