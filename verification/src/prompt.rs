//! The prompt: what the backend is told, turn by turn.
//!
//! A conversation opens with the instruction that sets the backend's part.
//! The function follows, in a fenced block. Then come the tasks: one turn for
//! each test that was asked for by name, in the order of the names, or a
//! single turn that leaves the choice to the backend where none was named.
//! Every task asks for an answer that starts with a fenced block; nothing
//! here checks that it does.

use crate::args::Args;
use crate::completion::{CodeCompletion, Role, Turn};
use vstd::prelude::*;
use vstd::string::*;

verus! {

/// The instruction that opens every conversation.
pub open spec fn system_instruction() -> Seq<char> {
    "You are an expert who can generate perfect tests for the given function."@
}

/// The turn that shows the function under test.
pub open spec fn source_turn(source: Seq<char>) -> Seq<char> {
    "Read this Rust function:\n```rust\n"@ + source + "\n```"@
}

/// The task where no test was named.
pub open spec fn generic_instruction() -> Seq<char> {
    "Write a test case for the function as much as possible in Markdown code snippet style. Your response must start with code block '```rust'."@
}

/// The task for the test of a given name.
pub open spec fn named_instruction(name: Seq<char>) -> Seq<char> {
    "Write a test case `"@ + name
        + "` for the function in Markdown code snippet style. Your response must start with code block '```rust'."@
}

/// The tasks for a list of names.
pub open spec fn instructions(names: Seq<Seq<char>>) -> Seq<Seq<char>> {
    if names.len() == 0 {
        seq![generic_instruction()]
    } else {
        names.map_values(|name: Seq<char>| named_instruction(name))
    }
}

/// The whole conversation for a function and the names of its tests.
pub open spec fn prompt(source: Seq<char>, names: Seq<Seq<char>>) -> Seq<Turn> {
    seq![
        Turn { role: Role::System, text: system_instruction() },
        Turn { role: Role::User, text: source_turn(source) },
    ] + instructions(names).map_values(|task: Seq<char>| Turn { role: Role::User, text: task })
}

/// A task names the test that it was written for and no other: two names
/// with the same task are the same name.
pub proof fn lemma_task_names_one_test(name: Seq<char>, other: Seq<char>)
    requires
        named_instruction(name) == named_instruction(other),
    ensures
        name == other,
{
    let head = "Write a test case `"@;
    let tail =
        "` for the function in Markdown code snippet style. Your response must start with code block '```rust'."@;
    let task = head + name + tail;
    let same = head + other + tail;
    assert(task.len() == same.len());
    assert(name.len() == other.len());
    assert forall|i: int| 0 <= i < name.len() implies name[i] == other[i] by {
        assert(task[head.len() + i] == name[i]);
        assert(same[head.len() + i] == other[i]);
    }
    assert(name =~= other);
}

/// Where no test is named there is exactly one task, the generic one. Where
/// tests are named there are as many tasks as names, the task at each place
/// is the one for the name at that place, and no two tasks are the same. The
/// conversation holds two turns before the tasks.
pub proof fn lemma_one_task_per_name(source: Seq<char>, names: Seq<Seq<char>>)
    requires
        names.no_duplicates(),
    ensures
        names.len() == 0 ==> instructions(names) == seq![generic_instruction()],
        names.len() > 0 ==> instructions(names).len() == names.len(),
        names.len() > 0 ==> forall|at: int|
            0 <= at < names.len() ==> #[trigger] instructions(names)[at] == named_instruction(
                names[at],
            ),
        instructions(names).no_duplicates(),
        prompt(source, names).len() == 2 + instructions(names).len(),
        forall|at: int|
            0 <= at < instructions(names).len() ==> #[trigger] prompt(source, names)[2 + at]
                == (Turn { role: Role::User, text: instructions(names)[at] }),
{
    if names.len() > 0 {
        assert forall|i: int, j: int|
            0 <= i < names.len() && 0 <= j < names.len() && i != j implies instructions(names)[i]
            != instructions(names)[j] by {
            if instructions(names)[i] == instructions(names)[j] {
                lemma_task_names_one_test(names[i], names[j]);
            }
        }
    }
}

/// Writes the opening instruction.
pub fn system_prompt() -> (text: String)
    ensures
        text@ == system_instruction(),
{
    String::from_str("You are an expert who can generate perfect tests for the given function.")
}

/// Writes the turn that shows the function.
pub fn source_prompt(source: &str) -> (text: String)
    ensures
        text@ == source_turn(source@),
{
    let mut text = String::from_str("Read this Rust function:\n```rust\n");
    text.append(source);
    text.append("\n```");
    text
}

/// Writes the task where no test was named.
pub fn generic_prompt() -> (text: String)
    ensures
        text@ == generic_instruction(),
{
    String::from_str(
        "Write a test case for the function as much as possible in Markdown code snippet style. Your response must start with code block '```rust'.",
    )
}

/// Writes the task for one named test.
pub fn named_prompt(name: &str) -> (text: String)
    ensures
        text@ == named_instruction(name@),
{
    let mut text = String::from_str("Write a test case `");
    text.append(name);
    text.append(
        "` for the function in Markdown code snippet style. Your response must start with code block '```rust'.",
    );
    text
}

/// Tells a backend the whole prompt for a function and the tests asked for.
/// Whatever the backend held before, its conversation is afterwards the
/// prompt and nothing else.
pub fn build_prompt<C: CodeCompletion>(backend: &mut C, source: &str, args: &Args)
    ensures
        final(backend).turns() == prompt(source@, args.names()),
{
    backend.init(system_prompt());
    backend.add_context(source_prompt(source));
    let ghost opening = backend.turns();
    let ghost tasks = instructions(args.names()).map_values(
        |task: Seq<char>| Turn { role: Role::User, text: task },
    );
    let names = args.test_names();
    if names.len() == 0 {
        backend.add_context(generic_prompt());
        assert(backend.turns() == opening + tasks);
    } else {
        let mut at: usize = 0;
        while at < names.len()
            invariant
                at <= names.len(),
                names.len() > 0,
                names.deep_view() == args.names(),
                tasks == instructions(args.names()).map_values(
                    |task: Seq<char>| Turn { role: Role::User, text: task },
                ),
                backend.turns() == opening + tasks.take(at as int),
            decreases names.len() - at,
        {
            backend.add_context(named_prompt(names[at].as_str()));
            assert(tasks.take(at + 1) == tasks.take(at as int).push(tasks[at as int]));
            at += 1;
        }
        assert(tasks.take(at as int) == tasks);
    }
}

} // verus!
