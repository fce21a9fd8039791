//! The greeting: what it is, and the function that builds it.

use vstd::prelude::*;
use vstd::string::StringExecFns;

verus! {

/// The characters that open every greeting: `Hello, `.
pub open spec fn greeting_prefix() -> Seq<char> {
    seq!['H', 'e', 'l', 'l', 'o', ',', ' ']
}

/// The characters that close every greeting: `!`.
pub open spec fn greeting_suffix() -> Seq<char> {
    seq!['!']
}

/// The greeting for `name`: the prefix, the name as given, and the suffix.
pub open spec fn greeting_for(name: Seq<char>) -> Seq<char> {
    greeting_prefix() + name + greeting_suffix()
}

/// The prefix and the suffix are the literals `"Hello, "` and `"!"`, so the
/// greeting for `name` is `"Hello, " + name + "!"`.
pub proof fn lemma_greeting_literals(name: Seq<char>)
    ensures
        greeting_prefix() == "Hello, "@,
        greeting_suffix() == "!"@,
        greeting_for(name) == "Hello, "@ + name + "!"@,
{
    reveal_strlit("Hello, ");
    reveal_strlit("!");
    assert(greeting_prefix() =~= "Hello, "@);
    assert(greeting_suffix() =~= "!"@);
}

/// Greeting is repeatable: the result depends on the name and on nothing
/// else, so two greetings of the same name are the same text.
pub proof fn lemma_greeting_repeatable(
    name: Seq<char>,
    again: Seq<char>,
    first: Seq<char>,
    second: Seq<char>,
)
    requires
        name == again,
        first == greeting_for(name),
        second == greeting_for(again),
    ensures
        first == second,
{
}

/// Greets `name`.
///
/// Every string is a valid name, the empty one included, and none is
/// refused. The name is taken over character by character, with nothing
/// trimmed, escaped or checked. The function reads its argument and builds
/// a new string; it touches no other state.
pub fn greet(name: String) -> (greeting: String)
    ensures
        greeting@ == greeting_for(name@),
{
    let mut greeting = String::from_str("Hello, ");
    greeting.append(name.as_str());
    greeting.append("!");
    proof {
        lemma_greeting_literals(name@);
    }
    greeting
}

} // verus!
