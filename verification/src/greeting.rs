//! The greeting command.

use vstd::prelude::*;
use vstd::string::*;

verus! {

/// The greeting for `name`: the name, unchanged, between the opening
/// `Hello, ` and a closing exclamation mark.
pub open spec fn greeting(name: Seq<char>) -> Seq<char> {
    "Hello, "@ + name + "!"@
}

/// Greets `name`. Every name is accepted, the empty one too, and no
/// character of it is read as anything but itself.
pub fn greet(name: String) -> (text: String)
    ensures
        text@ == greeting(name@),
{
    let mut text = String::from_str("Hello, ");
    text.append(name.as_str());
    text.append("!");
    text
}

/// A greeting is eight characters longer than its name and holds the name
/// between its first seven characters and its last.
pub proof fn lemma_greeting_holds_name(name: Seq<char>)
    ensures
        greeting(name).len() == name.len() + 8,
        greeting(name).subrange(7, greeting(name).len() - 1) == name,
{
    reveal_strlit("Hello, ");
    reveal_strlit("!");
    assert(greeting(name).subrange(7, greeting(name).len() - 1) =~= name);
}

/// Two names with one greeting are one name.
pub proof fn lemma_greeting_tells_names_apart(first: Seq<char>, second: Seq<char>)
    requires
        greeting(first) == greeting(second),
    ensures
        first == second,
{
    lemma_greeting_holds_name(first);
    lemma_greeting_holds_name(second);
}

} // verus!
