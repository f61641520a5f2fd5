//! One-line salutations addressed to a name.

use vstd::prelude::*;

verus! {

/// The characters of a hello addressed to `name`.
pub open spec fn hello_text(name: Seq<char>) -> Seq<char> {
    "Hello, "@ + name + "!"@
}

/// The characters of a goodbye addressed to `name`.
pub open spec fn goodbye_text(name: Seq<char>) -> Seq<char> {
    "Goodbye, "@ + name + "!"@
}

/// Says hello to `name`.
///
/// The name is copied character for character: nothing is escaped, trimmed
/// or otherwise altered, and an empty name is accepted.
pub fn greet(name: &str) -> (text: String)
    ensures
        text@ == hello_text(name@),
{
    let mut text = String::from_str("Hello, ");
    text.append(name);
    text.append("!");
    text
}

/// Says goodbye to `name`.
///
/// The name is copied character for character, as in [`greet`].
pub fn farewell(name: &str) -> (text: String)
    ensures
        text@ == goodbye_text(name@),
{
    let mut text = String::from_str("Goodbye, ");
    text.append(name);
    text.append("!");
    text
}

} // verus!
