//! The greeting line.

use vstd::prelude::*;

verus! {

/// The greeting addressed to `name`: the name between `Hello, ` and `!`.
pub open spec fn greeting(name: Seq<char>) -> Seq<char> {
    "Hello, "@ + name + "!"@
}

/// Builds the greeting for `name`. The name is copied as it is: nothing
/// in it is escaped, trimmed or interpreted.
pub fn greet(name: &str) -> (line: String)
    ensures
        line@ == greeting(name@),
{
    let mut line = String::from_str("Hello, ");
    line.append(name);
    line.append("!");
    line
}

} // verus!
