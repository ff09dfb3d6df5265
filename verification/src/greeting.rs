//! The one command the shell exposes to the UI layer.

use vstd::prelude::*;

verus! {

/// Returns the fixed greeting template with `name` substituted verbatim:
/// `"Hello, {name}! You've been greeted from Rust!"`.
///
/// Every input string is accepted, including the empty string; nothing is
/// escaped or truncated.
pub fn greet(name: &str) -> (r: String)
    ensures
        r@ == "Hello, "@ + name@ + "! You've been greeted from Rust!"@,
{
    let mut r = String::from_str("Hello, ");
    r.append(name);
    r.append("! You've been greeted from Rust!");
    r
}

} // verus!
