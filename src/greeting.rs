use vstd::prelude::*;
use vstd::string::StringExecFns;

verus! {

/// The greeting for `name`: the name set between a fixed opening and a fixed
/// closing, with no escaping, trimming or validation.
pub open spec fn greeting_of(name: Seq<char>) -> Seq<char> {
    "Hello, "@ + name + "! You've been greeted from Rust!"@
}

/// Greets `name`. Every string is accepted, the empty one included.
pub fn greet(name: &str) -> (r: String)
    ensures
        r@ == greeting_of(name@),
{
    let mut r = String::from_str("Hello, ");
    r.append(name);
    r.append("! You've been greeted from Rust!");
    r
}

} // verus!
