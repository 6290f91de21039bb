//! The greetings that the small web front end answers with.
use vstd::prelude::*;

verus! {

/// A greeting addressed to `name`.
pub fn hello_you(name: String) -> (r: String)
    ensures
        r@ == "hello, "@ + name@,
{
    String::from_str("hello, ").concat(name.as_str())
}

/// The greeting for an anonymous visitor.
pub fn hello_world() -> (r: String)
    ensures
        r@ == "hello, world!"@,
{
    String::from_str("hello, world!")
}

} // verus!
