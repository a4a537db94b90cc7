//! What the module holds once it is loaded.
use vstd::prelude::*;

verus! {

/// The text that `hello` returns.
pub open spec fn greeting() -> Seq<char> {
    "Hello World"@
}

/// The module's documentation text.
pub open spec fn doc_text() -> Seq<char> {
    "This module is implemented in Rust"@
}

/// The module's one function: takes nothing and always returns the greeting.
pub fn hello() -> (r: String)
    ensures
        r@ == greeting(),
{
    "Hello World".to_owned()
}

/// The documentation string attached to the module when it is created.
pub fn module_doc() -> (r: String)
    ensures
        r@ == doc_text(),
{
    "This module is implemented in Rust".to_owned()
}

} // verus!
