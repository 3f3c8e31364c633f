//! The one piece of handler logic worth stating: the greeting a request for
//! two names is answered with. Everything else a handler does is routing or
//! I/O and lives with the server, not here.

use vstd::prelude::*;
use vstd::string::*;

verus! {

/// The greeting's text for a pair of names.
pub open spec fn greet_text(first: Seq<char>, last: Seq<char>) -> Seq<char> {
    "Hello "@ + first + " "@ + last + ", the axum-api server greets you!"@
}

/// Composes the greeting returned for `/greet/<first>/<last>`.
pub fn greet_message(first_name: &str, last_name: &str) -> (r: String)
    ensures
        r@ == greet_text(first_name@, last_name@),
{
    let mut s: String = "Hello ".to_owned();
    s.append(first_name);
    s.append(" ");
    s.append(last_name);
    s.append(", the axum-api server greets you!");
    s
}

} // verus!
