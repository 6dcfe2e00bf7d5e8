//! The reference server handler: it answers a request carrying a name with a
//! greeting built from that name. The RPC transport around it only moves the
//! two strings; the message itself is computed here.

use vstd::prelude::*;

verus! {

/// The exact reply the reference handler owes for a request naming `name`.
pub open spec fn greeting_of(name: Seq<char>) -> Seq<char> {
    "Hello "@ + name + "!"@
}

/// The reference greeter service: one handler, no state.
pub struct MyGreeter {}

impl MyGreeter {
    pub fn new() -> (g: MyGreeter) {
        MyGreeter {  }
    }

    /// Answer one request: the reply message greets the request's name.
    pub fn say_hello(&self, name: &str) -> (message: String)
        ensures
            message@ == greeting_of(name@),
    {
        let mut message = String::from_str("Hello ");
        message.append(name);
        message.append("!");
        message
    }
}

} // verus!
