//! The error of a wasm host: a message.
use vstd::prelude::*;

verus! {

/// The error of a wasm host: a message.
pub struct HostErr {
    message: String,
}

impl HostErr {
    pub closed spec fn message_view(&self) -> Seq<char> {
        self.message@
    }

    pub fn new(message: String) -> (r: Self)
        ensures
            r.message_view() == message@,
    {
        Self { message }
    }

    /// The error's message.
    pub fn to_string(&self) -> (r: String)
        ensures
            r@ == self.message_view(),
    {
        self.message.clone()
    }
}

} // verus!
