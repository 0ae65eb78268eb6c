use vstd::prelude::*;

verus! {

/// What a reply carries.
pub enum Body<T> {
    /// Nothing.
    Empty,
    /// A fixed text.
    Text(&'static str),
    /// Data that the server renders.
    Data(T),
}

/// A reply to a request: an HTTP status code and a body.
pub struct Reply<T> {
    pub status: u16,
    pub body: Body<T>,
}

impl<T> Reply<T> {
    /// The status is one an HTTP status code can hold (three digits).
    pub open spec fn has_valid_status(self) -> bool {
        100 <= self.status <= 999
    }

    /// The reply has the given status and nothing in its body.
    pub open spec fn is_empty_with(self, status: u16) -> bool {
        &&& self.status == status
        &&& self.body is Empty
    }

    /// The reply has the given status and the given fixed text.
    pub open spec fn is_text_with(self, status: u16, text: Seq<char>) -> bool {
        &&& self.status == status
        &&& self.body matches Body::Text(t) && t@ == text
    }

    /// A reply with a status and nothing else.
    pub fn empty(status: u16) -> (r: Reply<T>)
        ensures
            r.is_empty_with(status),
    {
        Reply { status, body: Body::Empty }
    }
}

/// The reply to a request the server does not serve yet.
pub fn unimplemented<T>() -> (r: Reply<T>)
    ensures
        r.is_text_with(501, "Unimplemented"@),
        r.has_valid_status(),
{
    Reply { status: 501, body: Body::Text("Unimplemented") }
}

} // verus!
