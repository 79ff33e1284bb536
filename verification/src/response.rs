//! The externally visible shape of a failure: a status code and a body
//! holding a list of detail records. Serializing this to bytes (JSON, HTTP)
//! is the business of an outer layer; this core only decides the values.

use vstd::prelude::*;

verus! {

/// The status code used for a disclosed human error that carries no
/// override of its own. Sentinel errors carry their own fixed codes.
pub const DEFAULT_ERROR_STATUS: u16 = 400;

/// One detail record of a response body.
pub struct StringError {
    pub detail: String,
}

/// A response body: an ordered list of detail records (exactly one in
/// every response this core produces).
pub struct Bad {
    pub errors: Vec<StringError>,
}

/// What this core discloses for a failure: a status code and a body.
pub struct Response {
    pub status: u16,
    pub body: Bad,
}

impl View for StringError {
    type V = Seq<char>;

    open spec fn view(&self) -> Seq<char> {
        self.detail@
    }
}

impl View for Bad {
    type V = Seq<Seq<char>>;

    open spec fn view(&self) -> Seq<Seq<char>> {
        self.errors@.map_values(|e: StringError| e@)
    }
}

impl View for Response {
    type V = (u16, Seq<Seq<char>>);

    open spec fn view(&self) -> (u16, Seq<Seq<char>>) {
        (self.status, self.body@)
    }
}

/// The model of every response this core produces: the given status and a
/// body of exactly one detail record.
pub open spec fn response_model(status: u16, detail: Seq<char>) -> (u16, Seq<Seq<char>>) {
    (status, seq![detail])
}

/// Builds the one response shape used everywhere: one detail record.
pub fn error_response(status: u16, detail: String) -> (r: Response)
    ensures
        r@ == response_model(status, detail@),
{
    let mut errors: Vec<StringError> = Vec::new();
    errors.push(StringError { detail });
    let r = Response { status, body: Bad { errors } };
    proof {
        assert(r.body@ =~= seq![r.body.errors@[0]@]);
        assert(r@.1 =~= response_model(status, r.body.errors@[0].detail@).1);
    }
    r
}

} // verus!
