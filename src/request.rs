//! Request bodies: what a body puts on the wire, and the headers it needs.

use vstd::prelude::*;

use crate::headers::raw_headers;

pub mod multipart;
pub mod wire;

pub use self::multipart::{
    MultipartBody, MultipartEntry, MultipartFileEntry, MultipartTextEntry, BOUNDARY_LENGTH,
};
pub use self::wire::{decimal, has_user_agent, request_text, same_ignoring_ascii_case};

verus! {

/// What a request body must offer: its wire form, and the headers that a
/// request carrying it needs.
pub trait RequestBody: Sized {
    /// The body is in a state to be sent.
    spec fn wf(&self) -> bool;

    /// The text that goes on the wire.
    spec fn payload(&self) -> Seq<char>;

    /// The raw header values that the body needs, by lower-case name.
    spec fn required_headers(&self) -> Map<Seq<char>, Seq<Seq<u8>>>;

    /// The final body of the request.
    fn for_request(self) -> (r: String)
        requires
            self.wf(),
        ensures
            r@ == self.payload(),
    ;

    /// Sets the headers that the body needs, leaving the others as they were.
    fn set_headers(&self, headers: &mut hyper::header::Headers)
        ensures
            raw_headers(*final(headers)) == raw_headers(*old(headers)).union_prefer_right(
                self.required_headers(),
            ),
    ;
}

/// A body of plain text.
pub struct StringBody {
    string: String,
}

impl View for StringBody {
    type V = Seq<char>;

    closed spec fn view(&self) -> Seq<char> {
        self.string@
    }
}

impl StringBody {
    /// A body holding `body`.
    pub fn new(body: &str) -> (r: StringBody)
        ensures
            r@ == body@,
    {
        StringBody { string: body.to_owned() }
    }
}

impl RequestBody for StringBody {
    open spec fn wf(&self) -> bool {
        true
    }

    open spec fn payload(&self) -> Seq<char> {
        self@
    }

    open spec fn required_headers(&self) -> Map<Seq<char>, Seq<Seq<u8>>> {
        Map::empty()
    }

    /// The text, as it was given.
    fn for_request(self) -> (r: String) {
        self.string
    }

    /// A plain body needs no header.
    fn set_headers(&self, headers: &mut hyper::header::Headers) {
        assert(raw_headers(*headers) =~= raw_headers(*old(headers)).union_prefer_right(
            Map::empty(),
        ));
    }
}

} // verus!
