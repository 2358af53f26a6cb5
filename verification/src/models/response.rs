//! The JSON answer of most endpoints: a status (`OK` or `KO`), a message and data.
use vstd::prelude::*;

verus! {

/// The answer of an endpoint: `status` is `OK` or `KO`.
pub struct Response {
    status: String,
    message: String,
    data: String,
}

/// The three texts of a [`Response`].
pub struct ResponseView {
    pub status: Seq<char>,
    pub message: Seq<char>,
    pub data: Seq<char>,
}

/// The view of a successful answer.
pub open spec fn ok_view(message: Seq<char>, data: Seq<char>) -> ResponseView {
    ResponseView { status: "OK"@, message, data }
}

/// The view of a failed answer: no data.
pub open spec fn error_view(message: Seq<char>) -> ResponseView {
    ResponseView { status: "KO"@, message, data: Seq::empty() }
}

/// A success and a failure are told apart by their status, `OK` against
/// `KO`; both carry the message as given, and a failure carries no data.
pub proof fn lemma_ok_and_error_views(message: Seq<char>, data: Seq<char>)
    ensures
        ok_view(message, data).status == seq!['O', 'K'],
        error_view(message).status == seq!['K', 'O'],
        ok_view(message, data).message == message && ok_view(message, data).data == data,
        error_view(message).message == message && error_view(message).data.len() == 0,
        ok_view(message, data) != error_view(message),
{
    reveal_strlit("OK");
    reveal_strlit("KO");
    assert("OK"@ =~= seq!['O', 'K']);
    assert("KO"@ =~= seq!['K', 'O']);
}

impl View for Response {
    type V = ResponseView;

    closed spec fn view(&self) -> ResponseView {
        ResponseView { status: self.status@, message: self.message@, data: self.data@ }
    }
}

impl Response {
    /// The status text.
    pub fn get_status(&self) -> (r: &str)
        ensures
            r@ == self@.status,
    {
        self.status.as_str()
    }

    /// The message text.
    pub fn get_message(&self) -> (r: &str)
        ensures
            r@ == self@.message,
    {
        self.message.as_str()
    }

    /// The data text.
    pub fn get_data(&self) -> (r: &str)
        ensures
            r@ == self@.data,
    {
        self.data.as_str()
    }

    /// This answer with its status replaced.
    pub fn status(self, status: &str) -> (r: Self)
        ensures
            r@ == (ResponseView { status: status@, ..self@ }),
    {
        Response { status: status.to_owned(), message: self.message, data: self.data }
    }

    /// This answer with its message replaced.
    pub fn message(self, message: &str) -> (r: Self)
        ensures
            r@ == (ResponseView { message: message@, ..self@ }),
    {
        Response { status: self.status, message: message.to_owned(), data: self.data }
    }

    /// This answer with its data replaced.
    pub fn data(self, data: &str) -> (r: Self)
        ensures
            r@ == (ResponseView { data: data@, ..self@ }),
    {
        Response { status: self.status, message: self.message, data: data.to_owned() }
    }

    /// A successful answer.
    pub fn ok(message: String, data: String) -> (r: Self)
        ensures
            r@ == ok_view(message@, data@),
    {
        Response { status: "OK".to_owned(), message, data }
    }

    /// A failed answer, with empty data.
    pub fn error(message: String) -> (r: Self)
        ensures
            r@ == error_view(message@),
    {
        Response { status: "KO".to_owned(), message, data: String::new() }
    }
}

impl Default for Response {
    /// The answer with three empty texts.
    fn default() -> (r: Self)
        ensures
            r@ == (ResponseView {
                status: Seq::empty(),
                message: Seq::empty(),
                data: Seq::empty(),
            }),
    {
        Response { status: String::new(), message: String::new(), data: String::new() }
    }
}

impl PartialEq for Response {
    fn eq(&self, other: &Self) -> (r: bool) {
        self.status == other.status && self.message == other.message && self.data == other.data
    }
}

impl vstd::std_specs::cmp::PartialEqSpecImpl for Response {
    open spec fn obeys_eq_spec() -> bool {
        true
    }

    open spec fn eq_spec(&self, other: &Self) -> bool {
        self@ == other@
    }
}

} // verus!
