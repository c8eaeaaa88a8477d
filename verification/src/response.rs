use vstd::prelude::*;

verus! {

/// The view of an optional string: its characters, if there is one.
pub open spec fn opt_chars(o: Option<String>) -> Option<Seq<char>> {
    match o {
        Some(s) => Some(s@),
        None => None,
    }
}

/// The answer of every capture, record and dialog command: a message when the
/// command succeeded, an error text when it did not.
#[derive(Clone, Debug)]
pub struct Response {
    pub response: Option<String>,
    pub error: Option<String>,
}

/// A response succeeded when it carries a message and no error.
pub open spec fn is_success(r: Response) -> bool {
    r.response is Some && r.error is None
}

/// The message that `Response::response` hands out.
pub open spec fn response_of(r: Response) -> Option<Seq<char>> {
    if is_success(r) {
        opt_chars(r.response)
    } else {
        None
    }
}

/// The error text that `Response::error` hands out.
pub open spec fn error_of(r: Response) -> Option<Seq<char>> {
    if !is_success(r) {
        opt_chars(r.error)
    } else {
        None
    }
}

fn clone_opt(o: &Option<String>) -> (c: Option<String>)
    ensures
        opt_chars(c) == opt_chars(*o),
{
    match o {
        Some(s) => Some(s.clone()),
        None => None,
    }
}

impl Response {
    /// Creates a response from a message and an error text.
    pub fn new(response: Option<String>, error: Option<String>) -> (r: Self)
        ensures
            r.response == response,
            r.error == error,
    {
        Response { response, error }
    }

    /// Whether the response carries a message and no error.
    pub fn success(&self) -> (b: bool)
        ensures
            b == is_success(*self),
    {
        self.response.is_some() && self.error.is_none()
    }

    /// Whether the response is not a success.
    pub fn failure(&self) -> (b: bool)
        ensures
            b == !is_success(*self),
    {
        !self.success()
    }

    /// The message, when the response is a success.
    pub fn response(&self) -> (m: Option<String>)
        ensures
            opt_chars(m) == response_of(*self),
    {
        if self.success() {
            clone_opt(&self.response)
        } else {
            None
        }
    }

    /// The error text, when the response is a failure that carries one.
    pub fn error(&self) -> (e: Option<String>)
        ensures
            opt_chars(e) == error_of(*self),
    {
        if self.failure() {
            clone_opt(&self.error)
        } else {
            None
        }
    }
}

/// A response hands out its message or its error text, never both; it hands
/// out its message exactly when it is a success.
pub proof fn law_message_or_error(r: Response)
    ensures
        !(response_of(r) is Some && error_of(r) is Some),
        response_of(r) is Some <==> is_success(r),
        error_of(r) is Some <==> (!is_success(r) && r.error is Some),
{
}

/// A response made with a message and no error is a success that hands out
/// that message; one made with an error is a failure that hands out that
/// error.
pub proof fn law_new_response(m: String, e: String, other: Option<String>)
    ensures
        is_success(Response { response: Some(m), error: None }),
        response_of(Response { response: Some(m), error: None }) == Some(m@),
        !is_success(Response { response: other, error: Some(e) }),
        error_of(Response { response: other, error: Some(e) }) == Some(e@),
{
}

} // verus!
