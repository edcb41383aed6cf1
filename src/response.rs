//! Status codes and the uniform response envelope.
use vstd::prelude::*;

use crate::model::TodoView;
use crate::todo::Todo;

verus! {

/// The HTTP statuses the handlers answer with.
#[derive(Clone, Copy, Debug, PartialEq, Eq, Structural)]
pub enum Status {
    Success,
    Created,
    BadRequest,
    InternalServerError,
}

impl Status {
    /// The numeric HTTP code of the status.
    pub open spec fn spec_code(self) -> u16 {
        match self {
            Status::Success => 200,
            Status::Created => 201,
            Status::BadRequest => 400,
            Status::InternalServerError => 500,
        }
    }

    /// The numeric HTTP code of the status.
    pub fn code(&self) -> (r: u16)
        ensures
            r == self.spec_code(),
    {
        match self {
            Status::Success => 200,
            Status::Created => 201,
            Status::BadRequest => 400,
            Status::InternalServerError => 500,
        }
    }
}

/// The envelope every response carries: on success the item, on failure the
/// error text.
#[derive(Clone, Debug)]
pub struct Response {
    pub success: bool,
    pub todo: Option<Todo>,
    pub error: Option<String>,
}

/// The abstract value of an envelope.
pub struct EnvelopeView {
    pub success: bool,
    pub todo: Option<TodoView>,
    pub error: Option<Seq<char>>,
}

impl View for Response {
    type V = EnvelopeView;

    open spec fn view(&self) -> EnvelopeView {
        EnvelopeView {
            success: self.success,
            todo: match self.todo {
                Some(t) => Some(t@),
                None => None,
            },
            error: match self.error {
                Some(e) => Some(e@),
                None => None,
            },
        }
    }
}

/// A successful envelope carrying `t`.
pub open spec fn success_view(t: TodoView) -> EnvelopeView {
    EnvelopeView { success: true, todo: Some(t), error: None }
}

/// A failed envelope carrying the error text `e`.
pub open spec fn failure_view(e: Seq<char>) -> EnvelopeView {
    EnvelopeView { success: false, todo: None, error: Some(e) }
}

/// What a handler returns: a status, and the envelope as `Ok` on success or
/// as `Err` on failure.
pub type Reply = (Status, Result<Response, Response>);

/// The abstract value of a reply.
pub type ReplyView = (Status, Result<EnvelopeView, EnvelopeView>);

/// A successful reply with status `status` carrying `t`.
pub open spec fn ok_reply(status: Status, t: TodoView) -> ReplyView {
    (status, Ok(success_view(t)))
}

/// A failed reply with status `status` carrying the error text `e`.
pub open spec fn err_reply(status: Status, e: Seq<char>) -> ReplyView {
    (status, Err(failure_view(e)))
}

/// The abstract value of a reply.
pub open spec fn reply_view(r: Reply) -> ReplyView {
    (
        r.0,
        match r.1 {
            Ok(e) => Ok(e@),
            Err(e) => Err(e@),
        },
    )
}

impl Response {
    /// A successful envelope carrying `todo`.
    pub fn success(todo: Todo) -> (r: Response)
        ensures
            r@ == success_view(todo@),
    {
        Response { success: true, todo: Some(todo), error: None }
    }

    /// A failed envelope carrying `error`.
    pub fn failure(error: String) -> (r: Response)
        ensures
            r@ == failure_view(error@),
    {
        Response { success: false, todo: None, error: Some(error) }
    }
}

} // verus!
