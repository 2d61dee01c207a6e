//! The answers the proxy gives to its own callers.

use vstd::prelude::*;

verus! {

/// The status codes the proxy answers with.
#[derive(Debug, Clone, Copy, PartialEq, Eq, Structural)]
pub enum Status {
    /// 200
    Success,
    /// 202
    Accepted,
    /// 404
    NotFound,
    /// 500
    InternalServerError,
    /// 502
    BadGateway,
}

impl Status {
    /// The number of the status code.
    pub open spec fn spec_code(self) -> u16 {
        match self {
            Status::Success => 200,
            Status::Accepted => 202,
            Status::NotFound => 404,
            Status::InternalServerError => 500,
            Status::BadGateway => 502,
        }
    }

    /// The number of the status code.
    #[verifier::when_used_as_spec(spec_code)]
    pub fn code(self) -> (code: u16)
        ensures
            code == self.spec_code(),
    {
        match self {
            Status::Success => 200,
            Status::Accepted => 202,
            Status::NotFound => 404,
            Status::InternalServerError => 500,
            Status::BadGateway => 502,
        }
    }
}

/// An answer with a plain-text body.
#[derive(Debug, Clone, PartialEq, Eq)]
pub struct TextReply {
    pub status: Status,
    pub body: String,
}

/// A plain-text answer as a mathematical value.
pub struct TextReplyView {
    pub status: Status,
    pub body: Seq<char>,
}

impl View for TextReply {
    type V = TextReplyView;

    open spec fn view(&self) -> TextReplyView {
        TextReplyView { status: self.status, body: self.body@ }
    }
}

/// The record that the auxiliary endpoints answer with. On the wire it is
/// the JSON object with the members `data` and `code`, in this order.
#[derive(Debug, Clone, PartialEq, Eq)]
pub struct ApiResponse {
    pub data: String,
    pub code: u16,
}

/// An answer whose body is an [`ApiResponse`].
#[derive(Debug, Clone, PartialEq, Eq)]
pub struct ApiReply {
    pub status: Status,
    pub body: ApiResponse,
}

/// An [`ApiReply`] as a mathematical value.
pub struct ApiReplyView {
    pub status: Status,
    pub data: Seq<char>,
    pub code: u16,
}

impl View for ApiReply {
    type V = ApiReplyView;

    open spec fn view(&self) -> ApiReplyView {
        ApiReplyView { status: self.status, data: self.body.data@, code: self.body.code }
    }
}

} // verus!
