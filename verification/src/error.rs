//! Errors as a client of the service sees them.

use vstd::prelude::*;

verus! {

/// The HTTP status codes that the service answers with.
#[derive(Clone, Copy, Debug, PartialEq, Eq, Structural)]
pub enum StatusCode {
    Created,
    BadRequest,
    NotFound,
    Gone,
    LengthRequired,
    PayloadTooLarge,
    InternalServerError,
    BadGateway,
    ServiceUnavailable,
}

impl StatusCode {
    /// The number that stands for the code on the wire.
    pub open spec fn number(self) -> u16 {
        match self {
            StatusCode::Created => 201,
            StatusCode::BadRequest => 400,
            StatusCode::NotFound => 404,
            StatusCode::Gone => 410,
            StatusCode::LengthRequired => 411,
            StatusCode::PayloadTooLarge => 413,
            StatusCode::InternalServerError => 500,
            StatusCode::BadGateway => 502,
            StatusCode::ServiceUnavailable => 503,
        }
    }

    pub fn as_u16(self) -> (n: u16)
        ensures
            n == self.number(),
    {
        match self {
            StatusCode::Created => 201,
            StatusCode::BadRequest => 400,
            StatusCode::NotFound => 404,
            StatusCode::Gone => 410,
            StatusCode::LengthRequired => 411,
            StatusCode::PayloadTooLarge => 413,
            StatusCode::InternalServerError => 500,
            StatusCode::BadGateway => 502,
            StatusCode::ServiceUnavailable => 503,
        }
    }
}

/// What a request is answered with when it is not served.
#[derive(Debug)]
pub struct ApiError {
    pub status: StatusCode,
    pub message: String,
}

pub type ApiResult<T> = Result<T, ApiError>;

/// Whether a text is a database's own description of a failure.
pub open spec fn describes_failure(text: String) -> bool {
    exists|error: rusqlite::Error| #[trigger]
        vstd::string::to_string_from_display_ensures(&error, text)
}

/// What a database says of a failure.
pub fn describe(error: &rusqlite::Error) -> (text: String)
    ensures
        vstd::string::to_string_from_display_ensures(error, text),
        describes_failure(text),
{
    error.to_string()
}

/// How the message of every database failure begins.
pub const DATABASE_FAILED: &'static str = "database failed: ";

impl ApiError {
    /// Whether the error has this status and exactly this message.
    pub open spec fn says(self, status: StatusCode, message: Seq<char>) -> bool {
        self.status == status && self.message@ == message
    }

    /// Whether the error reports this refusal.
    pub open spec fn reports(self, refusal: Option<(StatusCode, Seq<char>)>) -> bool {
        match refusal {
            Some((status, message)) => self.says(status, message),
            None => false,
        }
    }

    /// Whether the error reports a failure of the database, as the database
    /// describes it.
    pub open spec fn of_database(self) -> bool {
        exists|text: String| #[trigger]
            describes_failure(text) && self.says(
                StatusCode::InternalServerError,
                DATABASE_FAILED@ + text@,
            )
    }

    pub fn new(status: StatusCode, message: &str) -> (e: Self)
        ensures
            e.says(status, message@),
    {
        ApiError { status, message: message.to_string() }
    }

    /// The error for a failure that the database reports, with its description.
    pub fn db(err: rusqlite::Error) -> (e: Self)
        ensures
            e.of_database(),
            exists|text: String| #[trigger]
                vstd::string::to_string_from_display_ensures(&err, text) && e.says(
                    StatusCode::InternalServerError,
                    DATABASE_FAILED@ + text@,
                ),
    {
        let text = describe(&err);
        let mut message = DATABASE_FAILED.to_string();
        message.append(text.as_str());
        ApiError { status: StatusCode::InternalServerError, message }
    }

    /// The error for a step towards the object store (`stage`) that failed, as
    /// the store's client describes it.
    pub fn object_store(stage: &str, text: &str) -> (e: Self)
        ensures
            e.says(StatusCode::BadGateway, "r2 "@ + stage@ + " failed: "@ + text@),
    {
        let mut message = "r2 ".to_string();
        message.append(stage);
        message.append(" failed: ");
        message.append(text);
        ApiError { status: StatusCode::BadGateway, message }
    }

    /// The reply to a request that is not served: the message on a line of its own.
    pub fn into_response(self) -> (reply: Reply)
        ensures
            reply.status == self.status,
            reply.body@ == self.message@ + "\n"@,
    {
        let mut body = self.message;
        body.append("\n");
        Reply { status: self.status, body }
    }
}

/// What a request is answered with: a status and a text.
#[derive(Debug)]
pub struct Reply {
    pub status: StatusCode,
    pub body: String,
}

} // verus!
