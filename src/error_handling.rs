//! An error of the HTTP surface and the body it answers with.
use crate::json::text_view;
use vstd::prelude::*;
use vstd::string::StringExecFns;

verus! {

/// The status an error answers with unless told otherwise.
pub const INTERNAL_SERVER_ERROR: u16 = 500;

/// An error with a message for the log, an optional message for the user, and
/// the HTTP status code it answers with.
pub struct AppError {
    code: u16,
    internal_message: String,
    user_message: Option<String>,
}

/// The JSON body sent back for an error.
pub struct ErrorResponse {
    pub user_message: String,
    pub error_id: String,
}

/// What answering an error gives: the status, the body, and the line logged.
pub struct ErrorReply {
    pub code: u16,
    pub body: ErrorResponse,
    pub log_line: String,
}

impl AppError {
    /// A status code is three digits, as HTTP has it.
    #[verifier::type_invariant]
    spec fn inv(&self) -> bool {
        100 <= self.code <= 999
    }

    pub closed spec fn code(&self) -> u16 {
        self.code
    }

    pub closed spec fn internal_message(&self) -> Seq<char> {
        self.internal_message@
    }

    pub closed spec fn user_message(&self) -> Option<Seq<char>> {
        text_view(self.user_message)
    }

    /// An internal server error with this message and no message for the user.
    pub fn new(internal_message: String) -> (r: AppError)
        ensures
            r.code() == INTERNAL_SERVER_ERROR,
            r.internal_message() == internal_message@,
            r.user_message() is None,
    {
        AppError { code: INTERNAL_SERVER_ERROR, internal_message, user_message: None }
    }

    /// The same error, with a message for the user.
    pub fn with_user_message(self, user_message: String) -> (r: AppError)
        ensures
            r.code() == self.code(),
            r.internal_message() == self.internal_message(),
            r.user_message() == Some(user_message@),
    {
        proof {
            use_type_invariant(&self);
        }
        AppError { user_message: Some(user_message), ..self }
    }

    /// The same error, answering with another status code.
    pub fn with_code(self, code: u16) -> (r: AppError)
        requires
            100 <= code <= 999,
        ensures
            r.code() == code,
            r.internal_message() == self.internal_message(),
            r.user_message() == self.user_message(),
    {
        AppError { code, ..self }
    }

    /// The answer under the id `error_id`: the body holds the user's message
    /// (`Server error` where there is none) and the id; the logged line is
    /// `<id>. AppError: Error id: <id>. Message: <internal message>`.
    pub fn reply(self, error_id: String) -> (r: ErrorReply)
        ensures
            r.code == self.code(),
            100 <= r.code <= 999,
            r.body.error_id@ == error_id@,
            r.body.user_message@ == match self.user_message() {
                Some(m) => m,
                None => "Server error"@,
            },
            r.log_line@ == error_id@ + ". AppError: Error id: "@ + error_id@ + ". Message: "@
                + self.internal_message(),
    {
        proof {
            use_type_invariant(&self);
        }
        let log_line = error_id.clone().concat(". AppError: Error id: ").concat(
            error_id.as_str(),
        ).concat(". Message: ").concat(self.internal_message.as_str());
        let user_message = match self.user_message {
            Some(m) => m,
            None => String::from_str("Server error"),
        };
        ErrorReply {
            code: self.code,
            body: ErrorResponse { user_message, error_id },
            log_line,
        }
    }
}

impl From<String> for AppError {
    fn from(err: String) -> (r: AppError)
        ensures
            r.code() == INTERNAL_SERVER_ERROR,
            r.internal_message() == err@,
            r.user_message() is None,
    {
        AppError { code: INTERNAL_SERVER_ERROR, internal_message: err, user_message: None }
    }
}

impl vstd::std_specs::convert::FromSpecImpl<String> for AppError {
    open spec fn obeys_from_spec() -> bool {
        true
    }

    closed spec fn from_spec(v: String) -> AppError {
        AppError { code: INTERNAL_SERVER_ERROR, internal_message: v, user_message: None }
    }
}

impl From<&str> for AppError {
    fn from(err: &str) -> (r: AppError)
        ensures
            r.code() == INTERNAL_SERVER_ERROR,
            r.internal_message() == err@,
            r.user_message() is None,
    {
        AppError::new(err.to_owned())
    }
}

impl vstd::std_specs::convert::FromSpecImpl<&str> for AppError {
    open spec fn obeys_from_spec() -> bool {
        false
    }

    open spec fn from_spec(v: &str) -> AppError {
        arbitrary()
    }
}

} // verus!
