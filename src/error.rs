use vstd::prelude::*;

verus! {

/// The single error type that every operation of the library fails with.
#[derive(Debug, Clone)]
pub enum Error {
    /// The HTTP transport failed (connection, I/O); holds the transport's message.
    TransportFailure(String),
    /// A success response body did not decode as the expected payload; holds the decoder's message.
    DecodeFailure(String),
    /// The service rejected the request as malformed; holds the service's message.
    InvalidRequest(String),
    InvalidAccessToken,
    InvalidNonce,
    OperationNotAllowed,
    DeviceNotFound,
    UserNotFound,
    UserHasNoPasskeys,
    /// The service failed, or it reported more than one user for one external id.
    InternalServerError,
    /// A failure with no recognised structured code; holds the raw response body.
    Other(String),
}

/// The mathematical model of an [`Error`]: the same kind, with text as `Seq<char>`.
pub enum ErrorKind {
    TransportFailure(Seq<char>),
    DecodeFailure(Seq<char>),
    InvalidRequest(Seq<char>),
    InvalidAccessToken,
    InvalidNonce,
    OperationNotAllowed,
    DeviceNotFound,
    UserNotFound,
    UserHasNoPasskeys,
    InternalServerError,
    Other(Seq<char>),
}

impl View for Error {
    type V = ErrorKind;

    open spec fn view(&self) -> ErrorKind {
        match self {
            Error::TransportFailure(m) => ErrorKind::TransportFailure(m@),
            Error::DecodeFailure(m) => ErrorKind::DecodeFailure(m@),
            Error::InvalidRequest(m) => ErrorKind::InvalidRequest(m@),
            Error::InvalidAccessToken => ErrorKind::InvalidAccessToken,
            Error::InvalidNonce => ErrorKind::InvalidNonce,
            Error::OperationNotAllowed => ErrorKind::OperationNotAllowed,
            Error::DeviceNotFound => ErrorKind::DeviceNotFound,
            Error::UserNotFound => ErrorKind::UserNotFound,
            Error::UserHasNoPasskeys => ErrorKind::UserHasNoPasskeys,
            Error::InternalServerError => ErrorKind::InternalServerError,
            Error::Other(m) => ErrorKind::Other(m@),
        }
    }
}

/// The machine-readable `code` values of the service's structured error documents
/// that the taxonomy recognises.
#[derive(Debug, Clone, Copy, PartialEq, Eq, Structural)]
pub enum ErrorCode {
    InvalidRequest,
    InvalidAccessToken,
    InvalidNonce,
    OperationNotAllowed,
    DeviceNotFound,
    UserNotFound,
    UserHasNoPasskeys,
    InternalServerError,
}

impl ErrorCode {
    /// The text by which the service writes this code.
    pub open spec fn text(self) -> Seq<char> {
        match self {
            ErrorCode::InvalidRequest => "invalid_request"@,
            ErrorCode::InvalidAccessToken => "invalid_access_token"@,
            ErrorCode::InvalidNonce => "invalid_nonce"@,
            ErrorCode::OperationNotAllowed => "operation_not_allowed"@,
            ErrorCode::DeviceNotFound => "device_not_found"@,
            ErrorCode::UserNotFound => "user_not_found"@,
            ErrorCode::UserHasNoPasskeys => "user_has_no_passkeys"@,
            ErrorCode::InternalServerError => "internal_server_error"@,
        }
    }

    /// The code written as `s`, if `s` is one that the taxonomy recognises.
    pub open spec fn from_text(s: Seq<char>) -> Option<ErrorCode> {
        if s == "invalid_request"@ {
            Some(ErrorCode::InvalidRequest)
        } else if s == "invalid_access_token"@ {
            Some(ErrorCode::InvalidAccessToken)
        } else if s == "invalid_nonce"@ {
            Some(ErrorCode::InvalidNonce)
        } else if s == "operation_not_allowed"@ {
            Some(ErrorCode::OperationNotAllowed)
        } else if s == "device_not_found"@ {
            Some(ErrorCode::DeviceNotFound)
        } else if s == "user_not_found"@ {
            Some(ErrorCode::UserNotFound)
        } else if s == "user_has_no_passkeys"@ {
            Some(ErrorCode::UserHasNoPasskeys)
        } else if s == "internal_server_error"@ {
            Some(ErrorCode::InternalServerError)
        } else {
            None
        }
    }

    /// The error kind that this code stands for; `message` is the document's `error` text.
    pub open spec fn kind(self, message: Seq<char>) -> ErrorKind {
        match self {
            ErrorCode::InvalidRequest => ErrorKind::InvalidRequest(message),
            ErrorCode::InvalidAccessToken => ErrorKind::InvalidAccessToken,
            ErrorCode::InvalidNonce => ErrorKind::InvalidNonce,
            ErrorCode::OperationNotAllowed => ErrorKind::OperationNotAllowed,
            ErrorCode::DeviceNotFound => ErrorKind::DeviceNotFound,
            ErrorCode::UserNotFound => ErrorKind::UserNotFound,
            ErrorCode::UserHasNoPasskeys => ErrorKind::UserHasNoPasskeys,
            ErrorCode::InternalServerError => ErrorKind::InternalServerError,
        }
    }

    /// Reads a code from its text; `None` when the text is not a recognised code.
    pub fn parse(code: &String) -> (r: Option<ErrorCode>)
        ensures
            r == ErrorCode::from_text(code@),
    {
        if *code == String::from_str("invalid_request") {
            Some(ErrorCode::InvalidRequest)
        } else if *code == String::from_str("invalid_access_token") {
            Some(ErrorCode::InvalidAccessToken)
        } else if *code == String::from_str("invalid_nonce") {
            Some(ErrorCode::InvalidNonce)
        } else if *code == String::from_str("operation_not_allowed") {
            Some(ErrorCode::OperationNotAllowed)
        } else if *code == String::from_str("device_not_found") {
            Some(ErrorCode::DeviceNotFound)
        } else if *code == String::from_str("user_not_found") {
            Some(ErrorCode::UserNotFound)
        } else if *code == String::from_str("user_has_no_passkeys") {
            Some(ErrorCode::UserHasNoPasskeys)
        } else if *code == String::from_str("internal_server_error") {
            Some(ErrorCode::InternalServerError)
        } else {
            None
        }
    }
}

/// A structured error body of the service: `{"error": <message>, "code": <code>}`.
#[derive(Debug, Clone)]
pub struct ErrorDocument {
    pub error: String,
    pub code: String,
}

/// The kind that a failed response classifies as. `content` is the raw body;
/// `document` is that body read as a structured error document, `None` when it
/// is not one.
pub open spec fn classification(content: Seq<char>, document: Option<ErrorDocument>) -> ErrorKind {
    match document {
        Some(d) => match ErrorCode::from_text(d.code@) {
            Some(c) => c.kind(d.error@),
            None => ErrorKind::Other(content),
        },
        None => ErrorKind::Other(content),
    }
}

/// Folds a failed response into the unified taxonomy: a recognised `code` gives
/// its own kind; an unrecognised code, or a body that is no structured document,
/// gives `Other` holding the raw body.
pub fn classify(content: String, document: Option<ErrorDocument>) -> (r: Error)
    ensures
        r@ == classification(content@, document),
{
    match document {
        Some(d) => match ErrorCode::parse(&d.code) {
            Some(ErrorCode::InvalidRequest) => Error::InvalidRequest(d.error),
            Some(ErrorCode::InvalidAccessToken) => Error::InvalidAccessToken,
            Some(ErrorCode::InvalidNonce) => Error::InvalidNonce,
            Some(ErrorCode::OperationNotAllowed) => Error::OperationNotAllowed,
            Some(ErrorCode::DeviceNotFound) => Error::DeviceNotFound,
            Some(ErrorCode::UserNotFound) => Error::UserNotFound,
            Some(ErrorCode::UserHasNoPasskeys) => Error::UserHasNoPasskeys,
            Some(ErrorCode::InternalServerError) => Error::InternalServerError,
            None => Error::Other(content),
        },
        None => Error::Other(content),
    }
}

/// Each recognised code is read back from its own text.
pub proof fn lemma_code_text_round_trip(c: ErrorCode)
    ensures
        ErrorCode::from_text(c.text()) == Some(c),
{
    reveal_strlit("invalid_request");
    reveal_strlit("invalid_access_token");
    reveal_strlit("invalid_nonce");
    reveal_strlit("operation_not_allowed");
    reveal_strlit("device_not_found");
    reveal_strlit("user_not_found");
    reveal_strlit("user_has_no_passkeys");
    reveal_strlit("internal_server_error");
    assert("invalid_request"@.len() == 15);
    assert("invalid_access_token"@.len() == 20);
    assert("invalid_nonce"@.len() == 13);
    assert("operation_not_allowed"@.len() == 21);
    assert("device_not_found"@.len() == 16);
    assert("user_not_found"@.len() == 14);
    assert("user_has_no_passkeys"@.len() == 20);
    assert("internal_server_error"@.len() == 21);
    assert("user_has_no_passkeys"@[0] != "invalid_access_token"@[0]);
    assert("internal_server_error"@[0] != "operation_not_allowed"@[0]);
}

/// Classification is total: a document whose code is a recognised one classifies
/// as that code's kind, whatever the raw body; a document with any other code, or
/// a body that is no structured document, classifies as `Other` holding the raw
/// body unchanged.
pub proof fn lemma_classification_total(content: Seq<char>, document: Option<ErrorDocument>)
    ensures
        forall|c: ErrorCode|
            #![trigger c.text()]
            document is Some && document->Some_0.code@ == c.text() ==> classification(
                content,
                document,
            ) == c.kind(document->Some_0.error@),
        document is Some && ErrorCode::from_text(document->Some_0.code@) is None
            ==> classification(content, document) == ErrorKind::Other(content),
        document is None ==> classification(content, document) == ErrorKind::Other(content),
{
    assert forall|c: ErrorCode|
        #![trigger c.text()]
        document is Some && document->Some_0.code@ == c.text() implies classification(
            content,
            document,
        ) == c.kind(document->Some_0.error@) by {
        lemma_code_text_round_trip(c);
    }
}

impl ErrorKind {
    /// The module that reports an error of this kind.
    pub open spec fn module(self) -> Seq<char> {
        match self {
            ErrorKind::TransportFailure(_) => "transport"@,
            ErrorKind::DecodeFailure(_) => "decode"@,
            _ => "response"@,
        }
    }

    /// What went wrong, in words.
    pub open spec fn detail(self) -> Seq<char> {
        match self {
            ErrorKind::TransportFailure(m) => m,
            ErrorKind::DecodeFailure(m) => m,
            ErrorKind::InvalidRequest(m) => "invalid request: "@ + m,
            ErrorKind::InvalidAccessToken => "invalid access token"@,
            ErrorKind::InvalidNonce => "invalid nonce"@,
            ErrorKind::OperationNotAllowed => "operation not allowed"@,
            ErrorKind::DeviceNotFound => "device not found"@,
            ErrorKind::UserNotFound => "user not found"@,
            ErrorKind::UserHasNoPasskeys => "user has no passkeys"@,
            ErrorKind::InternalServerError => "internal server error"@,
            ErrorKind::Other(m) => m,
        }
    }

    /// The full message: `error in <module>: <detail>`.
    pub open spec fn message(self) -> Seq<char> {
        "error in "@ + self.module() + ": "@ + self.detail()
    }
}

impl Error {
    /// The error as a line of text for a log or a user: `error in <module>: <detail>`.
    pub fn message(&self) -> (r: String)
        ensures
            r@ == self@.message(),
    {
        let module = match self {
            Error::TransportFailure(_) => "transport",
            Error::DecodeFailure(_) => "decode",
            _ => "response",
        };
        let mut detail = match self {
            Error::TransportFailure(m) => m.clone(),
            Error::DecodeFailure(m) => m.clone(),
            Error::InvalidRequest(m) => String::from_str("invalid request: ").concat(m.as_str()),
            Error::InvalidAccessToken => String::from_str("invalid access token"),
            Error::InvalidNonce => String::from_str("invalid nonce"),
            Error::OperationNotAllowed => String::from_str("operation not allowed"),
            Error::DeviceNotFound => String::from_str("device not found"),
            Error::UserNotFound => String::from_str("user not found"),
            Error::UserHasNoPasskeys => String::from_str("user has no passkeys"),
            Error::InternalServerError => String::from_str("internal server error"),
            Error::Other(m) => m.clone(),
        };
        let mut r = String::from_str("error in ");
        r.append(module);
        r.append(": ");
        r.append(detail.as_str());
        r
    }
}

} // verus!
