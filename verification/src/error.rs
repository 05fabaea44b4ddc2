//! The errors that an exchange with the API can end in.

use vstd::prelude::*;
use crate::codec::{field, get_field, is_object, FromJson};
use crate::http::{Response, ResponseModel};
use crate::json::{json_read, read_value, value_model, Json};
use crate::text::{decimal, push_decimal};

verus! {

/// Why the body of a response is not the document that was expected.
#[derive(Debug, Clone, Copy, PartialEq, Eq)]
pub enum Malformed {
    /// The body is not JSON text.
    NotJson,
    /// The body is JSON text, but the document does not have the shape that
    /// was expected.
    WrongShape,
    /// There is no body to read: the response has status 204, which an
    /// operation that always answers with a document does not send.
    NoContent,
}

/// Represents errors that can occur while interacting with the API.
#[derive(Debug, Clone, PartialEq, Eq)]
pub enum Error {
    /// The API answered with a client or server error status and described
    /// the error in the body.
    Api {
        /// The HTTP status code, as the body gives it.
        code: u16,
        /// A message describing the error.
        error: String,
    },
    /// The request data could not be written as JSON.
    RequestJson,
    /// The body of a response is not the JSON document that was expected,
    /// whatever its status.
    ResponseJson(Malformed),
    /// The exchange failed below HTTP: no connection, a timeout, a TLS
    /// failure. The text is the transport's own description.
    Http(String),
    /// The token that was attempted to be used for authentication is invalid.
    InvalidToken,
    /// Tried to access a service that requires authentication.
    NotAuthenticated,
}

/// The mathematical value of an [`Error`].
pub enum ErrorModel {
    Api { code: u16, error: Seq<char> },
    RequestJson,
    ResponseJson(Malformed),
    Http(Seq<char>),
    InvalidToken,
    NotAuthenticated,
}

impl DeepView for Error {
    type V = ErrorModel;

    open spec fn deep_view(&self) -> ErrorModel {
        match self {
            Error::Api { code, error } => ErrorModel::Api { code: *code, error: error.deep_view() },
            Error::RequestJson => ErrorModel::RequestJson,
            Error::ResponseJson(why) => ErrorModel::ResponseJson(*why),
            Error::Http(cause) => ErrorModel::Http(cause.deep_view()),
            Error::InvalidToken => ErrorModel::InvalidToken,
            Error::NotAuthenticated => ErrorModel::NotAuthenticated,
        }
    }
}

impl ErrorModel {
    /// The text that describes the error to a reader.
    pub open spec fn message(self) -> Seq<char> {
        match self {
            ErrorModel::Api { code, error } => "API error ("@ + decimal(code as int) + "): "@
                + error,
            ErrorModel::RequestJson => "could not convert request data into JSON"@,
            ErrorModel::ResponseJson(_) => "could not convert response data from JSON"@,
            ErrorModel::Http(_) => "HTTP error"@,
            ErrorModel::InvalidToken => "invalid authentication token"@,
            ErrorModel::NotAuthenticated => "not authenticated"@,
        }
    }
}

/// The body that the API sends with a client or server error status.
#[derive(Debug, Clone, PartialEq, Eq)]
pub struct ApiError {
    pub code: u16,
    pub error: String,
}

/// The mathematical value of an [`ApiError`].
pub struct ApiErrorModel {
    pub code: u16,
    pub error: Seq<char>,
}

impl DeepView for ApiError {
    type V = ApiErrorModel;

    open spec fn deep_view(&self) -> ApiErrorModel {
        ApiErrorModel { code: self.code, error: self.error.deep_view() }
    }
}

impl FromJson for ApiError {
    open spec fn decoded(j: Json) -> Option<ApiErrorModel> {
        if j is Object && field::<u16>(j, "code"@) is Some && field::<String>(j, "error"@) is Some {
            Some(
                ApiErrorModel {
                    code: field::<u16>(j, "code"@)->0,
                    error: field::<String>(j, "error"@)->0,
                },
            )
        } else {
            None
        }
    }

    fn from_json(v: &serde_json::Value) -> (r: Option<ApiError>) {
        if !is_object(v) {
            return None;
        }
        let code = get_field::<u16>(v, "code")?;
        let error = get_field::<String>(v, "error")?;
        Some(ApiError { code, error })
    }
}

/// What a JSON text denotes as a `T`, or why it denotes none: the text is
/// not JSON, or the document does not have the shape that `T` asks for.
pub open spec fn document<T: FromJson>(text: Seq<char>) -> Result<T::V, Malformed> {
    match json_read(text) {
        Some(j) => shaped::<T>(T::decoded(j)),
        None => Err(Malformed::NotJson),
    }
}

/// What a document denotes as a `T`, where `found` is what the shape of the
/// document gives.
pub open spec fn shaped<T: FromJson>(found: Option<T::V>) -> Result<T::V, Malformed> {
    match found {
        Some(m) => Ok(m),
        None => Err(Malformed::WrongShape),
    }
}

/// The mathematical value of what reading a body gave.
pub open spec fn read_model<T: DeepView>(r: Result<T, Malformed>) -> Result<T::V, Malformed> {
    match r {
        Ok(t) => Ok(t.deep_view()),
        Err(why) => Err(why),
    }
}

/// Reads a `T` from a JSON text.
pub fn read_document<T: FromJson>(text: &str) -> (r: Result<T, Malformed>)
    ensures
        read_model(r) == document::<T>(text@),
{
    match read_value(text) {
        Some(v) => match T::from_json(&v) {
            Some(t) => Ok(t),
            None => Err(Malformed::WrongShape),
        },
        None => Err(Malformed::NotJson),
    }
}

/// Whether a status code is a client error (400 to 499) or a server error
/// (500 to 599).
pub open spec fn is_error_status(status: u16) -> bool {
    400 <= status <= 599
}

/// The error that a response with an error status stands for: the API's own
/// description where the body holds one, and a malformed response where it
/// does not. A response with any other status stands for no error.
pub open spec fn error_of(response: ResponseModel) -> Option<ErrorModel> {
    if is_error_status(response.status) {
        match document::<ApiError>(response.body) {
            Ok(e) => Some(ErrorModel::Api { code: e.code, error: e.error }),
            Err(why) => Some(ErrorModel::ResponseJson(why)),
        }
    } else {
        None
    }
}

impl Error {
    /// If the response is a client or server error (status 400 to 599), reads
    /// the error that its body describes. Any other response passes.
    pub fn try_from_error_response(response: &Response) -> (r: Result<(), Error>)
        ensures
            match r {
                Ok(_) => error_of(response.deep_view()) is None,
                Err(e) => error_of(response.deep_view()) == Some(e.deep_view()),
            },
    {
        if 400 <= response.status && response.status <= 599 {
            match read_document::<ApiError>(response.body.as_str()) {
                Ok(api_error) => Err(Error::from_api_error(api_error)),
                Err(why) => Err(Error::ResponseJson(why)),
            }
        } else {
            Ok(())
        }
    }

    /// The error that an error body of the API stands for.
    pub fn from_api_error(api_error: ApiError) -> (r: Error)
        ensures
            r.deep_view() == (ErrorModel::Api {
                code: api_error.code,
                error: api_error.error.deep_view(),
            }),
    {
        Error::Api { code: api_error.code, error: api_error.error }
    }

    /// The text that describes the error to a reader.
    pub fn to_string(&self) -> (r: String)
        ensures
            r@ == self.deep_view().message(),
    {
        match self {
            Error::Api { code, error } => {
                let mut out = "API error (".to_owned();
                push_decimal(&mut out, *code as u64);
                out.append("): ");
                out.append(error.as_str());
                out
            },
            Error::RequestJson => "could not convert request data into JSON".to_owned(),
            Error::ResponseJson(_) => "could not convert response data from JSON".to_owned(),
            Error::Http(_) => "HTTP error".to_owned(),
            Error::InvalidToken => "invalid authentication token".to_owned(),
            Error::NotAuthenticated => "not authenticated".to_owned(),
        }
    }
}

} // verus!
