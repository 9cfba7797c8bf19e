use vstd::prelude::*;

verus! {

/// A failure talking to the device API: the HTTP status, when the device
/// answered with one, and a description.
#[derive(Debug, Clone, PartialEq, Eq)]
pub struct RemoteError {
    pub status: Option<u16>,
    pub message: String,
}

/// The failures of a printer operation.
#[derive(Debug, Clone, PartialEq, Eq)]
pub enum PrinterError {
    /// A remote call failed.
    Remote(RemoteError),
    /// The printer was not ready for movement or heating commands.
    NotOperational,
}

/// Errors as they are sent back over HTTP.
#[derive(Debug, Clone, PartialEq, Eq)]
pub enum AnyhowHTTPError {
    InternalServerError500(String),
    Unauthorized401(String),
    Conflict409(String),
    AnyHTTPError { code: u16, message: String },
}

/// The description of a printer error.
pub open spec fn printer_error_text(e: PrinterError) -> Seq<char> {
    match e {
        PrinterError::Remote(r) => r.message@,
        PrinterError::NotOperational => "Printer not operational"@,
    }
}

/// The HTTP error for a remote failure: one with a status keeps it, one without
/// is a server error.
pub open spec fn remote_http_error(e: RemoteError) -> AnyhowHTTPError {
    match e.status {
        Some(code) => AnyhowHTTPError::AnyHTTPError { code, message: e.message },
        None => AnyhowHTTPError::InternalServerError500(e.message),
    }
}

/// The HTTP status a response for `e` carries.
pub open spec fn response_status(e: AnyhowHTTPError) -> u16 {
    match e {
        AnyhowHTTPError::InternalServerError500(_) => 500,
        AnyhowHTTPError::Unauthorized401(_) => 401,
        AnyhowHTTPError::Conflict409(_) => 409,
        AnyhowHTTPError::AnyHTTPError { code, .. } => code,
    }
}

/// The body a response for `e` carries.
pub open spec fn response_body(e: AnyhowHTTPError) -> Seq<char> {
    match e {
        AnyhowHTTPError::InternalServerError500(m) => m@,
        AnyhowHTTPError::Unauthorized401(m) => m@,
        AnyhowHTTPError::Conflict409(m) => m@,
        AnyhowHTTPError::AnyHTTPError { message, .. } => message@,
    }
}

impl PrinterError {
    /// The description of this error.
    pub fn message(&self) -> (r: String)
        ensures
            r@ == printer_error_text(*self),
    {
        match self {
            PrinterError::Remote(e) => e.message.clone(),
            PrinterError::NotOperational => "Printer not operational".to_owned(),
        }
    }

    /// The HTTP error for this failure: a remote failure keeps the device's status
    /// (a server error when there is none); a printer that is not operational is
    /// a server error.
    pub fn into_http_error(self) -> (r: AnyhowHTTPError)
        ensures
            self matches PrinterError::Remote(e) ==> r == remote_http_error(e),
            self is NotOperational ==> r is InternalServerError500 && response_body(r)
                == printer_error_text(self),
    {
        match self {
            PrinterError::Remote(e) => AnyhowHTTPError::from(e),
            PrinterError::NotOperational => AnyhowHTTPError::InternalServerError500(
                "Printer not operational".to_owned(),
            ),
        }
    }
}

impl AnyhowHTTPError {
    /// The HTTP status of the response for this error.
    pub fn status(&self) -> (r: u16)
        ensures
            r == response_status(*self),
    {
        match self {
            AnyhowHTTPError::InternalServerError500(_) => 500,
            AnyhowHTTPError::Unauthorized401(_) => 401,
            AnyhowHTTPError::Conflict409(_) => 409,
            AnyhowHTTPError::AnyHTTPError { code, .. } => *code,
        }
    }

    /// The body of the response for this error.
    pub fn body(&self) -> (r: String)
        ensures
            r@ == response_body(*self),
    {
        match self {
            AnyhowHTTPError::InternalServerError500(m) => m.clone(),
            AnyhowHTTPError::Unauthorized401(m) => m.clone(),
            AnyhowHTTPError::Conflict409(m) => m.clone(),
            AnyhowHTTPError::AnyHTTPError { message, .. } => message.clone(),
        }
    }
}

impl From<RemoteError> for AnyhowHTTPError {
    fn from(e: RemoteError) -> (r: AnyhowHTTPError) {
        match e.status {
            Some(code) => AnyhowHTTPError::AnyHTTPError { code, message: e.message },
            None => AnyhowHTTPError::InternalServerError500(e.message),
        }
    }
}

impl vstd::std_specs::convert::FromSpecImpl<RemoteError> for AnyhowHTTPError {
    open spec fn obeys_from_spec() -> bool {
        true
    }

    open spec fn from_spec(e: RemoteError) -> AnyhowHTTPError {
        remote_http_error(e)
    }
}

} // verus!
