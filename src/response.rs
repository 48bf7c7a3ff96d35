//! Turning an HTTP status code and a response body into a typed result.
use vstd::prelude::*;
use crate::error::OSSError;

verus! {

pub const OK: u16 = 200;
pub const CREATED: u16 = 201;
pub const ACCEPTED: u16 = 202;
pub const NON_AUTHORITATIVE_INFORMATION: u16 = 203;
pub const NO_CONTENT: u16 = 204;
pub const RESET_CONTENT: u16 = 205;
pub const PARTIAL_CONTENT: u16 = 206;
pub const MULTI_STATUS: u16 = 207;
pub const ALREADY_REPORTED: u16 = 208;
pub const BAD_REQUEST: u16 = 400;
pub const FORBIDDEN: u16 = 403;
pub const CONFLICT: u16 = 409;

/// The statuses on which the body, if any, is the requested value.
pub open spec fn is_success_status(code: u16) -> bool {
    code == OK || code == CREATED || code == ACCEPTED || code == NON_AUTHORITATIVE_INFORMATION
        || code == NO_CONTENT || code == RESET_CONTENT || code == PARTIAL_CONTENT
        || code == MULTI_STATUS || code == ALREADY_REPORTED
}

/// The statuses on which the body is an error document from the service.
pub open spec fn is_service_error_status(code: u16) -> bool {
    code == BAD_REQUEST || code == FORBIDDEN || code == CONFLICT
}

/// Which of the three ways a response is read.
#[derive(PartialEq, Eq, Structural, Clone, Copy, Debug)]
pub enum StatusClass {
    Success,
    ServiceError,
    Unrecognized,
}

pub open spec fn status_class(code: u16) -> StatusClass {
    if is_success_status(code) {
        StatusClass::Success
    } else if is_service_error_status(code) {
        StatusClass::ServiceError
    } else {
        StatusClass::Unrecognized
    }
}

/// Sorts a status code into one of the two known groups, or neither.
pub fn classify_status(code: u16) -> (r: StatusClass)
    ensures
        r == status_class(code),
{
    if code == OK || code == CREATED || code == ACCEPTED || code == NON_AUTHORITATIVE_INFORMATION
        || code == NO_CONTENT || code == RESET_CONTENT || code == PARTIAL_CONTENT
        || code == MULTI_STATUS || code == ALREADY_REPORTED {
        StatusClass::Success
    } else if code == BAD_REQUEST || code == FORBIDDEN || code == CONFLICT {
        StatusClass::ServiceError
    } else {
        StatusClass::Unrecognized
    }
}

/// The error document a service sends with a rejected request; only its
/// message is used.
#[derive(Debug)]
pub struct ErrorResponse {
    pub message: String,
}

/// What a parsed success body becomes.
pub open spec fn success_result<T>(parsed: Result<T, serde_xml_rs::Error>) -> Result<T, OSSError> {
    match parsed {
        Ok(v) => Ok(v),
        Err(e) => Err(OSSError::XmlParse(e)),
    }
}

/// What a parsed error document becomes, for a response with status `status`.
pub open spec fn service_error_result<T>(
    status: u16,
    parsed: Result<ErrorResponse, serde_xml_rs::Error>,
) -> Result<T, OSSError> {
    match parsed {
        Ok(er) => Err(OSSError::Object { status_code: status, message: er.message }),
        Err(e) => Err(OSSError::XmlParse(e)),
    }
}

/// The result of a success response whose body was read as XML.
pub fn success_response<T>(parsed: Result<T, serde_xml_rs::Error>) -> (r: Result<T, OSSError>)
    ensures
        r == success_result(parsed),
{
    match parsed {
        Ok(v) => Ok(v),
        Err(e) => Err(OSSError::from(e)),
    }
}

/// The result of a rejected request whose error document was read as XML:
/// the status is kept as given and the message as parsed.
pub fn service_error_response<T>(
    status: u16,
    parsed: Result<ErrorResponse, serde_xml_rs::Error>,
) -> (r: Result<T, OSSError>)
    ensures
        r == service_error_result::<T>(status, parsed),
{
    match parsed {
        Ok(er) => Err(OSSError::Object { status_code: status, message: er.message }),
        Err(e) => Err(OSSError::from(e)),
    }
}

/// Turns a status code and a response body into the requested value or a
/// failure. A success status with an empty body gives `T`'s default value
/// without parsing; with a body, what `parse_body` reads from it as XML. A
/// service-error status gives the service's message, read from the body by
/// `parse_error_body`. Any other status is `Unknown`, and nothing is parsed.
pub fn status_to_response<T, G, F>(
    status: u16,
    text: String,
    parse_body: G,
    parse_error_body: F,
) -> (r: Result<T, OSSError>)
    where
        T: Default,
        G: FnOnce(&String) -> Result<T, serde_xml_rs::Error>,
        F: FnOnce(&String) -> Result<ErrorResponse, serde_xml_rs::Error>,
    requires
        is_success_status(status) && text@.len() != 0 ==> parse_body.requires((&text,)),
        is_service_error_status(status) ==> parse_error_body.requires((&text,)),
    ensures
        is_success_status(status) && text@.len() == 0 ==> (r matches Ok(v) && call_ensures(T::default, (), v)),
        is_success_status(status) && text@.len() != 0 ==> exists|res: Result<T, serde_xml_rs::Error>|
            parse_body.ensures((&text,), res) && r == success_result(res),
        is_service_error_status(status) ==> exists|res: Result<ErrorResponse, serde_xml_rs::Error>|
            parse_error_body.ensures((&text,), res) && r == service_error_result::<T>(status, res),
        status_class(status) == StatusClass::Unrecognized ==> (r matches Err(OSSError::Unknown)),
{
    match classify_status(status) {
        StatusClass::Success => {
            if text.as_str().is_empty() {
                Ok(T::default())
            } else {
                let parsed = parse_body(&text);
                success_response(parsed)
            }
        },
        StatusClass::ServiceError => {
            let parsed = parse_error_body(&text);
            service_error_response(status, parsed)
        },
        StatusClass::Unrecognized => Err(OSSError::Unknown),
    }
}

} // verus!
