//! The unified error of the client, the header sub-error folded into it, and
//! the conversions from every underlying cause.
use vstd::prelude::*;

verus! {

/// `std::io::Error`: the cause of an I/O failure, carried as it is.
#[verifier::external_type_specification]
#[verifier::external_body]
pub struct ExIoError(std::io::Error);

/// `std::string::FromUtf8Error`: the cause of a failed byte-to-text decode.
#[verifier::external_type_specification]
#[verifier::external_body]
pub struct ExFromUtf8Error(std::string::FromUtf8Error);

/// `reqwest::Error`: the cause of an HTTP client failure.
#[verifier::external_type_specification]
#[verifier::external_body]
pub struct ExReqwestError(reqwest::Error);

/// `quick_xml::Error`: the cause of a failure while writing XML.
#[verifier::external_type_specification]
#[verifier::external_body]
pub struct ExQxmlError(quick_xml::Error);

/// `serde_xml_rs::Error`: the cause of a failure while reading XML into a value.
#[verifier::external_type_specification]
#[verifier::external_body]
pub struct ExXmlParseError(serde_xml_rs::Error);

/// `reqwest::header::InvalidHeaderValue`: a header value that failed validation.
#[verifier::external_type_specification]
#[verifier::external_body]
pub struct ExInvalidHeaderValue(reqwest::header::InvalidHeaderValue);

/// `reqwest::header::InvalidHeaderName`: a header name that failed validation.
#[verifier::external_type_specification]
#[verifier::external_body]
pub struct ExInvalidHeaderName(reqwest::header::InvalidHeaderName);

/// `hmac::digest::InvalidLength`: a signing key of a length the MAC refuses.
#[verifier::external_type_specification]
#[verifier::external_body]
pub struct ExInvalidLength(hmac::digest::InvalidLength);

/// A header that could not be built: a bad value or a bad name.
#[derive(Debug)]
pub enum HttpError {
    HttpInvalidHeaderValue(reqwest::header::InvalidHeaderValue),
    HttpInvalidHeaderName(reqwest::header::InvalidHeaderName),
}

/// Every failure the client can produce. Each wrapping variant owns exactly
/// one cause; `Object` is a request the service rejected.
#[derive(Debug)]
pub enum OSSError {
    Object { status_code: u16, message: String },
    Io(std::io::Error),
    String(std::string::FromUtf8Error),
    Reqwest(reqwest::Error),
    Qxml(quick_xml::Error),
    XmlParse(serde_xml_rs::Error),
    Http(HttpError),
    Sign(hmac::digest::InvalidLength),
    Unknown,
}

/// The fixed summary of a header error, independent of its cause.
pub open spec fn http_error_summary(e: HttpError) -> Seq<char> {
    match e {
        HttpError::HttpInvalidHeaderValue(_) => "invalid head value"@,
        HttpError::HttpInvalidHeaderName(_) => "invalid head name"@,
    }
}

/// The fixed summary of a unified error: it names the category of the
/// failure, never the detail of the cause.
pub open spec fn oss_error_summary(e: OSSError) -> Seq<char> {
    match e {
        OSSError::Object { .. } => "object operation is not valid"@,
        OSSError::Io(_) => "io error"@,
        OSSError::String(_) => "string error"@,
        OSSError::Reqwest(_) => "reqwest error"@,
        OSSError::Qxml(_) => "qxml error"@,
        OSSError::XmlParse(_) => "parse xml error"@,
        OSSError::Http(_) => "http error"@,
        OSSError::Sign(_) => "sign invalid length"@,
        OSSError::Unknown => "unknown error"@,
    }
}

impl HttpError {
    /// The category of this header error, as text.
    pub fn summary(&self) -> (r: &'static str)
        ensures
            r@ == http_error_summary(*self),
    {
        match self {
            HttpError::HttpInvalidHeaderValue(_) => {
                proof { reveal_strlit("invalid head value"); }
                "invalid head value"
            },
            HttpError::HttpInvalidHeaderName(_) => {
                proof { reveal_strlit("invalid head name"); }
                "invalid head name"
            },
        }
    }
}

impl OSSError {
    /// The category of this error, as text.
    pub fn summary(&self) -> (r: &'static str)
        ensures
            r@ == oss_error_summary(*self),
    {
        match self {
            OSSError::Object { .. } => {
                proof { reveal_strlit("object operation is not valid"); }
                "object operation is not valid"
            },
            OSSError::Io(_) => {
                proof { reveal_strlit("io error"); }
                "io error"
            },
            OSSError::String(_) => {
                proof { reveal_strlit("string error"); }
                "string error"
            },
            OSSError::Reqwest(_) => {
                proof { reveal_strlit("reqwest error"); }
                "reqwest error"
            },
            OSSError::Qxml(_) => {
                proof { reveal_strlit("qxml error"); }
                "qxml error"
            },
            OSSError::XmlParse(_) => {
                proof { reveal_strlit("parse xml error"); }
                "parse xml error"
            },
            OSSError::Http(_) => {
                proof { reveal_strlit("http error"); }
                "http error"
            },
            OSSError::Sign(_) => {
                proof { reveal_strlit("sign invalid length"); }
                "sign invalid length"
            },
            OSSError::Unknown => {
                proof { reveal_strlit("unknown error"); }
                "unknown error"
            },
        }
    }
}

impl From<reqwest::header::InvalidHeaderValue> for HttpError {
    fn from(e: reqwest::header::InvalidHeaderValue) -> (r: HttpError) {
        HttpError::HttpInvalidHeaderValue(e)
    }
}

impl vstd::std_specs::convert::FromSpecImpl<reqwest::header::InvalidHeaderValue> for HttpError {
    open spec fn obeys_from_spec() -> bool {
        true
    }

    open spec fn from_spec(e: reqwest::header::InvalidHeaderValue) -> HttpError {
        HttpError::HttpInvalidHeaderValue(e)
    }
}

impl From<reqwest::header::InvalidHeaderName> for HttpError {
    fn from(e: reqwest::header::InvalidHeaderName) -> (r: HttpError) {
        HttpError::HttpInvalidHeaderName(e)
    }
}

impl vstd::std_specs::convert::FromSpecImpl<reqwest::header::InvalidHeaderName> for HttpError {
    open spec fn obeys_from_spec() -> bool {
        true
    }

    open spec fn from_spec(e: reqwest::header::InvalidHeaderName) -> HttpError {
        HttpError::HttpInvalidHeaderName(e)
    }
}

impl From<std::io::Error> for OSSError {
    fn from(e: std::io::Error) -> (r: OSSError) {
        OSSError::Io(e)
    }
}

impl vstd::std_specs::convert::FromSpecImpl<std::io::Error> for OSSError {
    open spec fn obeys_from_spec() -> bool {
        true
    }

    open spec fn from_spec(e: std::io::Error) -> OSSError {
        OSSError::Io(e)
    }
}

impl From<std::string::FromUtf8Error> for OSSError {
    fn from(e: std::string::FromUtf8Error) -> (r: OSSError) {
        OSSError::String(e)
    }
}

impl vstd::std_specs::convert::FromSpecImpl<std::string::FromUtf8Error> for OSSError {
    open spec fn obeys_from_spec() -> bool {
        true
    }

    open spec fn from_spec(e: std::string::FromUtf8Error) -> OSSError {
        OSSError::String(e)
    }
}

impl From<reqwest::Error> for OSSError {
    fn from(e: reqwest::Error) -> (r: OSSError) {
        OSSError::Reqwest(e)
    }
}

impl vstd::std_specs::convert::FromSpecImpl<reqwest::Error> for OSSError {
    open spec fn obeys_from_spec() -> bool {
        true
    }

    open spec fn from_spec(e: reqwest::Error) -> OSSError {
        OSSError::Reqwest(e)
    }
}

impl From<quick_xml::Error> for OSSError {
    fn from(e: quick_xml::Error) -> (r: OSSError) {
        OSSError::Qxml(e)
    }
}

impl vstd::std_specs::convert::FromSpecImpl<quick_xml::Error> for OSSError {
    open spec fn obeys_from_spec() -> bool {
        true
    }

    open spec fn from_spec(e: quick_xml::Error) -> OSSError {
        OSSError::Qxml(e)
    }
}

impl From<serde_xml_rs::Error> for OSSError {
    fn from(e: serde_xml_rs::Error) -> (r: OSSError) {
        OSSError::XmlParse(e)
    }
}

impl vstd::std_specs::convert::FromSpecImpl<serde_xml_rs::Error> for OSSError {
    open spec fn obeys_from_spec() -> bool {
        true
    }

    open spec fn from_spec(e: serde_xml_rs::Error) -> OSSError {
        OSSError::XmlParse(e)
    }
}

impl From<HttpError> for OSSError {
    fn from(e: HttpError) -> (r: OSSError) {
        OSSError::Http(e)
    }
}

impl vstd::std_specs::convert::FromSpecImpl<HttpError> for OSSError {
    open spec fn obeys_from_spec() -> bool {
        true
    }

    open spec fn from_spec(e: HttpError) -> OSSError {
        OSSError::Http(e)
    }
}

impl From<hmac::digest::InvalidLength> for OSSError {
    fn from(e: hmac::digest::InvalidLength) -> (r: OSSError) {
        OSSError::Sign(e)
    }
}

impl vstd::std_specs::convert::FromSpecImpl<hmac::digest::InvalidLength> for OSSError {
    open spec fn obeys_from_spec() -> bool {
        true
    }

    open spec fn from_spec(e: hmac::digest::InvalidLength) -> OSSError {
        OSSError::Sign(e)
    }
}

impl From<reqwest::header::InvalidHeaderValue> for OSSError {
    fn from(e: reqwest::header::InvalidHeaderValue) -> (r: OSSError) {
        OSSError::Http(HttpError::from(e))
    }
}

impl vstd::std_specs::convert::FromSpecImpl<reqwest::header::InvalidHeaderValue> for OSSError {
    open spec fn obeys_from_spec() -> bool {
        true
    }

    open spec fn from_spec(e: reqwest::header::InvalidHeaderValue) -> OSSError {
        OSSError::Http(HttpError::HttpInvalidHeaderValue(e))
    }
}

impl From<reqwest::header::InvalidHeaderName> for OSSError {
    fn from(e: reqwest::header::InvalidHeaderName) -> (r: OSSError) {
        OSSError::Http(HttpError::from(e))
    }
}

impl vstd::std_specs::convert::FromSpecImpl<reqwest::header::InvalidHeaderName> for OSSError {
    open spec fn obeys_from_spec() -> bool {
        true
    }

    open spec fn from_spec(e: reqwest::header::InvalidHeaderName) -> OSSError {
        OSSError::Http(HttpError::HttpInvalidHeaderName(e))
    }
}

/// Converting a cause into the unified error keeps the cause, whole, in the
/// one variant that names its category; a header error of either kind goes
/// through `HttpError` into `Http`. So a match on the unified error tells
/// every kind of cause apart without a fallback arm.
pub proof fn lemma_conversion_keeps_cause(
    io: std::io::Error,
    utf8: std::string::FromUtf8Error,
    transport: reqwest::Error,
    xml_write: quick_xml::Error,
    xml_parse: serde_xml_rs::Error,
    header: HttpError,
    header_value: reqwest::header::InvalidHeaderValue,
    header_name: reqwest::header::InvalidHeaderName,
    key_length: hmac::digest::InvalidLength,
)
    ensures
        forall|r: OSSError| call_ensures(<OSSError as From<std::io::Error>>::from, (io,), r)
            ==> r == OSSError::Io(io),
        forall|r: OSSError| call_ensures(<OSSError as From<std::string::FromUtf8Error>>::from, (utf8,), r)
            ==> r == OSSError::String(utf8),
        forall|r: OSSError| call_ensures(<OSSError as From<reqwest::Error>>::from, (transport,), r)
            ==> r == OSSError::Reqwest(transport),
        forall|r: OSSError| call_ensures(<OSSError as From<quick_xml::Error>>::from, (xml_write,), r)
            ==> r == OSSError::Qxml(xml_write),
        forall|r: OSSError| call_ensures(<OSSError as From<serde_xml_rs::Error>>::from, (xml_parse,), r)
            ==> r == OSSError::XmlParse(xml_parse),
        forall|r: OSSError| call_ensures(<OSSError as From<HttpError>>::from, (header,), r)
            ==> r == OSSError::Http(header),
        forall|r: OSSError| call_ensures(<OSSError as From<reqwest::header::InvalidHeaderValue>>::from, (header_value,), r)
            ==> r == OSSError::Http(HttpError::HttpInvalidHeaderValue(header_value)),
        forall|r: OSSError| call_ensures(<OSSError as From<reqwest::header::InvalidHeaderName>>::from, (header_name,), r)
            ==> r == OSSError::Http(HttpError::HttpInvalidHeaderName(header_name)),
        forall|r: OSSError| call_ensures(<OSSError as From<hmac::digest::InvalidLength>>::from, (key_length,), r)
            ==> r == OSSError::Sign(key_length),
{
}

} // verus!
