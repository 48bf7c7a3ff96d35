use oss_sdk::error::{HttpError, OSSError};
use reqwest::header::{HeaderName, HeaderValue};
use std::sync::Arc;

fn bad_header_value() -> reqwest::header::InvalidHeaderValue {
    HeaderValue::from_str("line\nbreak").unwrap_err()
}

fn bad_header_name() -> reqwest::header::InvalidHeaderName {
    HeaderName::from_bytes(b"bad name").unwrap_err()
}

#[test]
fn io_error_converts_to_io() {
    let e = std::io::Error::new(std::io::ErrorKind::NotFound, "missing object file");
    match OSSError::from(e) {
        OSSError::Io(cause) => {
            assert_eq!(cause.kind(), std::io::ErrorKind::NotFound);
            assert_eq!(cause.to_string(), "missing object file");
        }
        _ => panic!("expected Io"),
    }
}

#[test]
fn decode_error_converts_to_string() {
    let e = String::from_utf8(vec![0x61, 0xff]).unwrap_err();
    match OSSError::from(e) {
        OSSError::String(cause) => assert_eq!(cause.as_bytes(), &[0x61, 0xff]),
        _ => panic!("expected String"),
    }
}

#[test]
fn transport_error_converts_to_reqwest() {
    let e = reqwest::Client::new().get("not a url").build().unwrap_err();
    assert!(e.is_builder());
    match OSSError::from(e) {
        OSSError::Reqwest(cause) => assert!(cause.is_builder()),
        _ => panic!("expected Reqwest"),
    }
}

#[test]
fn xml_write_error_converts_to_qxml() {
    let io = std::io::Error::new(std::io::ErrorKind::WriteZero, "sink full");
    let e = quick_xml::Error::Io(Arc::new(io));
    match OSSError::from(e) {
        OSSError::Qxml(quick_xml::Error::Io(cause)) => {
            assert_eq!(cause.kind(), std::io::ErrorKind::WriteZero)
        }
        _ => panic!("expected Qxml"),
    }
}

#[test]
fn xml_parse_error_converts_to_xml_parse() {
    let e = serde_xml_rs::from_str::<u32>("<Size>").unwrap_err();
    assert!(matches!(OSSError::from(e), OSSError::XmlParse(_)));
}

#[test]
fn key_length_error_converts_to_sign() {
    let e = hmac::digest::InvalidLength;
    match OSSError::from(e) {
        OSSError::Sign(cause) => assert_eq!(cause, hmac::digest::InvalidLength),
        _ => panic!("expected Sign"),
    }
}

#[test]
fn header_errors_go_through_http_error() {
    assert!(matches!(
        HttpError::from(bad_header_value()),
        HttpError::HttpInvalidHeaderValue(_)
    ));
    assert!(matches!(
        HttpError::from(bad_header_name()),
        HttpError::HttpInvalidHeaderName(_)
    ));
    assert!(matches!(
        OSSError::from(bad_header_value()),
        OSSError::Http(HttpError::HttpInvalidHeaderValue(_))
    ));
    assert!(matches!(
        OSSError::from(bad_header_name()),
        OSSError::Http(HttpError::HttpInvalidHeaderName(_))
    ));
    assert!(matches!(
        OSSError::from(HttpError::from(bad_header_name())),
        OSSError::Http(HttpError::HttpInvalidHeaderName(_))
    ));
}

fn category(e: &OSSError) -> &'static str {
    match e {
        OSSError::Object { .. } => "object",
        OSSError::Io(_) => "io",
        OSSError::String(_) => "string",
        OSSError::Reqwest(_) => "reqwest",
        OSSError::Qxml(_) => "qxml",
        OSSError::XmlParse(_) => "xml parse",
        OSSError::Http(_) => "http",
        OSSError::Sign(_) => "sign",
        OSSError::Unknown => "unknown",
    }
}

#[test]
fn every_cause_keeps_its_own_category() {
    let converted = vec![
        OSSError::from(std::io::Error::new(std::io::ErrorKind::Other, "x")),
        OSSError::from(String::from_utf8(vec![0xff]).unwrap_err()),
        OSSError::from(reqwest::Client::new().get("::").build().unwrap_err()),
        OSSError::from(quick_xml::Error::Io(Arc::new(std::io::Error::new(
            std::io::ErrorKind::Other,
            "x",
        )))),
        OSSError::from(serde_xml_rs::from_str::<u32>("").unwrap_err()),
        OSSError::from(bad_header_value()),
        OSSError::from(hmac::digest::InvalidLength),
    ];
    let names: Vec<&str> = converted.iter().map(category).collect();
    assert_eq!(names, vec!["io", "string", "reqwest", "qxml", "xml parse", "http", "sign"]);
}

#[test]
fn summaries_name_the_category() {
    let object = OSSError::Object { status_code: 403, message: "Access Denied".to_string() };
    assert_eq!(object.summary(), "object operation is not valid");
    assert_eq!(OSSError::Unknown.summary(), "unknown error");
    assert_eq!(
        OSSError::from(std::io::Error::new(std::io::ErrorKind::Other, "disk on fire")).summary(),
        "io error"
    );
    assert_eq!(OSSError::from(String::from_utf8(vec![0xff]).unwrap_err()).summary(), "string error");
    assert_eq!(
        OSSError::from(reqwest::Client::new().get("::").build().unwrap_err()).summary(),
        "reqwest error"
    );
    assert_eq!(
        OSSError::from(quick_xml::Error::Io(Arc::new(std::io::Error::new(
            std::io::ErrorKind::Other,
            "x"
        ))))
        .summary(),
        "qxml error"
    );
    assert_eq!(OSSError::from(serde_xml_rs::from_str::<u32>("").unwrap_err()).summary(), "parse xml error");
    assert_eq!(OSSError::from(bad_header_name()).summary(), "http error");
    assert_eq!(OSSError::from(hmac::digest::InvalidLength).summary(), "sign invalid length");
    assert_eq!(HttpError::from(bad_header_value()).summary(), "invalid head value");
    assert_eq!(HttpError::from(bad_header_name()).summary(), "invalid head name");
}
