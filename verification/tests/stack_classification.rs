use std::io::{Error as IoError, ErrorKind};

use nel::http::{classify_hyper_failure, HyperFlags};
use nel::{
    carries_os_error_code, classify_io_failure, classify_reqwest_failure, from_io_error, from_reqwest_error, CertFailure,
    Error, IoKind, TlsFailure,
};

fn no_flags() -> HyperFlags {
    HyperFlags {
        parse: false,
        user: false,
        incomplete_message: false,
        body_write_aborted: false,
        timeout: false,
        closed: false,
        canceled: false,
    }
}

// ---- I/O failures ----

#[test]
fn io_kinds_decide_first() {
    let tls = Some(TlsFailure::InvalidCertificate(CertFailure::Expired));
    let cases = [
        (IoKind::TimedOut, "tcp.timed_out"),
        (IoKind::ConnectionReset, "tcp.reset"),
        (IoKind::ConnectionRefused, "tcp.refused"),
        (IoKind::ConnectionAborted, "tcp.aborted"),
    ];
    for (kind, expected) in cases {
        assert_eq!(classify_io_failure(kind, tls, "no such host", true).to_string(), expected);
    }
}

#[test]
fn io_tls_source_beats_wording() {
    let tls = Some(TlsFailure::InvalidCertificate(CertFailure::Expired));
    let nel = classify_io_failure(IoKind::OtherKind, tls, "no such host", true);
    assert_eq!(nel.to_string(), "tls.cert.date_invalid");
}

#[test]
fn io_wording_then_inner_error() {
    let nel = classify_io_failure(IoKind::OtherKind, None, "No route to host", true);
    assert_eq!(nel.to_string(), "tcp.address_unreachable");
    let nel = classify_io_failure(IoKind::OtherKind, None, "something else", false);
    assert_eq!(nel.to_string(), "tcp.failed");
    let nel = classify_io_failure(IoKind::OtherKind, None, "something else", true);
    assert_eq!(nel, Error::new("unknown", ""));
    assert_eq!(nel.to_string(), "unknown");
    assert_eq!(nel.phase(), "unknown");
}

#[test]
fn std_io_errors_classify_by_kind() {
    assert_eq!(from_io_error(&IoError::from(ErrorKind::TimedOut), None).to_string(), "tcp.timed_out");
    assert_eq!(from_io_error(&IoError::from(ErrorKind::ConnectionReset), None).to_string(), "tcp.reset");
    assert_eq!(
        from_io_error(&IoError::from(ErrorKind::ConnectionRefused), None).to_string(),
        "tcp.refused"
    );
    assert_eq!(
        from_io_error(&IoError::from(ErrorKind::ConnectionAborted), None).to_string(),
        "tcp.aborted"
    );
}

#[test]
fn std_io_errors_classify_by_wording_and_inner_error() {
    // An inner error carrying a recognised wording.
    let err = IoError::new(ErrorKind::Other, "No route to host (os error 65)");
    assert_eq!(from_io_error(&err, None).to_string(), "tcp.address_unreachable");
    // No inner error and no recognised wording: a TCP failure.
    let err = IoError::from(ErrorKind::PermissionDenied);
    assert_eq!(from_io_error(&err, None).to_string(), "tcp.failed");
    // An inner error that is not recognised: unknown.
    let err = IoError::new(ErrorKind::Other, "mystery");
    assert_eq!(from_io_error(&err, None), Error::new("unknown", ""));
}

// ---- hyper failures ----

#[test]
fn hyper_io_cause_decides() {
    let io = Error::new("dns", "name_not_resolved");
    let mut flags = no_flags();
    flags.parse = true;
    assert_eq!(classify_hyper_failure(Some(io.clone()), flags), io);
}

#[test]
fn hyper_flags_in_priority_order() {
    let set = |f: fn(&mut HyperFlags)| {
        let mut flags = no_flags();
        f(&mut flags);
        classify_hyper_failure(None, flags).to_string()
    };
    assert_eq!(set(|f| f.parse = true), "http.response.invalid");
    assert_eq!(set(|f| f.user = true), "http.protocol.error");
    assert_eq!(set(|f| f.incomplete_message = true), "tcp.closed");
    assert_eq!(set(|f| f.body_write_aborted = true), "abandoned");
    assert_eq!(set(|f| f.timeout = true), "tcp.timed_out");
    assert_eq!(set(|f| f.closed = true), "tcp.reset");
    assert_eq!(set(|f| f.canceled = true), "tcp.aborted");
    assert_eq!(set(|_| {}), "unknown");
    // parse outranks every other flag; closed outranks canceled.
    let mut all = no_flags();
    all.parse = true;
    all.user = true;
    all.timeout = true;
    all.canceled = true;
    assert_eq!(classify_hyper_failure(None, all).to_string(), "http.response.invalid");
    let mut two = no_flags();
    two.closed = true;
    two.canceled = true;
    assert_eq!(classify_hyper_failure(None, two).to_string(), "tcp.reset");
    let abandoned = {
        let mut f = no_flags();
        f.body_write_aborted = true;
        classify_hyper_failure(None, f)
    };
    assert_eq!(abandoned.phase(), "application");
    assert_eq!(abandoned.subclass, "");
}

// ---- reqwest failures ----

#[test]
fn reqwest_causes_in_priority_order() {
    let hyper = Some(Error::new("http", "response.invalid"));
    let tls = Some(TlsFailure::InvalidCertificate(CertFailure::UnknownIssuer));
    let io = Some(Error::new("tcp", "refused"));
    let text = Some("certificate has expired");
    assert_eq!(
        classify_reqwest_failure(hyper.clone(), tls, io.clone(), true, true, text).to_string(),
        "http.response.invalid"
    );
    assert_eq!(
        classify_reqwest_failure(None, tls, io.clone(), true, true, text).to_string(),
        "tls.cert.authority_invalid"
    );
    assert_eq!(
        classify_reqwest_failure(None, None, io, true, true, text).to_string(),
        "tcp.refused"
    );
    assert_eq!(
        classify_reqwest_failure(None, None, None, true, true, text).to_string(),
        "tcp.timed_out"
    );
    assert_eq!(
        classify_reqwest_failure(None, None, None, false, true, text).to_string(),
        "tcp.failed"
    );
    assert_eq!(
        classify_reqwest_failure(None, None, None, false, false, text).to_string(),
        "tls.cert.date_invalid"
    );
    assert_eq!(
        classify_reqwest_failure(None, None, None, false, false, Some("connection refused")),
        Error::new("unknown", "")
    );
    assert_eq!(
        classify_reqwest_failure(None, None, None, false, false, None),
        Error::new("unknown", "")
    );
}

#[test]
fn reqwest_builder_error_is_unknown() {
    // A request that fails before any connection: no cause in the chain is
    // recognised, and reqwest reports neither a timeout nor a connect failure.
    let err = reqwest::Client::new().get("not a url").build().unwrap_err();
    let nel = from_reqwest_error(&err, None, None, None, None);
    assert_eq!(nel, Error::new("unknown", ""));
    // Causes found in the chain still decide.
    let tls = Some(TlsFailure::InvalidCertificate(CertFailure::Revoked));
    assert_eq!(from_reqwest_error(&err, None, tls, None, None).to_string(), "tls.cert.revoked");
}

#[test]
fn os_error_codes_are_told_apart() {
    assert!(carries_os_error_code(&IoError::from_raw_os_error(2)));
    assert!(!carries_os_error_code(&IoError::from(ErrorKind::NotFound)));
    assert!(!carries_os_error_code(&IoError::new(ErrorKind::InvalidData, "bad")));
}
