use nel::Error;

#[test]
fn new_keeps_class_and_subclass() {
    let e = Error::new("tls", "cert.revoked");
    assert_eq!(e.class, "tls");
    assert_eq!(e.subclass, "cert.revoked");
}

#[test]
fn phase_by_class() {
    let cases = [
        ("dns", "dns"),
        ("tcp", "connection"),
        ("udp", "connection"),
        ("tls", "connection"),
        ("http", "application"),
        ("abandoned", "application"),
        ("unknown", "unknown"),
        ("quic", "unknown"),
        ("DNS", "unknown"),
        ("", "unknown"),
    ];
    for (class, phase) in cases {
        assert_eq!(Error::new(class, "x").phase(), phase, "for {class:?}");
    }
}

#[test]
fn wire_form_joins_class_and_subclass() {
    assert_eq!(Error::new("dns", "name_not_resolved").to_string(), "dns.name_not_resolved");
    assert_eq!(Error::new("tls", "cert.date_invalid").to_string(), "tls.cert.date_invalid");
    assert_eq!(Error::new("http", "").to_string(), "http.");
}

#[test]
fn unknown_and_abandoned_are_written_alone() {
    assert_eq!(Error::new("unknown", "").to_string(), "unknown");
    assert_eq!(Error::new("unknown", "leaked detail").to_string(), "unknown");
    assert_eq!(Error::new("abandoned", "").to_string(), "abandoned");
    assert_eq!(Error::new("abandoned", "x").to_string(), "abandoned");
}

#[test]
fn struct_literal_matches_new() {
    let e = Error { class: "http".to_owned(), subclass: "response.invalid".to_owned() };
    assert_eq!(e, Error::new("http", "response.invalid"));
    assert_eq!(e.phase(), "application");
    assert_eq!(e.to_string(), "http.response.invalid");
}
