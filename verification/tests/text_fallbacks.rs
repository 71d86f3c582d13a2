use nel::http::classify_lowered_native_tls_text;
use nel::io::classify_lowered_io_text;
use nel::{classify_io_error_text, classify_native_tls_text};

// ---- I/O error message fallback ----

#[test]
fn dns_wordings_classify_as_dns_name_not_resolved() {
    let cases = [
        // glibc / musl (Linux CI runner)
        "failed to lookup address information: Name or service not known",
        // libc on macOS / BSD
        "nodename nor servname provided, or not known",
        // Windows
        "No such host is known. (os error 11001)",
        // reqwest's generic wording
        "no address resolved for hostname",
    ];
    for msg in cases {
        let nel = classify_io_error_text(msg).unwrap_or_else(|| {
            panic!("{msg:?} should classify as dns.name_not_resolved but didn't match")
        });
        assert_eq!(nel.to_string(), "dns.name_not_resolved", "for {msg:?}");
    }
}

#[test]
fn unreachable_wordings_classify_as_tcp_address_unreachable() {
    let cases = [
        "No route to host (os error 65)",
        "Network is unreachable (os error 101)",
        "Host is unreachable",
    ];
    for msg in cases {
        let nel = classify_io_error_text(msg)
            .unwrap_or_else(|| panic!("{msg:?} should classify as tcp.address_unreachable"));
        assert_eq!(nel.to_string(), "tcp.address_unreachable", "for {msg:?}");
    }
}

#[test]
fn cert_expiry_wordings_classify_as_tls_cert_date_invalid() {
    let cases = [
        "certificate has expired",
        "SEC_E_CERT_EXPIRED: certificate is expired",
        "x509: certificate has an expired certificate",
    ];
    for msg in cases {
        let nel = classify_io_error_text(msg)
            .unwrap_or_else(|| panic!("{msg:?} should classify as tls.cert.date_invalid"));
        assert_eq!(nel.to_string(), "tls.cert.date_invalid", "for {msg:?}");
    }
}

#[test]
fn broad_expired_wording_no_longer_misclassifies_as_tls() {
    let non_tls_cases = [
        "DHCP lease expired",
        "session expired",
        "authentication cookie expired",
    ];
    for msg in non_tls_cases {
        assert!(
            classify_io_error_text(msg).is_none(),
            "{msg:?} should not match any text classifier"
        );
    }
}

#[test]
fn unrelated_wording_does_not_classify() {
    let cases = [
        "connection reset by peer",
        "broken pipe",
        "operation would block",
        "invalid argument",
    ];
    for msg in cases {
        assert!(
            classify_io_error_text(msg).is_none(),
            "{msg:?} should not match any text classifier"
        );
    }
}

// ---- Native TLS wording fallback ----

#[test]
fn name_invalid_wordings() {
    let cases = [
        // OpenSSL / reqwest wording
        "Hostname mismatch for example.com",
        // SecureTransport (macOS) wording (seen historically)
        "Host name mismatch",
        // schannel-style
        "the CN name is invalid",
        // rustls 0.20-era display
        "certificate not valid for name \"example.com\"",
    ];
    for msg in cases {
        let nel = classify_native_tls_text(msg)
            .unwrap_or_else(|| panic!("{msg:?} should classify as tls.cert.name_invalid"));
        assert_eq!(nel.to_string(), "tls.cert.name_invalid", "for {msg:?}");
    }
}

#[test]
fn date_invalid_wordings() {
    let cases = [
        "certificate has expired",
        "The certificate is expired",
        "found expired certificate in chain",
    ];
    for msg in cases {
        let nel = classify_native_tls_text(msg)
            .unwrap_or_else(|| panic!("{msg:?} should classify as tls.cert.date_invalid"));
        assert_eq!(nel.to_string(), "tls.cert.date_invalid", "for {msg:?}");
    }
}

#[test]
fn authority_invalid_wordings() {
    let cases = [
        "self signed certificate in chain",
        "self-signed certificate",
        "certificate signed by unknown issuer",
        "untrusted root certificate",
        "unable to get local issuer certificate",
    ];
    for msg in cases {
        let nel = classify_native_tls_text(msg)
            .unwrap_or_else(|| panic!("{msg:?} should classify as tls.cert.authority_invalid"));
        assert_eq!(nel.to_string(), "tls.cert.authority_invalid", "for {msg:?}");
    }
}

#[test]
fn non_tls_wordings_do_not_match() {
    let cases = [
        "connection refused",
        "broken pipe",
        "DHCP lease expired",
        "cookie expired",
    ];
    for msg in cases {
        assert!(
            classify_native_tls_text(msg).is_none(),
            "{msg:?} should not match any native-tls classifier"
        );
    }
}

// ---- Further cases ----

#[test]
fn text_fallbacks_ignore_case() {
    let nel = classify_io_error_text("NO ROUTE TO HOST").expect("uppercase wording matches");
    assert_eq!(nel.to_string(), "tcp.address_unreachable");
    let nel = classify_native_tls_text("SELF-SIGNED CERTIFICATE").expect("uppercase wording matches");
    assert_eq!(nel.to_string(), "tls.cert.authority_invalid");
}

#[test]
fn io_text_rules_apply_in_order() {
    // Both a DNS and an unreachable wording: the DNS rule comes first.
    let nel = classify_io_error_text("no such host; network unreachable").unwrap();
    assert_eq!(nel.to_string(), "dns.name_not_resolved");
    // Unreachable before certificate expiry.
    let nel = classify_io_error_text("unreachable: certificate has expired").unwrap();
    assert_eq!(nel.to_string(), "tcp.address_unreachable");
}

#[test]
fn native_tls_rules_apply_in_order() {
    // A name mismatch and an expired certificate: the name rule comes first.
    let nel = classify_native_tls_text("hostname mismatch, expired certificate").unwrap();
    assert_eq!(nel.to_string(), "tls.cert.name_invalid");
    let nel = classify_native_tls_text("expired certificate from unknown issuer").unwrap();
    assert_eq!(nel.to_string(), "tls.cert.date_invalid");
}

#[test]
fn empty_text_does_not_classify() {
    assert!(classify_io_error_text("").is_none());
    assert!(classify_native_tls_text("").is_none());
}

#[test]
fn lowered_classifiers_match_exact_needles() {
    let nel = classify_lowered_io_text("no address").unwrap();
    assert_eq!((nel.class.as_str(), nel.subclass.as_str()), ("dns", "name_not_resolved"));
    // The lowered classifiers do not lowercase themselves.
    assert!(classify_lowered_io_text("NO ADDRESS").is_none());
    let nel = classify_lowered_native_tls_text("untrusted root").unwrap();
    assert_eq!((nel.class.as_str(), nel.subclass.as_str()), ("tls", "cert.authority_invalid"));
    assert!(classify_lowered_native_tls_text("UNTRUSTED ROOT").is_none());
}

#[test]
fn surrounding_text_keeps_a_match() {
    for t in ["no such host", "Host is unreachable", "certificate has expired"] {
        let bare = classify_io_error_text(t).unwrap();
        let wrapped = classify_io_error_text(&format!("error: {t} (os error 1)")).unwrap();
        assert_eq!(bare, wrapped, "for {t:?}");
    }
    for t in ["Hostname mismatch", "self-signed certificate"] {
        assert!(classify_native_tls_text(&format!("tls: {t}!")).is_some(), "for {t:?}");
    }
}

#[test]
fn ascii_case_changes_do_not_change_the_class() {
    for t in ["No Such Host", "certificate IS expired", "Unable To Get Local Issuer"] {
        assert_eq!(
            classify_io_error_text(&t.to_ascii_uppercase()),
            classify_io_error_text(&t.to_ascii_lowercase()),
            "for {t:?}"
        );
        assert_eq!(
            classify_native_tls_text(&t.to_ascii_uppercase()),
            classify_native_tls_text(t),
            "for {t:?}"
        );
    }
}
