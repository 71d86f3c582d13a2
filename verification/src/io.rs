//! Classification of I/O failures (`std::io::Error`): by their kind, by a
//! TLS failure found inside them, and, as a fallback, by their wording.

use vstd::prelude::*;
use crate::error::{Error, option_view};
use crate::text::{
    NeedleRule, RuleView, ascii_lower, chars_of, contains_any, first_match, first_matching_rule,
    lowercase_of, rules_view, to_lowercase,
};
use crate::tls::{TlsFailure, rustls_error_to_nel, tls_failure_class};

verus! {

/// The wording table of the I/O fallback, matched against the lowercased
/// message: DNS failures (glibc/musl, macOS/BSD libc, Windows, and the
/// generic "no address" wording), unreachable hosts, and certificate
/// expiry (only the specific certificate wordings: a bare "expired" also
/// names session, cookie or lease expiry).
pub open spec fn io_text_rules() -> Seq<RuleView> {
    seq![
        (
            seq![
                "no address"@,
                "name or service not known"@,
                "nodename nor servname provided"@,
                "no such host"@,
            ],
            "dns"@,
            "name_not_resolved"@,
        ),
        (seq!["no route to host"@, "unreachable"@], "tcp"@, "address_unreachable"@),
        (
            seq!["certificate has expired"@, "certificate is expired"@, "expired certificate"@],
            "tls"@,
            "cert.date_invalid"@,
        ),
    ]
}

/// The I/O fallback table as a value.
fn io_text_table() -> (t: Vec<NeedleRule>)
    ensures
        rules_view(t@) == io_text_rules(),
{
    let t = vec![
        NeedleRule {
            needles: vec![
                "no address",
                "name or service not known",
                "nodename nor servname provided",
                "no such host",
            ],
            class: "dns",
            subclass: "name_not_resolved",
        },
        NeedleRule {
            needles: vec!["no route to host", "unreachable"],
            class: "tcp",
            subclass: "address_unreachable",
        },
        NeedleRule {
            needles: vec!["certificate has expired", "certificate is expired", "expired certificate"],
            class: "tls",
            subclass: "cert.date_invalid",
        },
    ];
    assert(t@[0]@.0 =~= io_text_rules()[0].0);
    assert(t@[1]@.0 =~= io_text_rules()[1].0);
    assert(t@[2]@.0 =~= io_text_rules()[2].0);
    assert(rules_view(t@) =~= io_text_rules());
    t
}

/// Classifies an already lowercased I/O error message by the fallback
/// wording table.
pub fn classify_lowered_io_text(lower: &str) -> (r: Option<Error>)
    ensures
        option_view(r) == first_match(io_text_rules(), lower@),
        (option_view(r) == Some(("dns"@, "name_not_resolved"@)))
            <==> contains_any(lower@, crate::laws::dns_wordings()),
{
    proof {
        crate::laws::io_wordings_classify(lower@);
    }
    let text = chars_of(lower);
    let table = io_text_table();
    first_matching_rule(&text, &table)
}

/// Classifies an I/O error message by its wording, case-insensitively:
/// the fallback for failures whose error types are not recognised
/// structurally (native TLS stacks, platform DNS wordings).
pub fn classify_io_error_text(msg: &str) -> (r: Option<Error>)
    ensures
        option_view(r) == first_match(io_text_rules(), lowercase_of(msg@)),
        vstd::utf8::is_ascii_chars(msg@) ==> option_view(r) == first_match(io_text_rules(), ascii_lower(msg@)),
{
    let lower = to_lowercase(msg);
    classify_lowered_io_text(lower.as_str())
}

/// The kinds of I/O error (`std::io::ErrorKind`) that the classification
/// tells apart; `OtherKind` stands for every other kind.
#[derive(Debug, Clone, Copy, PartialEq, Eq)]
pub enum IoKind {
    TimedOut,
    ConnectionReset,
    ConnectionRefused,
    ConnectionAborted,
    OtherKind,
}

/// The NEL classification of an I/O failure of the given kind, with the
/// TLS failure found inside it (if any), the lowercase form of its message,
/// and whether it wraps an inner error. The kind decides first; then a TLS
/// failure; then the wording of the message; then a failure with no inner
/// error is a TCP failure, and one with an unrecognised inner error is
/// unknown.
pub open spec fn io_failure_class_lowered(
    kind: IoKind,
    tls_source: Option<TlsFailure>,
    lower: Seq<char>,
    has_inner: bool,
) -> (Seq<char>, Seq<char>) {
    match kind {
        IoKind::TimedOut => ("tcp"@, "timed_out"@),
        IoKind::ConnectionReset => ("tcp"@, "reset"@),
        IoKind::ConnectionRefused => ("tcp"@, "refused"@),
        IoKind::ConnectionAborted => ("tcp"@, "aborted"@),
        IoKind::OtherKind => match tls_source {
            Some(f) => tls_failure_class(f),
            None => match first_match(io_text_rules(), lower) {
                Some(c) => c,
                None => if has_inner {
                    ("unknown"@, ""@)
                } else {
                    ("tcp"@, "failed"@)
                },
            },
        },
    }
}

/// The NEL classification of an I/O failure of the given kind, with the
/// TLS failure found inside it (if any), its message, and whether it wraps
/// an inner error: as `io_failure_class_lowered` over the lowercase form
/// of the message.
pub open spec fn io_failure_class(
    kind: IoKind,
    tls_source: Option<TlsFailure>,
    msg: Seq<char>,
    has_inner: bool,
) -> (Seq<char>, Seq<char>) {
    io_failure_class_lowered(kind, tls_source, lowercase_of(msg), has_inner)
}

/// Classifies an I/O failure given its kind, the TLS failure found in its
/// chain of inner errors (if any), its message, and whether it wraps an
/// inner error.
pub fn classify_io_failure(
    kind: IoKind,
    tls_source: Option<TlsFailure>,
    msg: &str,
    has_inner: bool,
) -> (e: Error)
    ensures
        e@ == io_failure_class(kind, tls_source, msg@, has_inner),
        kind == IoKind::TimedOut ==> e@ == ("tcp"@, "timed_out"@),
        kind == IoKind::ConnectionReset ==> e@ == ("tcp"@, "reset"@),
        kind == IoKind::ConnectionRefused ==> e@ == ("tcp"@, "refused"@),
        kind == IoKind::ConnectionAborted ==> e@ == ("tcp"@, "aborted"@),
        vstd::utf8::is_ascii_chars(msg@) ==> e@ == io_failure_class_lowered(
            kind,
            tls_source,
            ascii_lower(msg@),
            has_inner,
        ),
{
    match kind {
        IoKind::TimedOut => Error::new("tcp", "timed_out"),
        IoKind::ConnectionReset => Error::new("tcp", "reset"),
        IoKind::ConnectionRefused => Error::new("tcp", "refused"),
        IoKind::ConnectionAborted => Error::new("tcp", "aborted"),
        IoKind::OtherKind => {
            // rustls surfaces TLS failures as inner errors of the I/O error.
            if let Some(f) = tls_source {
                return rustls_error_to_nel(&f);
            }
            if let Some(e) = classify_io_error_text(msg) {
                return e;
            }
            // No inner error at all: the kernel reported some other
            // connection failure. An inner error that is not recognised
            // leaves the cause unknown.
            if has_inner {
                Error::new("unknown", "")
            } else {
                Error::new("tcp", "failed")
            }
        },
    }
}

/// Whether an I/O error carries an operating-system error code
/// (`std::io::Error::raw_os_error` is `Some`): a property of the error value
/// alone.
pub uninterp spec fn io_os_error_of(err: std::io::Error) -> bool;

/// The kind stored in an I/O error that carries no operating-system error
/// code (the kind it was built with), told apart as the classification
/// names kinds: a property of the error value alone.
pub uninterp spec fn io_stored_kind_of(err: std::io::Error) -> IoKind;

/// Calls `std::io::Error::kind`, telling apart the kinds that the
/// classification names. Claimed: for an error that carries no
/// operating-system code, the answer is the kind stored in it. The kind of
/// an operating-system error, which std decodes per platform, is left
/// unsaid.
#[verifier::external_body]
fn io_kind_of(err: &std::io::Error) -> (k: IoKind)
    ensures
        !io_os_error_of(*err) ==> k == io_stored_kind_of(*err),
{
    match err.kind() {
        std::io::ErrorKind::TimedOut => IoKind::TimedOut,
        std::io::ErrorKind::ConnectionReset => IoKind::ConnectionReset,
        std::io::ErrorKind::ConnectionRefused => IoKind::ConnectionRefused,
        std::io::ErrorKind::ConnectionAborted => IoKind::ConnectionAborted,
        _ => IoKind::OtherKind,
    }
}

/// Calls `std::io::Error::raw_os_error` and reports whether the error
/// carries an operating-system error code. Claimed: the answer is
/// `io_os_error_of` of the error.
#[verifier::external_body]
fn io_has_os_code(err: &std::io::Error) -> (b: bool)
    ensures
        b == io_os_error_of(*err),
{
    err.raw_os_error().is_some()
}

/// Whether an I/O error carries an operating-system error code, the case
/// in which its kind is decoded per platform; for every other error,
/// `from_io_error` classifies by the kind stored in it.
pub fn carries_os_error_code(err: &std::io::Error) -> (b: bool)
    ensures
        b == io_os_error_of(*err),
{
    io_has_os_code(err)
}

/// Whether an I/O error wraps an inner error (`std::io::Error::get_ref`
/// returns one): a property of the error value alone.
pub uninterp spec fn io_inner_of(err: std::io::Error) -> bool;

/// Calls `std::io::Error::get_ref` and reports whether the error wraps an
/// inner error. Claimed: the answer is `io_inner_of` of the error.
#[verifier::external_body]
fn io_has_inner(err: &std::io::Error) -> (b: bool)
    ensures
        b == io_inner_of(*err),
{
    err.get_ref().is_some()
}

/// Classifies an I/O error, given the TLS failure that a walk of its chain
/// of inner errors found (if any). Its kind and message are read from it
/// (the message is its `to_string`), and whether it wraps an inner error;
/// whatever kind and message it has, the result is the classification
/// that `classify_io_failure` gives them. An error that carries no
/// operating-system code is classified by the kind stored in it.
pub fn from_io_error(err: &std::io::Error, tls_source: Option<TlsFailure>) -> (e: Error)
    ensures
        exists|kind: IoKind, msg: String|
            vstd::string::to_string_from_display_ensures::<std::io::Error>(err, msg)
                && e@ == io_failure_class(kind, tls_source, msg@, io_inner_of(*err)),
        !io_os_error_of(*err) ==> exists|msg: String|
            vstd::string::to_string_from_display_ensures::<std::io::Error>(err, msg)
                && e@ == io_failure_class(io_stored_kind_of(*err), tls_source, msg@, io_inner_of(*err)),
{
    let kind = io_kind_of(err);
    let msg = err.to_string();
    let has_inner = io_has_inner(err);
    classify_io_failure(kind, tls_source, msg.as_str(), has_inner)
}

} // verus!
