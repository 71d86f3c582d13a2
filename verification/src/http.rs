//! Classification of failures reported by the HTTP stack: hyper's errors,
//! reqwest's errors, and the wordings of native TLS stacks.

use vstd::prelude::*;
use crate::error::{Error, option_view};
use crate::text::{
    NeedleRule, RuleView, ascii_lower, chars_of, contains_any, first_match, first_matching_rule,
    lowercase_of, rules_view, to_lowercase,
};
use crate::tls::{TlsFailure, rustls_error_to_nel, tls_failure_class};

verus! {

/// The wording table of the native-tls / SecureTransport / schannel
/// fallback, matched against the lowercased text of the deepest error:
/// name mismatches, expired certificates, untrusted issuers.
pub open spec fn native_tls_rules() -> Seq<RuleView> {
    seq![
        (
            seq![
                "hostname mismatch"@,
                "host name mismatch"@,
                "not valid for name"@,
                "cn name is invalid"@,
            ],
            "tls"@,
            "cert.name_invalid"@,
        ),
        (
            seq!["expired certificate"@, "certificate has expired"@, "certificate is expired"@],
            "tls"@,
            "cert.date_invalid"@,
        ),
        (
            seq![
                "self signed certificate"@,
                "self-signed certificate"@,
                "unknown issuer"@,
                "untrusted root"@,
                "unable to get local issuer"@,
            ],
            "tls"@,
            "cert.authority_invalid"@,
        ),
    ]
}

/// The native TLS wording table as a value.
fn native_tls_table() -> (t: Vec<NeedleRule>)
    ensures
        rules_view(t@) == native_tls_rules(),
{
    let t = vec![
        NeedleRule {
            needles: vec![
                "hostname mismatch",
                "host name mismatch",
                "not valid for name",
                "cn name is invalid",
            ],
            class: "tls",
            subclass: "cert.name_invalid",
        },
        NeedleRule {
            needles: vec!["expired certificate", "certificate has expired", "certificate is expired"],
            class: "tls",
            subclass: "cert.date_invalid",
        },
        NeedleRule {
            needles: vec![
                "self signed certificate",
                "self-signed certificate",
                "unknown issuer",
                "untrusted root",
                "unable to get local issuer",
            ],
            class: "tls",
            subclass: "cert.authority_invalid",
        },
    ];
    assert(t@[0]@.0 =~= native_tls_rules()[0].0);
    assert(t@[1]@.0 =~= native_tls_rules()[1].0);
    assert(t@[2]@.0 =~= native_tls_rules()[2].0);
    assert(rules_view(t@) =~= native_tls_rules());
    t
}

/// Classifies an already lowercased native TLS error text by the wording
/// table.
pub fn classify_lowered_native_tls_text(lower: &str) -> (r: Option<Error>)
    ensures
        option_view(r) == first_match(native_tls_rules(), lower@),
        (option_view(r) == Some(("tls"@, "cert.name_invalid"@)))
            <==> contains_any(lower@, crate::laws::name_mismatch_wordings()),
{
    proof {
        crate::laws::native_tls_wordings_classify(lower@);
    }
    let text = chars_of(lower);
    let table = native_tls_table();
    first_matching_rule(&text, &table)
}

/// Classifies the wording of a native TLS error, case-insensitively: the
/// fallback for TLS stacks that expose no structured error kinds.
pub fn classify_native_tls_text(text: &str) -> (r: Option<Error>)
    ensures
        option_view(r) == first_match(native_tls_rules(), lowercase_of(text@)),
        vstd::utf8::is_ascii_chars(text@) ==> option_view(r) == first_match(native_tls_rules(), ascii_lower(text@)),
{
    let lower = to_lowercase(text);
    classify_lowered_native_tls_text(lower.as_str())
}

/// What hyper reports of a failure (`hyper::Error::is_parse`, `is_user`,
/// `is_incomplete_message`, `is_body_write_aborted`, `is_timeout`,
/// `is_closed`, `is_canceled`).
#[derive(Debug, Clone, Copy, PartialEq, Eq)]
pub struct HyperFlags {
    pub parse: bool,
    pub user: bool,
    pub incomplete_message: bool,
    pub body_write_aborted: bool,
    pub timeout: bool,
    pub closed: bool,
    pub canceled: bool,
}

/// The NEL classification of a hyper failure: the classification of the
/// I/O failure that caused it, if there is one; otherwise by the first of
/// its flags that is set, in the order parse, user, incomplete message,
/// aborted body write, timeout, closed, canceled; `unknown` if none is.
pub open spec fn hyper_failure_class(
    io_class: Option<(Seq<char>, Seq<char>)>,
    f: HyperFlags,
) -> (Seq<char>, Seq<char>) {
    match io_class {
        Some(c) => c,
        None => if f.parse {
            ("http"@, "response.invalid"@)
        } else if f.user {
            ("http"@, "protocol.error"@)
        } else if f.incomplete_message {
            ("tcp"@, "closed"@)
        } else if f.body_write_aborted {
            ("abandoned"@, ""@)
        } else if f.timeout {
            ("tcp"@, "timed_out"@)
        } else if f.closed {
            ("tcp"@, "reset"@)
        } else if f.canceled {
            ("tcp"@, "aborted"@)
        } else {
            ("unknown"@, ""@)
        },
    }
}

/// Classifies a hyper failure given the classification of the I/O failure
/// found in its chain of causes (if any) and its flags.
pub fn classify_hyper_failure(io_class: Option<Error>, flags: HyperFlags) -> (e: Error)
    ensures
        e@ == hyper_failure_class(option_view(io_class), flags),
{
    // Caused by an underlying I/O failure: that failure decides.
    if let Some(e) = io_class {
        return e;
    }
    if flags.parse {
        Error::new("http", "response.invalid")
    } else if flags.user {
        Error::new("http", "protocol.error")
    } else if flags.incomplete_message {
        Error::new("tcp", "closed")
    } else if flags.body_write_aborted {
        Error::new("abandoned", "")
    } else if flags.timeout {
        Error::new("tcp", "timed_out")
    } else if flags.closed {
        Error::new("tcp", "reset")
    } else if flags.canceled {
        Error::new("tcp", "aborted")
    } else {
        Error::new("unknown", "")
    }
}

/// What `hyper::Error::is_parse` answers for an error: a property of the
/// error value alone (its stored kind and causes).
pub uninterp spec fn hyper_parse_of(err: hyper::Error) -> bool;

/// Calls `hyper::Error::is_parse`. Claimed: the answer is `hyper_parse_of` of the
/// error.
#[verifier::external_body]
fn hyper_is_parse(err: &hyper::Error) -> (b: bool)
    ensures
        b == hyper_parse_of(*err),
{
    err.is_parse()
}

/// What `hyper::Error::is_user` answers for an error: a property of the
/// error value alone (its stored kind and causes).
pub uninterp spec fn hyper_user_of(err: hyper::Error) -> bool;

/// Calls `hyper::Error::is_user`. Claimed: the answer is `hyper_user_of` of the
/// error.
#[verifier::external_body]
fn hyper_is_user(err: &hyper::Error) -> (b: bool)
    ensures
        b == hyper_user_of(*err),
{
    err.is_user()
}

/// What `hyper::Error::is_incomplete_message` answers for an error: a property of the
/// error value alone (its stored kind and causes).
pub uninterp spec fn hyper_incomplete_message_of(err: hyper::Error) -> bool;

/// Calls `hyper::Error::is_incomplete_message`. Claimed: the answer is `hyper_incomplete_message_of` of the
/// error.
#[verifier::external_body]
fn hyper_is_incomplete_message(err: &hyper::Error) -> (b: bool)
    ensures
        b == hyper_incomplete_message_of(*err),
{
    err.is_incomplete_message()
}

/// What `hyper::Error::is_body_write_aborted` answers for an error: a property of the
/// error value alone (its stored kind and causes).
pub uninterp spec fn hyper_body_write_aborted_of(err: hyper::Error) -> bool;

/// Calls `hyper::Error::is_body_write_aborted`. Claimed: the answer is `hyper_body_write_aborted_of` of the
/// error.
#[verifier::external_body]
fn hyper_is_body_write_aborted(err: &hyper::Error) -> (b: bool)
    ensures
        b == hyper_body_write_aborted_of(*err),
{
    err.is_body_write_aborted()
}

/// What `hyper::Error::is_timeout` answers for an error: a property of the
/// error value alone (its stored kind and causes).
pub uninterp spec fn hyper_timeout_of(err: hyper::Error) -> bool;

/// Calls `hyper::Error::is_timeout`. Claimed: the answer is `hyper_timeout_of` of the
/// error.
#[verifier::external_body]
fn hyper_is_timeout(err: &hyper::Error) -> (b: bool)
    ensures
        b == hyper_timeout_of(*err),
{
    err.is_timeout()
}

/// What `hyper::Error::is_closed` answers for an error: a property of the
/// error value alone (its stored kind and causes).
pub uninterp spec fn hyper_closed_of(err: hyper::Error) -> bool;

/// Calls `hyper::Error::is_closed`. Claimed: the answer is `hyper_closed_of` of the
/// error.
#[verifier::external_body]
fn hyper_is_closed(err: &hyper::Error) -> (b: bool)
    ensures
        b == hyper_closed_of(*err),
{
    err.is_closed()
}

/// What `hyper::Error::is_canceled` answers for an error: a property of the
/// error value alone (its stored kind and causes).
pub uninterp spec fn hyper_canceled_of(err: hyper::Error) -> bool;

/// Calls `hyper::Error::is_canceled`. Claimed: the answer is `hyper_canceled_of` of the
/// error.
#[verifier::external_body]
fn hyper_is_canceled(err: &hyper::Error) -> (b: bool)
    ensures
        b == hyper_canceled_of(*err),
{
    err.is_canceled()
}

/// The flags that hyper reports of a failure.
pub open spec fn hyper_flags_spec(err: hyper::Error) -> HyperFlags {
    HyperFlags {
        parse: hyper_parse_of(err),
        user: hyper_user_of(err),
        incomplete_message: hyper_incomplete_message_of(err),
        body_write_aborted: hyper_body_write_aborted_of(err),
        timeout: hyper_timeout_of(err),
        closed: hyper_closed_of(err),
        canceled: hyper_canceled_of(err),
    }
}

/// Reads the flags of a hyper failure.
fn hyper_flags_of(err: &hyper::Error) -> (f: HyperFlags)
    ensures
        f == hyper_flags_spec(*err),
{
    HyperFlags {
        parse: hyper_is_parse(err),
        user: hyper_is_user(err),
        incomplete_message: hyper_is_incomplete_message(err),
        body_write_aborted: hyper_is_body_write_aborted(err),
        timeout: hyper_is_timeout(err),
        closed: hyper_is_closed(err),
        canceled: hyper_is_canceled(err),
    }
}

/// Classifies a hyper failure, given the classification of the I/O
/// failure found in its chain of causes (if any): that one when there is
/// one; otherwise the classification of the flags hyper reports of it.
pub fn from_hyper_error(err: &hyper::Error, io_class: Option<Error>) -> (e: Error)
    ensures
        io_class is Some ==> e == io_class.unwrap(),
        e@ == hyper_failure_class(option_view(io_class), hyper_flags_spec(*err)),
{
    if let Some(e) = io_class {
        return e;
    }
    let flags = hyper_flags_of(err);
    classify_hyper_failure(None, flags)
}

/// The view of an optional text.
pub open spec fn option_text(t: Option<&str>) -> Option<Seq<char>> {
    match t {
        Some(t) => Some(t@),
        None => None,
    }
}

/// The NEL classification of a reqwest failure, given the lowercase form
/// of the deepest error's text. The causes found in its chain decide first,
/// in the order hyper failure, TLS failure, I/O failure; then a timeout
/// (`tcp.timed_out`); then a connect failure (`tcp.failed`); then the
/// wording of the deepest error in the chain by the native TLS table;
/// otherwise `unknown`.
pub open spec fn reqwest_failure_class_lowered(
    hyper_class: Option<(Seq<char>, Seq<char>)>,
    tls_source: Option<TlsFailure>,
    io_class: Option<(Seq<char>, Seq<char>)>,
    timeout: bool,
    connect: bool,
    deepest_lower: Option<Seq<char>>,
) -> (Seq<char>, Seq<char>) {
    match (hyper_class, tls_source, io_class) {
        (Some(c), _, _) => c,
        (None, Some(f), _) => tls_failure_class(f),
        (None, None, Some(c)) => c,
        (None, None, None) => if timeout {
            ("tcp"@, "timed_out"@)
        } else if connect {
            ("tcp"@, "failed"@)
        } else {
            match deepest_lower {
                Some(t) => match first_match(native_tls_rules(), t) {
                    Some(c) => c,
                    None => ("unknown"@, ""@),
                },
                None => ("unknown"@, ""@),
            }
        },
    }
}

/// The lowercase form of an optional text.
pub open spec fn option_lowercase(t: Option<Seq<char>>) -> Option<Seq<char>> {
    match t {
        Some(t) => Some(lowercase_of(t)),
        None => None,
    }
}

/// The ASCII lowercase form of an optional text.
pub open spec fn option_ascii_lower(t: Option<Seq<char>>) -> Option<Seq<char>> {
    match t {
        Some(t) => Some(ascii_lower(t)),
        None => None,
    }
}

/// Whether an optional text is absent or ASCII.
pub open spec fn option_is_ascii(t: Option<Seq<char>>) -> bool {
    match t {
        Some(t) => vstd::utf8::is_ascii_chars(t),
        None => true,
    }
}

/// The NEL classification of a reqwest failure: as
/// `reqwest_failure_class_lowered` over the lowercase form of the deepest
/// error's text.
pub open spec fn reqwest_failure_class(
    hyper_class: Option<(Seq<char>, Seq<char>)>,
    tls_source: Option<TlsFailure>,
    io_class: Option<(Seq<char>, Seq<char>)>,
    timeout: bool,
    connect: bool,
    deepest_text: Option<Seq<char>>,
) -> (Seq<char>, Seq<char>) {
    reqwest_failure_class_lowered(
        hyper_class,
        tls_source,
        io_class,
        timeout,
        connect,
        option_lowercase(deepest_text),
    )
}

/// Classifies a reqwest failure given what a walk of its chain of causes
/// found (the classification of a hyper failure, a TLS failure, the
/// classification of an I/O failure, the text of the deepest cause), and
/// whether reqwest reports it as a timeout and as a connect failure.
pub fn classify_reqwest_failure(
    hyper_class: Option<Error>,
    tls_source: Option<TlsFailure>,
    io_class: Option<Error>,
    timeout: bool,
    connect: bool,
    deepest_text: Option<&str>,
) -> (e: Error)
    ensures
        e@ == reqwest_failure_class(
            option_view(hyper_class),
            tls_source,
            option_view(io_class),
            timeout,
            connect,
            option_text(deepest_text),
        ),
        hyper_class is None && tls_source is None && io_class is None && timeout
            ==> e@ == ("tcp"@, "timed_out"@),
        hyper_class is None && tls_source is None && io_class is None && !timeout && connect
            ==> e@ == ("tcp"@, "failed"@),
        option_is_ascii(option_text(deepest_text)) ==> e@ == reqwest_failure_class_lowered(
            option_view(hyper_class),
            tls_source,
            option_view(io_class),
            timeout,
            connect,
            option_ascii_lower(option_text(deepest_text)),
        ),
{
    // Causes recognised structurally, in priority order.
    if let Some(e) = hyper_class {
        return e;
    }
    if let Some(f) = tls_source {
        return rustls_error_to_nel(&f);
    }
    if let Some(e) = io_class {
        return e;
    }
    // reqwest's own view of connector-phase failures.
    if timeout {
        return Error::new("tcp", "timed_out");
    }
    if connect {
        return Error::new("tcp", "failed");
    }
    // Native TLS stacks: match the wording of the deepest cause.
    if let Some(text) = deepest_text {
        if let Some(e) = classify_native_tls_text(text) {
            return e;
        }
    }
    Error::new("unknown", "")
}

/// Whether the chain of causes of a reqwest error holds reqwest's own
/// timeout marker or a hyper error that reports a timeout: a property of
/// the error value alone.
pub uninterp spec fn reqwest_timeout_sure_of(err: reqwest::Error) -> bool;

/// Whether the chain of causes of a reqwest error holds neither reqwest's
/// own timeout marker, nor a hyper error that reports a timeout, nor any
/// I/O error: a property of the error value alone.
pub uninterp spec fn reqwest_timeout_free_of(err: reqwest::Error) -> bool;

/// Calls `reqwest::Error::is_timeout`. Claimed: it answers `true` when
/// `reqwest_timeout_sure_of` holds of the error, and `false` when
/// `reqwest_timeout_free_of` does. Its answer otherwise rests on the kinds
/// of I/O errors in the chain, which std decodes per platform, and is left
/// unsaid.
#[verifier::external_body]
fn reqwest_is_timeout(err: &reqwest::Error) -> (b: bool)
    ensures
        reqwest_timeout_sure_of(*err) ==> b,
        reqwest_timeout_free_of(*err) ==> !b,
{
    err.is_timeout()
}

/// What `reqwest::Error::is_connect` answers for an error: whether a cause
/// in its own chain is a connect failure, a property of the error alone.
pub uninterp spec fn reqwest_connect_of(err: reqwest::Error) -> bool;

/// Calls `reqwest::Error::is_connect`. Claimed: the answer is
/// `reqwest_connect_of` of the error.
#[verifier::external_body]
fn reqwest_is_connect(err: &reqwest::Error) -> (b: bool)
    ensures
        b == reqwest_connect_of(*err),
{
    err.is_connect()
}

/// Classifies a reqwest failure given what a walk of its chain of causes
/// found; whether it is a timeout or a connect failure is read from it.
/// When its chain holds reqwest's timeout marker or a hyper timeout, it is
/// a timeout; when it holds none of these and no I/O error, it is not;
/// otherwise whether it is one is left open: reqwest then decides it from
/// the kinds of the I/O errors in its chain, which std decodes per
/// platform.
pub fn from_reqwest_error(
    err: &reqwest::Error,
    hyper_class: Option<Error>,
    tls_source: Option<TlsFailure>,
    io_class: Option<Error>,
    deepest_text: Option<&str>,
) -> (e: Error)
    ensures
        exists|timeout: bool|
            e@ == reqwest_failure_class(
                option_view(hyper_class),
                tls_source,
                option_view(io_class),
                timeout,
                reqwest_connect_of(*err),
                option_text(deepest_text),
            ),
        reqwest_timeout_sure_of(*err) ==> e@ == reqwest_failure_class(
            option_view(hyper_class),
            tls_source,
            option_view(io_class),
            true,
            reqwest_connect_of(*err),
            option_text(deepest_text),
        ),        reqwest_timeout_free_of(*err) ==> e@ == reqwest_failure_class(
            option_view(hyper_class),
            tls_source,
            option_view(io_class),
            false,
            reqwest_connect_of(*err),
            option_text(deepest_text),
        ),
{
    let timeout = reqwest_is_timeout(err);
    let connect = reqwest_is_connect(err);
    classify_reqwest_failure(hyper_class, tls_source, io_class, timeout, connect, deepest_text)
}

} // verus!
