//! Properties of the classification as a whole.

use vstd::prelude::*;
use crate::error::{phase_of, wire_form};
use crate::http::{hyper_failure_class, native_tls_rules, reqwest_failure_class, HyperFlags};
use crate::io::{io_failure_class, io_text_rules, IoKind};
use crate::text::{
    ascii_lower, ascii_lower_char, ascii_upper, ascii_upper_char, contains_any, contains_text,
    first_match, lowercase_of, occurs_at,
};
use vstd::utf8::is_ascii_chars;
use crate::tls::{tls_failure_class, CertFailure, TlsFailure};

verus! {

/// A NEL error type: one of the classes `dns`, `tcp`, `tls`, `http` with
/// a subclass, or the classes `abandoned` and `unknown`, which have an
/// empty subclass.
pub open spec fn is_nel_type(c: (Seq<char>, Seq<char>)) -> bool {
    ||| c.0 == "dns"@
    ||| c.0 == "tcp"@
    ||| c.0 == "tls"@
    ||| c.0 == "http"@
    ||| (c.0 == "abandoned"@ && c.1 == ""@)
    ||| (c.0 == "unknown"@ && c.1 == ""@)
}

proof fn reveal_class_names()
    ensures
        "dns"@ == seq!['d', 'n', 's'],
        "tcp"@ == seq!['t', 'c', 'p'],
        "udp"@ == seq!['u', 'd', 'p'],
        "tls"@ == seq!['t', 'l', 's'],
        "http"@ == seq!['h', 't', 't', 'p'],
        "abandoned"@ == seq!['a', 'b', 'a', 'n', 'd', 'o', 'n', 'e', 'd'],
        "unknown"@ == seq!['u', 'n', 'k', 'n', 'o', 'w', 'n'],
        "connection"@ == seq!['c', 'o', 'n', 'n', 'e', 'c', 't', 'i', 'o', 'n'],
        "application"@ == seq!['a', 'p', 'p', 'l', 'i', 'c', 'a', 't', 'i', 'o', 'n'],
        ""@ == Seq::<char>::empty(),
{
    reveal_strlit("dns");
    reveal_strlit("tcp");
    reveal_strlit("udp");
    reveal_strlit("tls");
    reveal_strlit("http");
    reveal_strlit("abandoned");
    reveal_strlit("unknown");
    reveal_strlit("connection");
    reveal_strlit("application");
    reveal_strlit("");
}

/// The phase of a NEL error type is `unknown` exactly when its class is,
/// and its wire form is `unknown` exactly when its class is.
pub proof fn nel_type_phase_and_wire_form(c: (Seq<char>, Seq<char>))
    requires
        is_nel_type(c),
    ensures
        (phase_of(c.0) == "unknown"@) <==> (c.0 == "unknown"@),
        (wire_form(c.0, c.1) == "unknown"@) <==> (c.0 == "unknown"@),
        c.0 == "dns"@ ==> phase_of(c.0) == "dns"@,
        c.0 == "tcp"@ || c.0 == "tls"@ ==> phase_of(c.0) == "connection"@,
        c.0 == "http"@ || c.0 == "abandoned"@ ==> phase_of(c.0) == "application"@,
{
    reveal_class_names();
    if c.0 != "unknown"@ && c.0 != "abandoned"@ {
        // `unknown` holds no dot, and the wire form holds one after the class.
        reveal_strlit(".");
        let w = c.0 + "."@ + c.1;
        assert(w[c.0.len() as int] == '.');
    }
}

/// A classification by a wording table comes from the first rule of the
/// table with a needle that occurs in the text: that rule's class and
/// subclass; no earlier rule has a needle in the text.
pub proof fn first_match_picks_first_matching_rule(
    rules: Seq<(Seq<Seq<char>>, Seq<char>, Seq<char>)>,
    text: Seq<char>,
)
    ensures
        first_match(rules, text) is Some ==> exists|i: int|
            0 <= i < rules.len() && contains_any(text, #[trigger] rules[i].0)
                && first_match(rules, text) == Some((rules[i].1, rules[i].2))
                && forall|j: int| 0 <= j < i ==> !contains_any(text, #[trigger] rules[j].0),
        first_match(rules, text) is None ==> forall|j: int|
            0 <= j < rules.len() ==> !contains_any(text, #[trigger] rules[j].0),
    decreases rules.len(),
{
    if rules.len() > 0 {
        let rest = rules.drop_first();
        first_match_picks_first_matching_rule(rest, text);
        if !contains_any(text, rules[0].0) {
            if first_match(rules, text) is Some {
                let k = choose|k: int|
                    0 <= k < rest.len() && contains_any(text, #[trigger] rest[k].0)
                        && first_match(rest, text) == Some((rest[k].1, rest[k].2))
                        && forall|j: int| 0 <= j < k ==> !contains_any(text, #[trigger] rest[j].0);
                assert(rules[k + 1] == rest[k]);
                assert forall|j: int| 0 <= j < k + 1 implies !contains_any(text, #[trigger] rules[j].0) by {
                    if j > 0 {
                        assert(rules[j] == rest[j - 1]);
                    }
                }
            } else {
                assert forall|j: int| 0 <= j < rules.len() implies !contains_any(text, #[trigger] rules[j].0) by {
                    if j > 0 {
                        assert(rules[j] == rest[j - 1]);
                    }
                }
            }
        }
    }
}

/// Every TLS failure classifies as a NEL error type of class `tls`, which
/// happens in the `connection` phase and is written `tls.<subclass>`.
pub proof fn tls_failures_are_connection_failures(f: TlsFailure)
    ensures
        is_nel_type(tls_failure_class(f)),
        tls_failure_class(f).0 == "tls"@,
        phase_of(tls_failure_class(f).0) == "connection"@,
        wire_form(tls_failure_class(f).0, tls_failure_class(f).1) == "tls"@ + "."@ + tls_failure_class(f).1,
{
    reveal_class_names();
}

/// Every classification of a wording table whose rules all assign NEL
/// error types is a NEL error type.
proof fn table_gives_nel_types(rules: Seq<(Seq<Seq<char>>, Seq<char>, Seq<char>)>, text: Seq<char>)
    requires
        forall|i: int| 0 <= i < rules.len() ==> is_nel_type((#[trigger] rules[i].1, rules[i].2)),
    ensures
        first_match(rules, text) is Some ==> is_nel_type(first_match(rules, text).unwrap()),
{
    first_match_picks_first_matching_rule(rules, text);
}

/// Both wording tables assign NEL error types only.
proof fn wording_tables_assign_nel_types()
    ensures
        forall|i: int| 0 <= i < io_text_rules().len()
            ==> is_nel_type((#[trigger] io_text_rules()[i].1, io_text_rules()[i].2)),
        forall|i: int| 0 <= i < native_tls_rules().len()
            ==> is_nel_type((#[trigger] native_tls_rules()[i].1, native_tls_rules()[i].2)),
{
}

/// Every classification of an I/O failure is a NEL error type; its class
/// is `unknown` only with an empty subclass.
pub proof fn io_failures_classify_as_nel_types(
    kind: IoKind,
    tls_source: Option<TlsFailure>,
    msg: Seq<char>,
    has_inner: bool,
)
    ensures
        is_nel_type(io_failure_class(kind, tls_source, msg, has_inner)),
{
    wording_tables_assign_nel_types();
    table_gives_nel_types(io_text_rules(), lowercase_of(msg));
    if let Some(f) = tls_source {
        tls_failures_are_connection_failures(f);
    }
}

/// Every classification of a hyper failure is a NEL error type, when the
/// classification of the I/O failure behind it (if any) is one.
pub proof fn hyper_failures_classify_as_nel_types(
    io_class: Option<(Seq<char>, Seq<char>)>,
    flags: HyperFlags,
)
    requires
        io_class is Some ==> is_nel_type(io_class.unwrap()),
    ensures
        is_nel_type(hyper_failure_class(io_class, flags)),
{
}

/// Every classification of a reqwest failure is a NEL error type, when
/// the classifications of the hyper and I/O failures behind it (if any)
/// are ones.
pub proof fn reqwest_failures_classify_as_nel_types(
    hyper_class: Option<(Seq<char>, Seq<char>)>,
    tls_source: Option<TlsFailure>,
    io_class: Option<(Seq<char>, Seq<char>)>,
    timeout: bool,
    connect: bool,
    deepest_text: Option<Seq<char>>,
)
    requires
        hyper_class is Some ==> is_nel_type(hyper_class.unwrap()),
        io_class is Some ==> is_nel_type(io_class.unwrap()),
    ensures
        is_nel_type(
            reqwest_failure_class(hyper_class, tls_source, io_class, timeout, connect, deepest_text),
        ),
{
    wording_tables_assign_nel_types();
    if let Some(t) = deepest_text {
        table_gives_nel_types(native_tls_rules(), lowercase_of(t));
    }
    if let Some(f) = tls_source {
        tls_failures_are_connection_failures(f);
    }
}

/// The certificate-expiry wordings of both fallbacks.
pub open spec fn expiry_wordings() -> Seq<Seq<char>> {
    seq!["certificate has expired"@, "certificate is expired"@, "expired certificate"@]
}

/// The I/O fallback classifies a message as an expired certificate only
/// when its lowercase form holds one of the certificate-expiry wordings:
/// a bare "expired" (a session, cookie or lease expiring) does not.
pub proof fn io_expiry_needs_certificate_wording(msg: Seq<char>)
    ensures
        first_match(io_text_rules(), lowercase_of(msg)) == Some(("tls"@, "cert.date_invalid"@))
            ==> contains_any(lowercase_of(msg), expiry_wordings()),
{
    let t = lowercase_of(msg);
    first_match_picks_first_matching_rule(io_text_rules(), t);
    reveal_class_names();
    assert(io_text_rules()[2].0 =~= expiry_wordings());
}

/// The native TLS fallback classifies a text as an expired certificate
/// only when its lowercase form holds one of the certificate-expiry
/// wordings.
pub proof fn native_tls_expiry_needs_certificate_wording(text: Seq<char>)
    ensures
        first_match(native_tls_rules(), lowercase_of(text)) == Some(("tls"@, "cert.date_invalid"@))
            ==> contains_any(lowercase_of(text), expiry_wordings()),
{
    let t = lowercase_of(text);
    first_match_picks_first_matching_rule(native_tls_rules(), t);
    reveal_strlit("cert.date_invalid");
    reveal_strlit("cert.name_invalid");
    reveal_strlit("cert.authority_invalid");
    assert(native_tls_rules()[1].0 =~= seq![
        expiry_wordings()[2],
        expiry_wordings()[0],
        expiry_wordings()[1],
    ]);
    if first_match(native_tls_rules(), t) == Some(("tls"@, "cert.date_invalid"@)) {
        let rules = native_tls_rules();
        let i = choose|i: int|
            0 <= i < rules.len() && contains_any(t, #[trigger] rules[i].0)
                && first_match(rules, t) == Some((rules[i].1, rules[i].2))
                && forall|j: int| 0 <= j < i ==> !contains_any(t, #[trigger] rules[j].0);
        assert(rules[0].2[5] != rules[1].2[5]);
        assert(rules[2].2[5] != rules[1].2[5]);
        assert(i == 1);
        let j = choose|j: int|
            0 <= j < native_tls_rules()[1].0.len()
                && crate::text::contains_text(t, #[trigger] native_tls_rules()[1].0[j]);
        assert(crate::text::contains_text(t, expiry_wordings()[(j + 2) % 3]));
    }
}

/// A TLS failure found inside an I/O failure of no listed kind decides its
/// classification, whatever the message and inner error.
pub proof fn tls_source_decides_io_class(
    f: TlsFailure,
    msg1: Seq<char>,
    has_inner1: bool,
    msg2: Seq<char>,
    has_inner2: bool,
)
    ensures
        io_failure_class(IoKind::OtherKind, Some(f), msg1, has_inner1) == tls_failure_class(f),
        io_failure_class(IoKind::OtherKind, Some(f), msg1, has_inner1) == io_failure_class(
            IoKind::OtherKind,
            Some(f),
            msg2,
            has_inner2,
        ),
{
}

/// The wording fallbacks ignore case: messages with the same lowercase
/// form classify alike.
pub proof fn wording_fallbacks_ignore_case(msg1: Seq<char>, msg2: Seq<char>)
    requires
        lowercase_of(msg1) == lowercase_of(msg2),
    ensures
        first_match(io_text_rules(), lowercase_of(msg1)) == first_match(io_text_rules(), lowercase_of(msg2)),
        first_match(native_tls_rules(), lowercase_of(msg1)) == first_match(native_tls_rules(), lowercase_of(msg2)),
{
}

/// Changing the ASCII case of a character does not change its ASCII
/// lowercase, and keeps it ASCII.
proof fn ascii_case_of_char(c: char)
    requires
        '\0' <= c <= '\u{7f}',
    ensures
        '\0' <= ascii_upper_char(c) <= '\u{7f}',
        '\0' <= ascii_lower_char(c) <= '\u{7f}',
        ascii_lower_char(ascii_upper_char(c)) == ascii_lower_char(c),
        ascii_lower_char(ascii_lower_char(c)) == ascii_lower_char(c),
{
}

/// The wording fallbacks ignore ASCII case: an ASCII text, written in
/// upper or in lower case, is still ASCII and has the same ASCII lowercase
/// form, so both tables classify it alike.
pub proof fn wording_fallbacks_ignore_ascii_case(m: Seq<char>)
    requires
        is_ascii_chars(m),
    ensures
        is_ascii_chars(ascii_upper(m)),
        is_ascii_chars(ascii_lower(m)),
        first_match(io_text_rules(), ascii_lower(ascii_upper(m))) == first_match(io_text_rules(), ascii_lower(m)),
        first_match(io_text_rules(), ascii_lower(ascii_lower(m))) == first_match(io_text_rules(), ascii_lower(m)),
        first_match(native_tls_rules(), ascii_lower(ascii_upper(m))) == first_match(native_tls_rules(), ascii_lower(m)),
        first_match(native_tls_rules(), ascii_lower(ascii_lower(m))) == first_match(native_tls_rules(), ascii_lower(m)),
{
    assert forall|i: int| 0 <= i < m.len() implies '\0' <= #[trigger] ascii_upper(m)[i] <= '\u{7f}'
        && '\0' <= ascii_lower(m)[i] <= '\u{7f}' by {
        ascii_case_of_char(m[i]);
    }
    assert forall|i: int| 0 <= i < m.len() implies #[trigger] ascii_lower(ascii_upper(m))[i]
        == ascii_lower(m)[i] && ascii_lower(ascii_lower(m))[i] == ascii_lower(m)[i] by {
        ascii_case_of_char(m[i]);
    }
    assert(ascii_lower(ascii_upper(m)) =~= ascii_lower(m));
    assert(ascii_lower(ascii_lower(m)) =~= ascii_lower(m));
}

/// A wording that occurs in a text occurs in the text with more text
/// around it.
proof fn occurrence_survives_surrounding(a: Seq<char>, x: Seq<char>, b: Seq<char>, n: Seq<char>)
    requires
        contains_text(x, n),
    ensures
        contains_text(a + x + b, n),
{
    let i = choose|i: int| occurs_at(x, n, i);
    let y = a + x + b;
    assert(y.subrange(a.len() + i, a.len() + i + n.len()) =~= x.subrange(i, i + n.len()));
    assert(occurs_at(y, n, a.len() + i));
}

/// A text that a wording table classifies stays classified with more text
/// around it.
pub proof fn surrounding_text_keeps_a_match(
    rules: Seq<(Seq<Seq<char>>, Seq<char>, Seq<char>)>,
    a: Seq<char>,
    x: Seq<char>,
    b: Seq<char>,
)
    ensures
        first_match(rules, x) is Some ==> first_match(rules, a + x + b) is Some,
{
    first_match_picks_first_matching_rule(rules, x);
    first_match_picks_first_matching_rule(rules, a + x + b);
    if first_match(rules, x) is Some {
        let i = choose|i: int|
            0 <= i < rules.len() && contains_any(x, #[trigger] rules[i].0)
                && first_match(rules, x) == Some((rules[i].1, rules[i].2))
                && forall|j: int| 0 <= j < i ==> !contains_any(x, #[trigger] rules[j].0);
        let j = choose|j: int| 0 <= j < rules[i].0.len() && contains_text(x, #[trigger] rules[i].0[j]);
        occurrence_survives_surrounding(a, x, b, rules[i].0[j]);
        assert(contains_any(a + x + b, rules[i].0));
    }
}

/// For ASCII texts, a text that either wording fallback classifies stays
/// classified with more ASCII text around it.
pub proof fn ascii_surrounding_text_keeps_a_match(a: Seq<char>, t: Seq<char>, b: Seq<char>)
    requires
        is_ascii_chars(a),
        is_ascii_chars(t),
        is_ascii_chars(b),
    ensures
        is_ascii_chars(a + t + b),
        first_match(io_text_rules(), ascii_lower(t)) is Some
            ==> first_match(io_text_rules(), ascii_lower(a + t + b)) is Some,
        first_match(native_tls_rules(), ascii_lower(t)) is Some
            ==> first_match(native_tls_rules(), ascii_lower(a + t + b)) is Some,
{
    assert(ascii_lower(a + t + b) =~= ascii_lower(a) + ascii_lower(t) + ascii_lower(b));
    assert forall|i: int| 0 <= i < (a + t + b).len() implies '\0' <= #[trigger] (a + t + b)[i] <= '\u{7f}' by {
        if i < a.len() {
        } else if i < a.len() + t.len() {
            assert((a + t + b)[i] == t[i - a.len()]);
        } else {
            assert((a + t + b)[i] == b[i - a.len() - t.len()]);
        }
    }
    surrounding_text_keeps_a_match(io_text_rules(), ascii_lower(a), ascii_lower(t), ascii_lower(b));
    surrounding_text_keeps_a_match(native_tls_rules(), ascii_lower(a), ascii_lower(t), ascii_lower(b));
}

/// The DNS wordings of the I/O fallback.
pub open spec fn dns_wordings() -> Seq<Seq<char>> {
    seq!["no address"@, "name or service not known"@, "nodename nor servname provided"@, "no such host"@]
}

/// The unreachable-host wordings of the I/O fallback.
pub open spec fn unreachable_wordings() -> Seq<Seq<char>> {
    seq!["no route to host"@, "unreachable"@]
}

/// The name-mismatch wordings of the native TLS fallback.
pub open spec fn name_mismatch_wordings() -> Seq<Seq<char>> {
    seq!["hostname mismatch"@, "host name mismatch"@, "not valid for name"@, "cn name is invalid"@]
}

/// The untrusted-issuer wordings of the native TLS fallback.
pub open spec fn untrusted_issuer_wordings() -> Seq<Seq<char>> {
    seq![
        "self signed certificate"@,
        "self-signed certificate"@,
        "unknown issuer"@,
        "untrusted root"@,
        "unable to get local issuer"@,
    ]
}

/// `needles` and `other` hold the same wordings, in any order.
proof fn same_wordings_same_mentions(t: Seq<char>, needles: Seq<Seq<char>>, other: Seq<Seq<char>>)
    requires
        forall|i: int| 0 <= i < needles.len() ==> other.contains(#[trigger] needles[i]),
        forall|i: int| 0 <= i < other.len() ==> needles.contains(#[trigger] other[i]),
    ensures
        contains_any(t, needles) == contains_any(t, other),
{
    if contains_any(t, needles) {
        let j = choose|j: int| 0 <= j < needles.len() && contains_text(t, #[trigger] needles[j]);
        assert(other.contains(needles[j]));
        let k = choose|k: int| 0 <= k < other.len() && other[k] == needles[j];
        assert(contains_text(t, other[k]));
    }
    if contains_any(t, other) {
        let j = choose|j: int| 0 <= j < other.len() && contains_text(t, #[trigger] other[j]);
        assert(needles.contains(other[j]));
        let k = choose|k: int| 0 <= k < needles.len() && needles[k] == other[j];
        assert(contains_text(t, needles[k]));
    }
}

/// What the I/O wording fallback gives for a lowercased message: a DNS
/// wording (`no address`, `name or service not known`, `nodename nor
/// servname provided`, `no such host`) gives `dns.name_not_resolved`;
/// otherwise an unreachable wording (`no route to host`, `unreachable`)
/// gives `tcp.address_unreachable`; otherwise a certificate-expiry wording
/// gives `tls.cert.date_invalid`; otherwise nothing. In particular the
/// message classifies as `dns.name_not_resolved` exactly when it holds a
/// DNS wording.
pub proof fn io_wordings_classify(t: Seq<char>)
    ensures
        first_match(io_text_rules(), t) == (if contains_any(t, dns_wordings()) {
            Some(("dns"@, "name_not_resolved"@))
        } else if contains_any(t, unreachable_wordings()) {
            Some(("tcp"@, "address_unreachable"@))
        } else if contains_any(t, expiry_wordings()) {
            Some(("tls"@, "cert.date_invalid"@))
        } else {
            None
        }),
        (first_match(io_text_rules(), t) == Some(("dns"@, "name_not_resolved"@)))
            <==> contains_any(t, dns_wordings()),
{
    reveal_with_fuel(first_match, 4);
    let r = io_text_rules();
    assert(r[0].0 =~= dns_wordings());
    assert(r[1].0 =~= unreachable_wordings());
    assert(r[2].0 =~= expiry_wordings());
    assert(r.drop_first()[0] == r[1]);
    assert(r.drop_first().drop_first()[0] == r[2]);
    assert(r.drop_first().drop_first().drop_first().len() == 0);
    reveal_class_names();
}

/// What the native TLS wording fallback gives for a lowercased text: a
/// name-mismatch wording (`hostname mismatch`, `host name mismatch`, `not
/// valid for name`, `cn name is invalid`) gives `tls.cert.name_invalid`;
/// otherwise a certificate-expiry wording gives `tls.cert.date_invalid`;
/// otherwise an untrusted-issuer wording gives `tls.cert.authority_invalid`;
/// otherwise nothing. In particular the text classifies as
/// `tls.cert.name_invalid` exactly when it holds a name-mismatch wording.
pub proof fn native_tls_wordings_classify(t: Seq<char>)
    ensures
        first_match(native_tls_rules(), t) == (if contains_any(t, name_mismatch_wordings()) {
            Some(("tls"@, "cert.name_invalid"@))
        } else if contains_any(t, expiry_wordings()) {
            Some(("tls"@, "cert.date_invalid"@))
        } else if contains_any(t, untrusted_issuer_wordings()) {
            Some(("tls"@, "cert.authority_invalid"@))
        } else {
            None
        }),
        (first_match(native_tls_rules(), t) == Some(("tls"@, "cert.name_invalid"@)))
            <==> contains_any(t, name_mismatch_wordings()),
{
    reveal_with_fuel(first_match, 4);
    let r = native_tls_rules();
    assert(r[0].0 =~= name_mismatch_wordings());
    assert(r[2].0 =~= untrusted_issuer_wordings());
    assert(r[1].0[0] == expiry_wordings()[2] && r[1].0[1] == expiry_wordings()[0]
        && r[1].0[2] == expiry_wordings()[1]);
    same_wordings_same_mentions(t, r[1].0, expiry_wordings());
    assert(r.drop_first()[0] == r[1]);
    assert(r.drop_first().drop_first()[0] == r[2]);
    assert(r.drop_first().drop_first().drop_first().len() == 0);
    reveal_strlit("cert.date_invalid");
    reveal_strlit("cert.name_invalid");
    reveal_strlit("cert.authority_invalid");
    assert(r[1].2[5] != r[0].2[5]);
    assert(r[2].2[5] != r[0].2[5]);
}

/// An I/O failure of a listed kind classifies by its kind alone, whatever
/// TLS failure, message or inner error it has: `TimedOut` as
/// `tcp.timed_out`, `ConnectionReset` as `tcp.reset`, `ConnectionRefused`
/// as `tcp.refused`, `ConnectionAborted` as `tcp.aborted`.
pub proof fn io_kinds_classify(tls_source: Option<TlsFailure>, msg: Seq<char>, has_inner: bool)
    ensures
        io_failure_class(IoKind::TimedOut, tls_source, msg, has_inner) == ("tcp"@, "timed_out"@),
        io_failure_class(IoKind::ConnectionReset, tls_source, msg, has_inner) == ("tcp"@, "reset"@),
        io_failure_class(IoKind::ConnectionRefused, tls_source, msg, has_inner) == ("tcp"@, "refused"@),
        io_failure_class(IoKind::ConnectionAborted, tls_source, msg, has_inner) == ("tcp"@, "aborted"@),
{
}

/// A reqwest failure with no hyper, TLS or I/O cause found that reqwest
/// reports as a timeout classifies as `tcp.timed_out`, whatever its
/// connect flag and deepest text; one it reports as a connect failure but
/// not a timeout classifies as `tcp.failed`.
pub proof fn reqwest_flags_classify(connect: bool, deepest_text: Option<Seq<char>>)
    ensures
        reqwest_failure_class(None, None, None, true, connect, deepest_text) == ("tcp"@, "timed_out"@),
        reqwest_failure_class(None, None, None, false, true, deepest_text) == ("tcp"@, "failed"@),
{
}

/// Only certificate and revocation-list failures get a `cert.*`
/// subclass: every other TLS failure classifies as `tls.protocol.error`,
/// and a revocation-list failure as `tls.cert.revoked`.
pub proof fn non_certificate_tls_failures_are_protocol_errors(f: TlsFailure)
    ensures
        !(f is InvalidCertificate) && !(f is InvalidCertRevocationList)
            ==> tls_failure_class(f) == ("tls"@, "protocol.error"@),
        f is InvalidCertRevocationList ==> tls_failure_class(f) == ("tls"@, "cert.revoked"@),
{
}

/// Each certificate failure classifies by what it reports: a name mismatch
/// as `cert.name_invalid`, an expired or not-yet-valid certificate as
/// `cert.date_invalid`, an unknown issuer as `cert.authority_invalid`, a
/// revocation or unconfirmable revocation status as `cert.revoked`, and any
/// other certificate failure as `cert.invalid`.
pub proof fn certificate_failures_classify(c: CertFailure)
    ensures
        tls_failure_class(TlsFailure::InvalidCertificate(c)) == ("tls"@, match c {
            CertFailure::NotValidForName | CertFailure::NotValidForNameContext => "cert.name_invalid"@,
            CertFailure::Expired | CertFailure::ExpiredContext | CertFailure::NotValidYet
            | CertFailure::NotValidYetContext => "cert.date_invalid"@,
            CertFailure::UnknownIssuer => "cert.authority_invalid"@,
            CertFailure::Revoked | CertFailure::UnknownRevocationStatus
            | CertFailure::ExpiredRevocationList
            | CertFailure::ExpiredRevocationListContext => "cert.revoked"@,
            _ => "cert.invalid"@,
        }),
{
}

} // verus!
