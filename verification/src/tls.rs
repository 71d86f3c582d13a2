//! TLS failures as the rustls stack reports them, and their NEL subclasses.

use vstd::prelude::*;
use crate::error::Error;

verus! {

/// The kinds of certificate failure that rustls reports
/// (`rustls::CertificateError`), one variant for each of its variants;
/// `Unlisted` stands for a variant added after this list was written.
#[derive(Debug, Clone, Copy, PartialEq, Eq)]
pub enum CertFailure {
    BadEncoding,
    Expired,
    ExpiredContext,
    NotValidYet,
    NotValidYetContext,
    Revoked,
    UnhandledCriticalExtension,
    UnknownIssuer,
    UnknownRevocationStatus,
    ExpiredRevocationList,
    ExpiredRevocationListContext,
    BadSignature,
    UnsupportedSignatureAlgorithm,
    UnsupportedSignatureAlgorithmContext,
    UnsupportedSignatureAlgorithmForPublicKeyContext,
    NotValidForName,
    NotValidForNameContext,
    InvalidPurpose,
    InvalidPurposeContext,
    InvalidOcspResponse,
    ApplicationVerificationFailure,
    Other,
    Unlisted,
}

/// The kinds of failure that rustls reports (`rustls::Error`), one variant
/// for each of its variants, with the certificate failure kept;
/// `Unlisted` stands for a variant added after this list was written.
#[derive(Debug, Clone, Copy, PartialEq, Eq)]
pub enum TlsFailure {
    InappropriateMessage,
    InappropriateHandshakeMessage,
    InvalidEncryptedClientHello,
    InvalidMessage,
    NoCertificatesPresented,
    UnsupportedNameType,
    DecryptError,
    EncryptError,
    PeerIncompatible,
    PeerMisbehaved,
    AlertReceived,
    InvalidCertificate(CertFailure),
    InvalidCertRevocationList,
    General,
    FailedToGetCurrentTime,
    FailedToGetRandomBytes,
    HandshakeNotComplete,
    PeerSentOversizedRecord,
    NoApplicationProtocol,
    BadMaxFragmentSize,
    InconsistentKeys,
    Other,
    Unlisted,
}

/// The NEL subclass of a certificate failure.
pub open spec fn cert_subclass(c: CertFailure) -> Seq<char> {
    match c {
        CertFailure::NotValidForName | CertFailure::NotValidForNameContext => "cert.name_invalid"@,
        CertFailure::Expired | CertFailure::ExpiredContext | CertFailure::NotValidYet
        | CertFailure::NotValidYetContext => "cert.date_invalid"@,
        CertFailure::UnknownIssuer => "cert.authority_invalid"@,
        CertFailure::Revoked | CertFailure::UnknownRevocationStatus
        | CertFailure::ExpiredRevocationList
        | CertFailure::ExpiredRevocationListContext => "cert.revoked"@,
        _ => "cert.invalid"@,
    }
}

/// The NEL classification of a TLS failure: always of class `tls`; a
/// certificate failure by its kind, a revocation-list failure as
/// `cert.revoked`, anything else as `protocol.error`.
pub open spec fn tls_failure_class(f: TlsFailure) -> (Seq<char>, Seq<char>) {
    match f {
        TlsFailure::InvalidCertificate(c) => ("tls"@, cert_subclass(c)),
        TlsFailure::InvalidCertRevocationList => ("tls"@, "cert.revoked"@),
        _ => ("tls"@, "protocol.error"@),
    }
}

/// The NEL subclass of a certificate failure reported by rustls.
fn cert_failure_subclass(c: CertFailure) -> (s: &'static str)
    ensures
        s@ == cert_subclass(c),
{
    match c {
        CertFailure::NotValidForName | CertFailure::NotValidForNameContext => "cert.name_invalid",
        CertFailure::Expired | CertFailure::ExpiredContext | CertFailure::NotValidYet
        | CertFailure::NotValidYetContext => "cert.date_invalid",
        CertFailure::UnknownIssuer => "cert.authority_invalid",
        // Revocation-adjacent: the certificate itself may be fine but its
        // revocation status cannot be confirmed; `cert.revoked` is the
        // closest NEL subclass operators already alert on.
        CertFailure::Revoked | CertFailure::UnknownRevocationStatus
        | CertFailure::ExpiredRevocationList
        | CertFailure::ExpiredRevocationListContext => "cert.revoked",
        // Everything else, the deprecated bare unsupported-signature
        // variant and unlisted future variants included.
        _ => "cert.invalid",
    }
}

/// Classifies a failure reported by rustls.
pub fn rustls_error_to_nel(err: &TlsFailure) -> (e: Error)
    ensures
        e@ == tls_failure_class(*err),
        e.class@ == "tls"@,
        *err is InvalidCertRevocationList ==> e.subclass@ == "cert.revoked"@,
        !(*err is InvalidCertificate) && !(*err is InvalidCertRevocationList)
            ==> e.subclass@ == "protocol.error"@,
{
    match err {
        TlsFailure::InvalidCertificate(c) => Error::new("tls", cert_failure_subclass(*c)),
        // Top-level revocation-list failures: the certificate's revocation
        // status cannot be confirmed either.
        TlsFailure::InvalidCertRevocationList => Error::new("tls", "cert.revoked"),
        // Protocol-level failures, handshake issues, and unlisted variants.
        _ => Error::new("tls", "protocol.error"),
    }
}

} // verus!
