//! The calls into `reqwest`. Nothing in this file is proved: each contract
//! below is a claim about the outside crate, and every other module rests on
//! these claims.

use vstd::prelude::*;
use vstd::string::StringSliceAdditionalSpecFns;

use crate::anchor::holds_encrypted_block;

verus! {

/// `reqwest::Certificate`: a parsed X.509 certificate, opaque here.
#[verifier::external_type_specification]
#[verifier::external_body]
pub struct ExCertificate(reqwest::Certificate);

/// `reqwest::Identity`: a private key with its certificates, opaque here.
#[verifier::external_type_specification]
#[verifier::external_body]
pub struct ExIdentity(reqwest::Identity);

/// `reqwest::Error`: any failure that reqwest reports, opaque here.
#[verifier::external_type_specification]
#[verifier::external_body]
pub struct ExError(reqwest::Error);

/// `reqwest::ClientBuilder`: the settings of a client in the making.
#[verifier::external_type_specification]
#[verifier::external_body]
pub struct ExClientBuilder(reqwest::ClientBuilder);

/// `reqwest::Client`: a client that requests are sent on.
#[verifier::external_type_specification]
#[verifier::external_body]
pub struct ExClient(reqwest::Client);

/// The longest input that the PEM reader behind `Certificate::from_pem` takes
/// without panicking: it hands the length on as a C `int`.
pub const PEM_INPUT_LIMIT: usize = 0x7fff_ffff;

/// The PEM bytes that a certificate keeps of what it was parsed from.
pub uninterp spec fn parsed_from(certificate: reqwest::Certificate) -> Seq<u8>;

/// Whether a failure arose while the connection was set up, as
/// `reqwest::Error::is_connect` tells.
pub uninterp spec fn arose_connecting(error: reqwest::Error) -> bool;

/// Whether a request was refused before anything was sent, as
/// `reqwest::Error::is_builder` tells.
pub uninterp spec fn refused_unsent(error: reqwest::Error) -> bool;

/// The `Debug` text of what a failure was caused by; empty where it has no
/// cause.
pub uninterp spec fn cause_text(error: reqwest::Error) -> Seq<char>;

/// Whether `reqwest::Identity::from_pem` finds, in these bytes, the PEM block
/// of a private key and at least one PEM block of a certificate. It reads the
/// framing and the base64 only: what is inside the blocks is not parsed.
pub uninterp spec fn pem_identity_accepted(pem: Seq<u8>) -> bool;

/// `reqwest::Certificate::from_pem`: parses one PEM encoded certificate.
/// Nothing is claimed of when it succeeds: the platform's TLS library decides
/// what it accepts. A certificate that it gives keeps a copy of the bytes.
/// Left out are inputs longer than a C `int` can count, on which the reader
/// panics, and inputs with the header of an encrypted block inside a block:
/// the reader is given no pass phrase and would wait for one on the
/// terminal.
#[verifier::external_body]
pub(crate) fn certificate_from_pem(pem: &[u8]) -> (r: Result<
    reqwest::Certificate,
    reqwest::Error,
>)
    requires
        pem@.len() <= PEM_INPUT_LIMIT,
        !holds_encrypted_block(pem@),
    ensures
        r matches Ok(certificate) ==> parsed_from(certificate) == pem@,
{
    reqwest::Certificate::from_pem(pem)
}

/// `reqwest::Identity::from_pkcs12_der`: opens a PKCS #12 archive with a
/// password. Nothing is claimed of the outcome: which archives open depends
/// also on the ciphers that the installed TLS library offers. A password with
/// a zero byte in it is left out, since the call panics on it.
#[verifier::external_body]
pub(crate) fn identity_from_pkcs12_der(archive: &[u8], password: &str) -> (r: Result<
    reqwest::Identity,
    reqwest::Error,
>)
    requires
        !password.spec_bytes().contains(0u8),
{
    reqwest::Identity::from_pkcs12_der(archive, password)
}

/// `reqwest::Identity::from_pem`: looks for the PEM blocks of a private key
/// and of its certificates in one buffer. Claimed: whether it succeeds
/// depends on the bytes alone.
#[verifier::external_body]
pub(crate) fn identity_from_pem(pem: &[u8]) -> (r: Result<reqwest::Identity, reqwest::Error>)
    ensures
        r.is_ok() == pem_identity_accepted(pem@),
{
    reqwest::Identity::from_pem(pem)
}

/// `std::error::Error::source` of a `reqwest::Error`, as `Debug` text: what
/// the failure was caused by, without the request's address, which only the
/// outermost error carries. Empty where there is no cause. Claimed: the text
/// depends on the error alone.
#[verifier::external_body]
pub(crate) fn error_text(error: &reqwest::Error) -> (text: String)
    ensures
        text@ == cause_text(*error),
{
    match std::error::Error::source(error) {
        Some(cause) => format!("{:?}", cause),
        None => String::new(),
    }
}

/// What a client builder has been told, of all that this library tells one.
pub struct Told {
    /// Whether rustls was selected, and not the platform's TLS.
    pub rustls: bool,
    /// Whether the roots that come with the platform are trusted.
    pub platform_roots: bool,
    /// The roots added by hand, in the order they were added.
    pub roots: Seq<reqwest::Certificate>,
    /// The identity presented to servers.
    pub identity: Option<reqwest::Identity>,
    /// Whether requests to anything but `https` are refused.
    pub https_only: bool,
}

/// What the builder holds in the fields `tls`, `tls_built_in_root_certs`,
/// `root_certs`, `identity` and `https_only` of its configuration.
pub uninterp spec fn told(builder: reqwest::ClientBuilder) -> Told;

/// What the builder held that this client was built from.
pub uninterp spec fn told_to(client: reqwest::Client) -> Told;

/// `reqwest::Client::builder`: a builder with reqwest's defaults: the
/// platform's roots trusted, none added, no identity, plaintext allowed.
/// Which backend it starts with depends on how reqwest was compiled, and is
/// not claimed.
pub assume_specification[ reqwest::Client::builder ]() -> (r: reqwest::ClientBuilder)
    ensures
        told(r).platform_roots,
        told(r).roots == Seq::<reqwest::Certificate>::empty(),
        told(r).identity is None,
        !told(r).https_only,
;

/// `reqwest::ClientBuilder::use_native_tls`: selects the platform's TLS and
/// changes nothing else.
pub assume_specification[ reqwest::ClientBuilder::use_native_tls ](
    builder: reqwest::ClientBuilder,
) -> (r: reqwest::ClientBuilder)
    ensures
        told(r) == (Told { rustls: false, ..told(builder) }),
;

/// `reqwest::ClientBuilder::use_rustls_tls`: selects rustls and changes
/// nothing else.
pub assume_specification[ reqwest::ClientBuilder::use_rustls_tls ](
    builder: reqwest::ClientBuilder,
) -> (r: reqwest::ClientBuilder)
    ensures
        told(r) == (Told { rustls: true, ..told(builder) }),
;

/// `reqwest::ClientBuilder::tls_built_in_root_certs`: sets whether the roots
/// that come with the platform are trusted, and changes nothing else.
pub assume_specification[ reqwest::ClientBuilder::tls_built_in_root_certs ](
    builder: reqwest::ClientBuilder,
    tls_built_in_root_certs: bool,
) -> (r: reqwest::ClientBuilder)
    ensures
        told(r) == (Told { platform_roots: tls_built_in_root_certs, ..told(builder) }),
;

/// `reqwest::ClientBuilder::add_root_certificate`: adds one trusted root
/// after those already added, and changes nothing else.
pub assume_specification[ reqwest::ClientBuilder::add_root_certificate ](
    builder: reqwest::ClientBuilder,
    cert: reqwest::Certificate,
) -> (r: reqwest::ClientBuilder)
    ensures
        told(r) == (Told { roots: told(builder).roots.push(cert), ..told(builder) }),
;

/// `reqwest::ClientBuilder::identity`: sets the identity presented to
/// servers, and changes nothing else.
pub assume_specification[ reqwest::ClientBuilder::identity ](
    builder: reqwest::ClientBuilder,
    identity: reqwest::Identity,
) -> (r: reqwest::ClientBuilder)
    ensures
        told(r) == (Told { identity: Some(identity), ..told(builder) }),
;

/// `reqwest::ClientBuilder::https_only`: sets whether requests to anything
/// but `https` are refused, and changes nothing else.
pub assume_specification[ reqwest::ClientBuilder::https_only ](
    builder: reqwest::ClientBuilder,
    enabled: bool,
) -> (r: reqwest::ClientBuilder)
    ensures
        told(r) == (Told { https_only: enabled, ..told(builder) }),
;

/// `reqwest::ClientBuilder::build`: sets up the TLS backend with what the
/// builder holds. It may fail, and nothing is claimed of when; a client that
/// it gives was built from what the builder held.
pub assume_specification[ reqwest::ClientBuilder::build ](builder: reqwest::ClientBuilder) -> (r:
    Result<reqwest::Client, reqwest::Error>)
    ensures
        r matches Ok(client) ==> told_to(client) == told(builder),
;

/// `reqwest::Error::is_connect`: whether the failure arose while the
/// connection was set up. Claimed: the answer depends on the error alone.
pub assume_specification[ reqwest::Error::is_connect ](error: &reqwest::Error) -> (r: bool)
    ensures
        r == arose_connecting(*error),
;

/// `reqwest::Error::is_builder`: whether the request was refused while it
/// was put together, before anything was sent. Claimed: the answer depends
/// on the error alone.
pub assume_specification[ reqwest::Error::is_builder ](error: &reqwest::Error) -> (r: bool)
    ensures
        r == refused_unsent(*error),
;

/// `Clone` of `reqwest::Certificate`: a certificate equal to the one given.
#[verifier::external_body]
pub(crate) fn clone_certificate(certificate: &reqwest::Certificate) -> (copy:
    reqwest::Certificate)
    ensures
        copy == *certificate,
{
    certificate.clone()
}

} // verus!
