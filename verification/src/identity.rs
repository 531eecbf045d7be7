//! Identities: the private key and certificate chain that a side presents.

use vstd::prelude::*;
use vstd::string::{StringExecFns, StringSliceAdditionalSpecFns};

use crate::bindings::{
    cause_text,
    error_text,
    identity_from_pem,
    identity_from_pkcs12_der,
    pem_identity_accepted,
};
use crate::error::{fails_with, TlsError};
use crate::text::{contains, occurrence_survives_padding, occurs_in};

verus! {

/// The two containers an identity can come in.
#[derive(Clone, Copy, Debug, PartialEq, Eq, Structural)]
pub enum IdentityFormat {
    /// One password-protected binary archive with key and certificate.
    Bundle,
    /// Certificate and key as separate PEM blocks.
    PemPair,
}

/// The container that a command line asks for: the word after the role,
/// `bundle` or `pem`. Without that word it is a bundle; any other word names
/// no container.
pub open spec fn format_selected(args: Seq<Seq<char>>) -> Option<IdentityFormat> {
    if args.len() < 3 || args[2] == "bundle"@ {
        Some(IdentityFormat::Bundle)
    } else if args[2] == "pem"@ {
        Some(IdentityFormat::PemPair)
    } else {
        None
    }
}

impl IdentityFormat {
    /// Reads the container from a command line. A word that names none is
    /// refused with `UnsupportedIdentityFormat`.
    pub fn select(args: &Vec<String>) -> (r: Result<IdentityFormat, TlsError>)
        ensures
            r == match format_selected(args@.map_values(|s: String| s@)) {
                Some(format) => Ok::<IdentityFormat, TlsError>(format),
                None => Err::<IdentityFormat, TlsError>(TlsError::UnsupportedIdentityFormat),
            },
    {
        if args.len() < 3 {
            return Ok(IdentityFormat::Bundle);
        }
        let bundle = String::from_str("bundle");
        let pem = String::from_str("pem");
        if args[2] == bundle {
            Ok(IdentityFormat::Bundle)
        } else if args[2] == pem {
            Ok(IdentityFormat::PemPair)
        } else {
            Err(TlsError::UnsupportedIdentityFormat)
        }
    }
}

/// The bytes an identity is decoded from, as read from its files.
pub enum IdentitySource {
    /// A PKCS #12 archive. The password is required; without one the archive
    /// is not opened at all.
    Bundle { archive: Vec<u8>, password: Option<String> },
    /// A certificate chain and its private key, both PEM encoded. A single
    /// file that holds both is given as `certificate`, with an empty `key`.
    PemPair { certificate: Vec<u8>, key: Vec<u8> },
}

impl IdentitySource {
    pub open spec fn format_spec(self) -> IdentityFormat {
        match self {
            IdentitySource::Bundle { .. } => IdentityFormat::Bundle,
            IdentitySource::PemPair { .. } => IdentityFormat::PemPair,
        }
    }

    /// The container this source is in.
    pub fn format(&self) -> (f: IdentityFormat)
        ensures
            f == self.format_spec(),
    {
        match self {
            IdentitySource::Bundle { .. } => IdentityFormat::Bundle,
            IdentitySource::PemPair { .. } => IdentityFormat::PemPair,
        }
    }
}

/// The line feed that ends a PEM line.
pub const LINE_FEED: u8 = 10;

/// The single PEM buffer made of a certificate block and a key block: the
/// two in this order, with a line feed between them where the first does not
/// end in one, so that the key's first line starts a line.
pub open spec fn pem_container(certificate: Seq<u8>, key: Seq<u8>) -> Seq<u8> {
    if certificate.len() > 0 && key.len() > 0 && certificate.last() != LINE_FEED {
        certificate + seq![LINE_FEED] + key
    } else {
        certificate + key
    }
}

/// Appends `more` to `out`.
fn append(out: &mut Vec<u8>, more: &[u8])
    ensures
        final(out)@ == old(out)@ + more@,
{
    let mut i: usize = 0;
    while i < more.len()
        invariant
            i <= more@.len(),
            out@ == old(out)@ + more@.subrange(0, i as int),
        decreases more@.len() - i,
    {
        out.push(more[i]);
        assert(more@.subrange(0, i + 1) == more@.subrange(0, i as int).push(more@[i as int]));
        i += 1;
    }
    assert(more@.subrange(0, more@.len() as int) == more@);
}

/// Joins a certificate block and a key block into one PEM buffer.
pub fn join_pem(certificate: &[u8], key: &[u8]) -> (joined: Vec<u8>)
    ensures
        joined@ == pem_container(certificate@, key@),
{
    let mut joined: Vec<u8> = Vec::new();
    append(&mut joined, certificate);
    if certificate.len() > 0 && key.len() > 0 && certificate[certificate.len() - 1] != LINE_FEED {
        joined.push(LINE_FEED);
    }
    append(&mut joined, key);
    joined
}

/// The words with which the TLS library reports that an archive's integrity
/// check failed under the password it was given.
pub open spec fn password_refusal() -> Seq<u8> {
    "mac verify failure".spec_bytes()
}

/// How the failure to open an archive is reported, from the text of the
/// failure: `WrongPassword` where the text speaks of the failed integrity
/// check, `DecodeError` for everything else.
pub open spec fn bundle_failure_spec(text: Seq<u8>) -> TlsError {
    if occurs_in(password_refusal(), text) {
        TlsError::WrongPassword
    } else {
        TlsError::DecodeError
    }
}

pub fn bundle_failure(text: &[u8]) -> (e: TlsError)
    ensures
        e == bundle_failure_spec(text@),
{
    if contains(text, "mac verify failure".as_bytes()) {
        TlsError::WrongPassword
    } else {
        TlsError::DecodeError
    }
}

/// A refusal of the password stays one however the failure's text is
/// wrapped: text added before and after it does not turn a `WrongPassword`
/// into a `DecodeError`.
pub proof fn wrapped_refusal_is_refusal(text: Seq<u8>, before: Seq<u8>, after: Seq<u8>)
    requires
        bundle_failure_spec(text) == TlsError::WrongPassword,
    ensures
        bundle_failure_spec(before + text + after) == TlsError::WrongPassword,
{
    occurrence_survives_padding(password_refusal(), text, before, after);
}

/// Whether no byte of `bytes` is zero.
fn free_of_zero(bytes: &[u8]) -> (r: bool)
    ensures
        r == !bytes@.contains(0u8),
{
    let mut i: usize = 0;
    while i < bytes.len()
        invariant
            i <= bytes@.len(),
            forall|j: int| 0 <= j < i ==> bytes@[j] != 0u8,
        decreases bytes@.len() - i,
    {
        if bytes[i] == 0 {
            return false;
        }
        i += 1;
    }
    true
}

/// What a loaded identity stands for.
pub struct Credentials {
    pub format: IdentityFormat,
    /// The PEM certificate block of a pair; empty for a bundle.
    pub certificate: Seq<u8>,
    /// The PEM key block of a pair; empty for a bundle.
    pub key: Seq<u8>,
    /// What the reader made of the container.
    pub decoded: reqwest::Identity,
}

/// An identity whose container was read. It exists only whole: a load that
/// fails gives an error and nothing else.
///
/// Reading is less than validating. Of a PEM pair it means that the blocks
/// of a private key and of a certificate were found; the key and the
/// certificates themselves are parsed only by the TLS layer that uses them.
/// Of a bundle it means that the archive opened under its password.
pub struct LocalIdentity {
    format: IdentityFormat,
    certificate: Vec<u8>,
    key: Vec<u8>,
    decoded: reqwest::Identity,
}

impl View for LocalIdentity {
    type V = Credentials;

    closed spec fn view(&self) -> Credentials {
        Credentials {
            format: self.format,
            certificate: self.certificate@,
            key: self.key@,
            decoded: self.decoded,
        }
    }
}

/// What holds of the credentials of every identity that was loaded: a pair's
/// blocks, joined, passed the PEM reader, and a bundle records no blocks.
pub open spec fn container_read(c: Credentials) -> bool {
    match c.format {
        IdentityFormat::Bundle => c.certificate.len() == 0 && c.key.len() == 0,
        IdentityFormat::PemPair => pem_identity_accepted(pem_container(c.certificate, c.key)),
    }
}

impl LocalIdentity {
    #[verifier::type_invariant]
    spec fn was_read(self) -> bool {
        container_read(self@)
    }

    /// Reads an identity from its source.
    ///
    /// A PEM pair is accepted exactly when the PEM reader finds a key block
    /// and a certificate block in the two joined; any other pair is a
    /// `DecodeError`.
    /// A bundle without a password is a `DecodeError`, and one whose password
    /// holds a zero byte, which no archive can be opened with, a
    /// `WrongPassword`; otherwise the archive is opened, and a failure is
    /// reported as `bundle_failure_spec` says of its text.
    pub fn load(source: IdentitySource) -> (r: Result<LocalIdentity, TlsError>)
        ensures
            r matches Ok(identity) ==> identity@.format == source.format_spec()
                && container_read(identity@),
            source matches IdentitySource::PemPair { certificate, key } ==> {
                &&& r is Ok <==> pem_identity_accepted(pem_container(certificate@, key@))
                &&& r matches Ok(identity) ==> identity@.certificate == certificate@
                    && identity@.key == key@
                &&& r matches Err(e) ==> e == TlsError::DecodeError
            },
            source matches IdentitySource::Bundle { archive, password } ==> {
                &&& password is None ==> fails_with(r, TlsError::DecodeError)
                &&& (password matches Some(word) && vstd::utf8::encode_utf8(word@).contains(0u8))
                    ==> fails_with(r, TlsError::WrongPassword)
                &&& r is Err ==> fails_with(r, TlsError::WrongPassword) || fails_with(
                    r,
                    TlsError::DecodeError,
                )
            },
    {
        match source {
            IdentitySource::PemPair { certificate, key } => {
                let joined = join_pem(certificate.as_slice(), key.as_slice());
                match identity_from_pem(joined.as_slice()) {
                    Ok(decoded) => Ok(
                        LocalIdentity { format: IdentityFormat::PemPair, certificate, key, decoded },
                    ),
                    Err(_) => Err(TlsError::DecodeError),
                }
            },
            IdentitySource::Bundle { archive, password } => {
                let word = match password {
                    Some(word) => word,
                    None => { return Err(TlsError::DecodeError); },
                };
                if !free_of_zero(word.as_str().as_bytes()) {
                    return Err(TlsError::WrongPassword);
                }
                LocalIdentity::from_opened(
                    identity_from_pkcs12_der(archive.as_slice(), word.as_str()),
                )
            },
        }
    }

    /// Makes the identity of what the archive reader gave for a bundle: the
    /// identity that it opened, or the failure that the text of its cause
    /// stands for.
    pub fn from_opened(opened: Result<reqwest::Identity, reqwest::Error>) -> (r: Result<
        LocalIdentity,
        TlsError,
    >)
        ensures
            opened matches Ok(decoded) ==> r matches Ok(identity) && identity@ == (Credentials {
                format: IdentityFormat::Bundle,
                certificate: Seq::<u8>::empty(),
                key: Seq::<u8>::empty(),
                decoded,
            }),
            opened matches Err(failure) ==> fails_with(
                r,
                bundle_failure_spec(vstd::utf8::encode_utf8(cause_text(failure))),
            ),
    {
        match opened {
            Ok(decoded) => Ok(
                LocalIdentity {
                    format: IdentityFormat::Bundle,
                    certificate: Vec::new(),
                    key: Vec::new(),
                    decoded,
                },
            ),
            Err(failure) => {
                let text = error_text(&failure);
                Err(bundle_failure(text.as_str().as_bytes()))
            },
        }
    }

    /// The container this identity came in.
    pub fn format(&self) -> (f: IdentityFormat)
        ensures
            f == self@.format,
    {
        self.format
    }

    /// The PEM certificate block of a pair; empty for a bundle.
    pub fn certificate(&self) -> (r: &Vec<u8>)
        ensures
            r@ == self@.certificate,
    {
        &self.certificate
    }

    /// The PEM key block of a pair; empty for a bundle.
    pub fn key(&self) -> (r: &Vec<u8>)
        ensures
            r@ == self@.key,
    {
        &self.key
    }

    pub(crate) fn into_decoded(self) -> (r: reqwest::Identity)
        ensures
            r == self.decoded(),
    {
        self.decoded
    }

    /// The value that the reader made of this identity's source.
    pub open spec fn decoded(self) -> reqwest::Identity {
        self@.decoded
    }
}

} // verus!
