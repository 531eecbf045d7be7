//! Trust anchors: the certificate that a side accepts as the root of its
//! peer's chain.

use vstd::prelude::*;
use vstd::string::StringSliceAdditionalSpecFns;

use crate::bindings::{certificate_from_pem, parsed_from, PEM_INPUT_LIMIT};
use crate::error::TlsError;
use crate::role::Role;
use crate::text::{matches_at, occurs_at};

verus! {

/// What a loaded anchor stands for: the side that holds it and the PEM bytes
/// it was parsed from.
pub struct TrustAnchor {
    pub holder: Role,
    pub pem: Seq<u8>,
    /// What the parser made of the bytes.
    pub certificate: reqwest::Certificate,
}

/// The words that open the first line of a PEM block.
pub open spec fn block_begin() -> Seq<u8> {
    "-----BEGIN".spec_bytes()
}

/// The words that open the last line of a PEM block.
pub open spec fn block_end() -> Seq<u8> {
    "-----END".spec_bytes()
}

/// The header that marks a PEM block as encrypted.
pub open spec fn encryption_header() -> Seq<u8> {
    "Proc-Type".spec_bytes()
}

/// No last line of a block starts at an offset from `from` up to, and
/// without, `to`.
pub open spec fn no_end_between(pem: Seq<u8>, from: int, to: int) -> bool {
    forall|q: int| from <= q < to ==> !occurs_at(block_end(), pem, q)
}

/// The offset `at` lies in a block: a first line starts at or before it, and
/// no last line starts between the two.
pub open spec fn in_block(pem: Seq<u8>, at: int) -> bool {
    exists|b: int| #[trigger] occurs_at(block_begin(), pem, b) && b <= at && no_end_between(pem, b, at)
}

/// The stream holds the header of an encrypted block inside a block. Where
/// the words stand before every block or after the last one, they are text
/// that a PEM reader skips.
pub open spec fn holds_encrypted_block(pem: Seq<u8>) -> bool {
    exists|p: int| in_block(pem, p) && #[trigger] occurs_at(encryption_header(), pem, p)
}

/// At the very start, only a first line that stands there opens a block.
proof fn in_block_at_start(pem: Seq<u8>)
    ensures
        in_block(pem, 0) <==> occurs_at(block_begin(), pem, 0),
{
    if occurs_at(block_begin(), pem, 0) {
        assert(no_end_between(pem, 0, 0));
    }
}

/// One offset on, a block is open if a first line starts there, or if one
/// was open and no last line started at the offset before.
proof fn in_block_one_on(pem: Seq<u8>, at: int)
    requires
        0 <= at,
    ensures
        in_block(pem, at + 1) <==> occurs_at(block_begin(), pem, at + 1) || (in_block(pem, at)
            && !occurs_at(block_end(), pem, at)),
{
    if occurs_at(block_begin(), pem, at + 1) {
        assert(no_end_between(pem, at + 1, at + 1));
    }
    if in_block(pem, at) && !occurs_at(block_end(), pem, at) {
        let b = choose|b: int| #[trigger]
            occurs_at(block_begin(), pem, b) && b <= at && no_end_between(pem, b, at);
        assert(no_end_between(pem, b, at + 1));
    }
    if in_block(pem, at + 1) {
        let b = choose|b: int| #[trigger]
            occurs_at(block_begin(), pem, b) && b <= at + 1 && no_end_between(pem, b, at + 1);
        if b <= at {
            assert(no_end_between(pem, b, at));
            assert(!occurs_at(block_end(), pem, at));
        }
    }
}

/// Whether the stream holds the header of an encrypted block inside a block.
pub fn has_encrypted_block(pem: &[u8]) -> (r: bool)
    ensures
        r == holds_encrypted_block(pem@),
{
    let length = pem.len();
    let mut at: usize = 0;
    let mut inside = matches_at(pem, "-----BEGIN".as_bytes(), 0);
    proof {
        in_block_at_start(pem@);
    }
    loop
        invariant
            length == pem@.len(),
            at <= length,
            inside == in_block(pem@, at as int),
            forall|p: int|
                0 <= p < at ==> !(in_block(pem@, p) && #[trigger] occurs_at(
                    encryption_header(),
                    pem@,
                    p,
                )),
        decreases length - at,
    {
        if inside && matches_at(pem, "Proc-Type".as_bytes(), at) {
            assert(in_block(pem@, at as int) && occurs_at(encryption_header(), pem@, at as int));
            return true;
        }
        if at == length {
            assert forall|p: int| in_block(pem@, p) implies !#[trigger] occurs_at(
                encryption_header(),
                pem@,
                p,
            ) by {
                if occurs_at(encryption_header(), pem@, p) {
                    assert(0 <= p <= at);
                }
            }
            return false;
        }
        let ended = matches_at(pem, "-----END".as_bytes(), at);
        let begun = matches_at(pem, "-----BEGIN".as_bytes(), at + 1);
        proof {
            in_block_one_on(pem@, at as int);
        }
        inside = begun || (inside && !ended);
        at += 1;
    }
}

/// The byte streams that the certificate parser can be handed: those that
/// are short enough for it and hold no encrypted block. Whether such a
/// stream is a certificate is the parser's answer.
pub open spec fn fits_parser(pem: Seq<u8>) -> bool {
    &&& pem.len() <= PEM_INPUT_LIMIT
    &&& !holds_encrypted_block(pem)
}

/// A parsed trust anchor. It is built once from PEM bytes, never changes, and
/// keeps those bytes, so it does not depend on the file they came from.
///
/// A server's anchor validates clients and a client's anchor validates the
/// server: each anchor remembers the side it was loaded for.
pub struct CertificateAuthority {
    holder: Role,
    pem: Vec<u8>,
    parsed: reqwest::Certificate,
}

impl View for CertificateAuthority {
    type V = TrustAnchor;

    closed spec fn view(&self) -> TrustAnchor {
        TrustAnchor { holder: self.holder, pem: self.pem@, certificate: self.parsed }
    }
}

impl CertificateAuthority {
    #[verifier::type_invariant]
    spec fn parses(self) -> bool {
        fits_parser(self.pem@) && parsed_from(self.parsed) == self.pem@
    }

    /// Parses the PEM bytes of a CA certificate for the side `holder`.
    ///
    /// A stream that the parser cannot be handed is refused without being
    /// parsed; of every other stream the parser decides. An anchor holds
    /// exactly the bytes it was parsed from, and every refusal is a
    /// `DecodeError`.
    pub fn load(pem: Vec<u8>, holder: Role) -> (r: Result<CertificateAuthority, TlsError>)
        ensures
            !fits_parser(pem@) ==> r is Err,
            r matches Ok(anchor) ==> anchor@.holder == holder && anchor@.pem == pem@
                && parsed_from(anchor.certificate()) == pem@,
            r matches Err(e) ==> e == TlsError::DecodeError,
    {
        if pem.len() > PEM_INPUT_LIMIT || has_encrypted_block(pem.as_slice()) {
            return Err(TlsError::DecodeError);
        }
        match certificate_from_pem(pem.as_slice()) {
            Ok(parsed) => Ok(CertificateAuthority { holder, pem, parsed }),
            Err(_) => Err(TlsError::DecodeError),
        }
    }

    /// The side this anchor was loaded for.
    pub fn holder(&self) -> (r: Role)
        ensures
            r == self@.holder,
    {
        self.holder
    }

    /// The PEM bytes this anchor was parsed from, which its certificate
    /// keeps too.
    pub fn pem(&self) -> (r: &Vec<u8>)
        ensures
            r@ == self@.pem,
            fits_parser(r@),
            parsed_from(self.certificate()) == r@,
    {
        proof {
            use_type_invariant(self);
        }
        &self.pem
    }

    /// Whether `role` may validate its peers against this anchor.
    pub fn serves(&self, role: Role) -> (r: bool)
        ensures
            r == (self@.holder == role),
    {
        self.holder == role
    }

    pub(crate) fn parsed(&self) -> (r: &reqwest::Certificate)
        ensures
            *r == self.certificate(),
    {
        &self.parsed
    }

    /// The certificate that the parser made of this anchor's bytes.
    pub open spec fn certificate(self) -> reqwest::Certificate {
        self@.certificate
    }
}

} // verus!
