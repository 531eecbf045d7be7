//! Where each side finds its credentials and its peer.

use vstd::prelude::*;

use crate::identity::{IdentityFormat, IdentitySource};
use crate::listener::BindAddress;

verus! {

/// Everything a run is configured with. Nothing of it is built into the
/// loaders, the listener or the connector: each is handed what it needs.
pub struct Settings {
    /// The address the server binds.
    pub bind: BindAddress,
    /// The file with the server's PEM certificate chain.
    pub server_certificate: String,
    /// The file with the server's PEM private key.
    pub server_key: String,
    /// The file with the anchor the server validates clients against.
    pub client_anchor: String,
    /// The file with the anchor the client validates the server against.
    pub server_anchor: String,
    /// The container the client's identity comes in.
    pub client_format: IdentityFormat,
    /// The file with the client's bundle, or with its PEM certificate chain.
    pub client_identity: String,
    /// The file with the client's PEM private key, where it is not in the
    /// same file as the certificate chain.
    pub client_key: Option<String>,
    /// The password of the client's bundle.
    pub password: Option<String>,
    /// The address the client sends its request to.
    pub target: String,
}

/// The source that a client's identity is decoded from, given the bytes of
/// its files: a bundle takes the first file and the password, and a PEM pair
/// takes both files and no password.
pub open spec fn client_source_spec(
    format: IdentityFormat,
    password: Option<String>,
    first: Vec<u8>,
    second: Vec<u8>,
) -> IdentitySource {
    match format {
        IdentityFormat::Bundle => IdentitySource::Bundle { archive: first, password },
        IdentityFormat::PemPair => IdentitySource::PemPair { certificate: first, key: second },
    }
}

impl Settings {
    /// Whether the client's identity is spread over two files.
    pub fn reads_client_key(&self) -> (r: bool)
        ensures
            r == (self.client_format == IdentityFormat::PemPair && self.client_key is Some),
    {
        self.client_format == IdentityFormat::PemPair && self.client_key.is_some()
    }

    /// Puts the bytes read from the client's identity files into the source
    /// that its format calls for. `second` is empty where there is no
    /// second file.
    pub fn client_source(&self, first: Vec<u8>, second: Vec<u8>) -> (source: IdentitySource)
        ensures
            source == client_source_spec(self.client_format, self.password, first, second),
            source.format_spec() == self.client_format,
    {
        match self.client_format {
            IdentityFormat::Bundle => IdentitySource::Bundle {
                archive: first,
                password: self.password.clone(),
            },
            IdentityFormat::PemPair => IdentitySource::PemPair { certificate: first, key: second },
        }
    }
}

} // verus!
