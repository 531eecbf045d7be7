use mutual_tls::anchor::{has_encrypted_block, CertificateAuthority};
use mutual_tls::connector::{
    classify, request_failure, Connector, ConnectorSettings, TlsBackend,
};
use mutual_tls::error::TlsError;
use mutual_tls::identity::{bundle_failure, join_pem, IdentityFormat, IdentitySource, LocalIdentity};
use mutual_tls::listener::{
    startup_failure, BindAddress, ConnectionState, Listener, ListenerEvent, ListenerState,
    PeerEvidence,
};
use mutual_tls::role::Role;
use mutual_tls::settings::Settings;
use openssl::asn1::Asn1Time;
use openssl::bn::BigNum;
use openssl::ec::{EcGroup, EcKey};
use openssl::hash::MessageDigest;
use openssl::nid::Nid;
use openssl::pkcs12::Pkcs12;
use openssl::pkey::{PKey, Private};
use openssl::x509::extension::{BasicConstraints, KeyUsage, SubjectAlternativeName};
use openssl::x509::{X509NameBuilder, X509};

const AUTHORITY_PEM: &str = "-----BEGIN CERTIFICATE-----
MIIBnjCCAUWgAwIBAgIUYJPRI89iesncS1iV9mNbwlKZDgIwCgYIKoZIzj0EAwIw
HDEaMBgGA1UEAwwRZXhhbXBsZSBhdXRob3JpdHkwIBcNMjYxMDI4MDE1ODExWhgP
MjEyNjEwMDQwMTU4MTFaMBwxGjAYBgNVBAMMEWV4YW1wbGUgYXV0aG9yaXR5MFkw
EwYHKoZIzj0CAQYIKoZIzj0DAQcDQgAEXFTIUUPJYpFIaHxsWUWhoXUSubgcCiAs
y/7ycSKsNCX7wzzWDbU8fUv+j/nwmz+pEmCRwhhUmCJ2g+i4YXTGaqNjMGEwHQYD
VR0OBBYEFHgex2WOU14e2sv/qzl8MZHc56uuMB8GA1UdIwQYMBaAFHgex2WOU14e
2sv/qzl8MZHc56uuMA8GA1UdEwEB/wQFMAMBAf8wDgYDVR0PAQH/BAQDAgEGMAoG
CCqGSM49BAMCA0cAMEQCIHcZbUIaRrYtkyNoKVkfcWyXw3QXpV3GTK2Pmp3ooar2
AiA6MExbuiVxPuLbDru/mhpLEub8klJuIs2ADmo27PmmTg==
-----END CERTIFICATE-----
";

fn fresh_key() -> PKey<Private> {
    let group = EcGroup::from_curve_name(Nid::X9_62_PRIME256V1).unwrap();
    PKey::from_ec_key(EcKey::generate(&group).unwrap()).unwrap()
}

fn authority(name: &str, key: &PKey<Private>) -> X509 {
    let mut subject = X509NameBuilder::new().unwrap();
    subject.append_entry_by_text("CN", name).unwrap();
    let subject = subject.build();
    let mut builder = X509::builder().unwrap();
    builder.set_version(2).unwrap();
    builder.set_serial_number(&BigNum::from_u32(1).unwrap().to_asn1_integer().unwrap()).unwrap();
    builder.set_subject_name(&subject).unwrap();
    builder.set_issuer_name(&subject).unwrap();
    builder.set_pubkey(key).unwrap();
    builder.set_not_before(&Asn1Time::days_from_now(0).unwrap()).unwrap();
    builder.set_not_after(&Asn1Time::days_from_now(30).unwrap()).unwrap();
    builder.append_extension(BasicConstraints::new().critical().ca().build().unwrap()).unwrap();
    builder
        .append_extension(KeyUsage::new().critical().key_cert_sign().crl_sign().build().unwrap())
        .unwrap();
    builder.sign(key, MessageDigest::sha256()).unwrap();
    builder.build()
}

fn issued(name: &str, key: &PKey<Private>, ca: &X509, ca_key: &PKey<Private>) -> X509 {
    let mut subject = X509NameBuilder::new().unwrap();
    subject.append_entry_by_text("CN", name).unwrap();
    let subject = subject.build();
    let mut builder = X509::builder().unwrap();
    builder.set_version(2).unwrap();
    builder.set_serial_number(&BigNum::from_u32(2).unwrap().to_asn1_integer().unwrap()).unwrap();
    builder.set_subject_name(&subject).unwrap();
    builder.set_issuer_name(ca.subject_name()).unwrap();
    builder.set_pubkey(key).unwrap();
    builder.set_not_before(&Asn1Time::days_from_now(0).unwrap()).unwrap();
    builder.set_not_after(&Asn1Time::days_from_now(30).unwrap()).unwrap();
    let names = SubjectAlternativeName::new()
        .dns("localhost")
        .build(&builder.x509v3_context(Some(ca), None))
        .unwrap();
    builder.append_extension(names).unwrap();
    builder.sign(ca_key, MessageDigest::sha256()).unwrap();
    builder.build()
}

struct Material {
    authority: Vec<u8>,
    certificate: Vec<u8>,
    key: Vec<u8>,
    bundle: Vec<u8>,
}

fn material(password: &str) -> Material {
    let ca_key = fresh_key();
    let ca = authority("test authority", &ca_key);
    let key = fresh_key();
    let certificate = issued("localhost", &key, &ca, &ca_key);
    let bundle = Pkcs12::builder()
        .name("identity")
        .pkey(&key)
        .cert(&certificate)
        .build2(password)
        .unwrap()
        .to_der()
        .unwrap();
    Material {
        authority: ca.to_pem().unwrap(),
        certificate: certificate.to_pem().unwrap(),
        key: key.private_key_to_pem_pkcs8().unwrap(),
        bundle,
    }
}

fn pair(m: &Material) -> LocalIdentity {
    let source = IdentitySource::PemPair { certificate: m.certificate.clone(), key: m.key.clone() };
    LocalIdentity::load(source).ok().unwrap()
}

fn bundled(m: &Material, password: &str) -> Result<LocalIdentity, TlsError> {
    LocalIdentity::load(IdentitySource::Bundle {
        archive: m.bundle.clone(),
        password: Some(password.to_string()),
    })
}

fn anchor(pem: &[u8], holder: Role) -> CertificateAuthority {
    CertificateAuthority::load(pem.to_vec(), holder).ok().unwrap()
}

fn address() -> BindAddress {
    BindAddress { host: [0, 0, 0, 0], port: 3030 }
}

fn listening(m: &Material) -> Listener {
    let mut listener = Listener::bind(address(), pair(m), anchor(&m.authority, Role::Server)).ok().unwrap();
    assert!(listener.listen());
    listener
}

fn presented(anchor: &[u8], chains: bool, expired: bool) -> PeerEvidence {
    PeerEvidence::Presented { anchor: anchor.to_vec(), chains, expired }
}

// Trust anchors

#[test]
fn well_formed_certificate_gives_an_anchor_with_its_bytes() {
    let loaded = CertificateAuthority::load(AUTHORITY_PEM.as_bytes().to_vec(), Role::Client);
    let loaded = loaded.ok().unwrap();
    assert_eq!(loaded.pem().as_slice(), AUTHORITY_PEM.as_bytes());
    assert_eq!(loaded.holder(), Role::Client);
    assert!(loaded.serves(Role::Client));
    assert!(!loaded.serves(Role::Server));
}

#[test]
fn generated_certificate_gives_an_anchor() {
    let m = material("123456");
    let loaded = CertificateAuthority::load(m.authority.clone(), Role::Server).ok().unwrap();
    assert_eq!(loaded.pem(), &m.authority);
    assert_eq!(loaded.holder(), Role::Server);
}

#[test]
fn malformed_streams_are_decode_errors() {
    let framed_junk = b"-----BEGIN CERTIFICATE-----\nAAAA\n-----END CERTIFICATE-----\n".to_vec();
    let truncated = AUTHORITY_PEM.as_bytes()[..200].to_vec();
    let mut damaged = AUTHORITY_PEM.as_bytes().to_vec();
    damaged[100] = b'!';
    let streams = vec![Vec::new(), b"not a certificate".to_vec(), vec![0u8; 64], framed_junk, truncated, damaged];
    for stream in streams {
        let loaded = CertificateAuthority::load(stream, Role::Client);
        assert!(matches!(loaded, Err(TlsError::DecodeError)));
    }
}

#[test]
fn a_private_key_is_no_anchor() {
    let m = material("123456");
    assert!(matches!(
        CertificateAuthority::load(m.key.clone(), Role::Client),
        Err(TlsError::DecodeError)
    ));
}

#[test]
fn an_encrypted_block_is_refused_unparsed() {
    let encrypted = b"-----BEGIN CERTIFICATE-----\nProc-Type: 4,ENCRYPTED\nDEK-Info: AES-128-CBC,00\n\nAAAA\n-----END CERTIFICATE-----\n";
    assert!(matches!(
        CertificateAuthority::load(encrypted.to_vec(), Role::Client),
        Err(TlsError::DecodeError)
    ));
    let mut inside = AUTHORITY_PEM.as_bytes().to_vec();
    inside.splice(28..28, b"Proc-Type: 4,ENCRYPTED\n".iter().copied());
    assert!(matches!(CertificateAuthority::load(inside, Role::Server), Err(TlsError::DecodeError)));
}

#[test]
fn words_outside_every_block_are_skipped() {
    let mut after = AUTHORITY_PEM.as_bytes().to_vec();
    after.extend_from_slice(b"Proc-Type: 4,ENCRYPTED\n");
    let loaded = CertificateAuthority::load(after.clone(), Role::Server).ok().unwrap();
    assert_eq!(loaded.pem(), &after);
    let mut before = b"Proc-Type: 4,ENCRYPTED\n".to_vec();
    before.extend_from_slice(AUTHORITY_PEM.as_bytes());
    assert!(CertificateAuthority::load(before, Role::Client).is_ok());
}

#[test]
fn encrypted_blocks_are_told_from_stray_words() {
    assert!(!has_encrypted_block(b""));
    assert!(!has_encrypted_block(b"Proc-Type"));
    assert!(!has_encrypted_block(b"Proc-Type\n-----BEGIN X-----\n-----END X-----\n"));
    assert!(!has_encrypted_block(b"-----BEGIN X-----\n-----END X-----\nProc-Type"));
    assert!(has_encrypted_block(b"-----BEGIN X-----\nProc-Type: 4,ENCRYPTED\n-----END X-----\n"));
    assert!(has_encrypted_block(b"-----BEGINProc-Type"));
    assert!(has_encrypted_block(
        b"-----BEGIN A-----\n-----END A-----\n-----BEGIN B-----\nProc-Type\n-----END B-----\n"
    ));
    assert!(!has_encrypted_block(
        b"-----BEGIN A-----\n-----END A-----\nProc-Type\n-----BEGIN B-----\n-----END B-----\n"
    ));
    assert!(has_encrypted_block(b"-----BEGIN A-----\nAAAA\nProc-Type"));
}

// Identities

#[test]
fn pem_blocks_are_joined_on_a_line_boundary() {
    assert_eq!(join_pem(b"cert\n", b"key\n"), b"cert\nkey\n".to_vec());
    assert_eq!(join_pem(b"cert", b"key"), b"cert\nkey".to_vec());
    assert_eq!(join_pem(b"cert", b""), b"cert".to_vec());
    assert_eq!(join_pem(b"", b"key"), b"key".to_vec());
    assert_eq!(join_pem(b"", b""), Vec::<u8>::new());
    assert_eq!(join_pem(b"a\n\n", b"b"), b"a\n\nb".to_vec());
}

#[test]
fn pem_pair_decodes_and_keeps_both_blocks() {
    let m = material("123456");
    let identity = pair(&m);
    assert_eq!(identity.format(), IdentityFormat::PemPair);
    assert_eq!(identity.certificate(), &m.certificate);
    assert_eq!(identity.key(), &m.key);
}

#[test]
fn pem_pair_in_one_file_decodes() {
    let m = material("123456");
    let mut both = m.certificate.clone();
    both.extend_from_slice(&m.key);
    let source = IdentitySource::PemPair { certificate: both.clone(), key: Vec::new() };
    let identity = LocalIdentity::load(source).ok().unwrap();
    assert_eq!(identity.certificate(), &both);
    assert!(identity.key().is_empty());
}

#[test]
fn pem_pair_without_a_line_feed_between_blocks_decodes() {
    let m = material("123456");
    let mut certificate = m.certificate.clone();
    while certificate.last() == Some(&b'\n') {
        certificate.pop();
    }
    let source = IdentitySource::PemPair { certificate, key: m.key.clone() };
    assert!(LocalIdentity::load(source).is_ok());
}

#[test]
fn pem_pair_without_key_or_certificate_is_a_decode_error() {
    let m = material("123456");
    let no_key = IdentitySource::PemPair { certificate: m.certificate.clone(), key: Vec::new() };
    assert!(matches!(LocalIdentity::load(no_key), Err(TlsError::DecodeError)));
    let no_certificate = IdentitySource::PemPair { certificate: Vec::new(), key: m.key.clone() };
    assert!(matches!(LocalIdentity::load(no_certificate), Err(TlsError::DecodeError)));
    let nothing = IdentitySource::PemPair { certificate: Vec::new(), key: Vec::new() };
    assert!(matches!(LocalIdentity::load(nothing), Err(TlsError::DecodeError)));
}

#[test]
fn bundle_opens_with_its_password() {
    let m = material("123456");
    let identity = bundled(&m, "123456").ok().unwrap();
    assert_eq!(identity.format(), IdentityFormat::Bundle);
    assert!(identity.certificate().is_empty());
    assert!(identity.key().is_empty());
}

#[test]
fn bundle_with_wrong_password_is_wrong_password() {
    let m = material("123456");
    assert!(matches!(bundled(&m, "654321"), Err(TlsError::WrongPassword)));
    assert!(matches!(bundled(&m, ""), Err(TlsError::WrongPassword)));
    assert!(matches!(bundled(&m, "1234567"), Err(TlsError::WrongPassword)));
}

#[test]
fn bundle_password_with_a_zero_byte_is_wrong_password() {
    let m = material("123456");
    assert!(matches!(bundled(&m, "123456\0"), Err(TlsError::WrongPassword)));
    assert!(matches!(bundled(&m, "\0"), Err(TlsError::WrongPassword)));
}

#[test]
fn bundle_without_password_is_a_decode_error() {
    let m = material("123456");
    let source = IdentitySource::Bundle { archive: m.bundle.clone(), password: None };
    assert!(matches!(LocalIdentity::load(source), Err(TlsError::DecodeError)));
}

#[test]
fn malformed_bundle_is_a_decode_error() {
    let m = material("123456");
    let mut cut = m.bundle.clone();
    cut.truncate(20);
    for archive in vec![Vec::new(), vec![1, 2, 3], cut, m.certificate.clone()] {
        let source = IdentitySource::Bundle { archive, password: Some("123456".to_string()) };
        assert!(matches!(LocalIdentity::load(source), Err(TlsError::DecodeError)));
    }
}

#[test]
fn failure_texts_name_their_class() {
    assert_eq!(
        bundle_failure(b"PKCS12 routines, PKCS12_parse, reason: \"mac verify failure\""),
        TlsError::WrongPassword
    );
    assert_eq!(bundle_failure(b"mac verify failure"), TlsError::WrongPassword);
    assert_eq!(bundle_failure(b"asn1 encoding routines: too long"), TlsError::DecodeError);
    assert_eq!(bundle_failure(b"mac verify failur"), TlsError::DecodeError);
    assert_eq!(bundle_failure(b"MAC VERIFY FAILURE"), TlsError::DecodeError);
    assert_eq!(bundle_failure(b""), TlsError::DecodeError);
}

#[test]
fn the_archive_readers_answer_is_carried_over() {
    let m = material("123456");
    let opened = LocalIdentity::from_opened(reqwest::Identity::from_pkcs12_der(&m.bundle, "123456"));
    let identity = opened.ok().unwrap();
    assert_eq!(identity.format(), IdentityFormat::Bundle);
    assert!(identity.certificate().is_empty() && identity.key().is_empty());
    let refused = LocalIdentity::from_opened(reqwest::Identity::from_pkcs12_der(&m.bundle, "wrong"));
    assert!(matches!(refused, Err(TlsError::WrongPassword)));
    let broken = LocalIdentity::from_opened(reqwest::Identity::from_pkcs12_der(&[1, 2, 3], "123456"));
    assert!(matches!(broken, Err(TlsError::DecodeError)));
}

#[test]
fn the_word_after_the_role_selects_the_container() {
    let words = |list: &[&str]| list.iter().map(|w| w.to_string()).collect::<Vec<String>>();
    assert_eq!(IdentityFormat::select(&words(&["mtls", "client"])), Ok(IdentityFormat::Bundle));
    assert_eq!(IdentityFormat::select(&words(&["mtls"])), Ok(IdentityFormat::Bundle));
    assert_eq!(IdentityFormat::select(&words(&[])), Ok(IdentityFormat::Bundle));
    assert_eq!(
        IdentityFormat::select(&words(&["mtls", "client", "bundle"])),
        Ok(IdentityFormat::Bundle)
    );
    assert_eq!(
        IdentityFormat::select(&words(&["mtls", "client", "pem"])),
        Ok(IdentityFormat::PemPair)
    );
    for other in ["PEM", "p12", "", "pem ", "bundles"] {
        assert_eq!(
            IdentityFormat::select(&words(&["mtls", "client", other])),
            Err(TlsError::UnsupportedIdentityFormat)
        );
    }
}

#[test]
fn sources_know_their_format() {
    let bundle = IdentitySource::Bundle { archive: Vec::new(), password: None };
    assert_eq!(bundle.format(), IdentityFormat::Bundle);
    let pem = IdentitySource::PemPair { certificate: Vec::new(), key: Vec::new() };
    assert_eq!(pem.format(), IdentityFormat::PemPair);
}

// Connector

#[test]
fn connector_pins_the_anchor_and_refuses_plaintext() {
    let m = material("123456");
    let trusted = anchor(&m.authority, Role::Client);
    let connector = Connector::new(&trusted, pair(&m)).ok().unwrap();
    let expected =
        ConnectorSettings { backend: TlsBackend::Rustls, built_in_roots: false, https_only: true };
    assert_eq!(connector.settings(), expected);
    assert_eq!(connector.anchor(), &m.authority);
}

#[test]
fn bundle_identity_runs_on_the_native_backend() {
    let m = material("123456");
    let trusted = anchor(&m.authority, Role::Client);
    let connector = Connector::new(&trusted, bundled(&m, "123456").ok().unwrap()).ok().unwrap();
    let expected =
        ConnectorSettings { backend: TlsBackend::Native, built_in_roots: false, https_only: true };
    assert_eq!(connector.settings(), expected);
    assert_eq!(ConnectorSettings::pinned(IdentityFormat::Bundle), expected);
}

#[test]
fn an_anchor_is_reusable_across_connectors() {
    let m = material("123456");
    let trusted = anchor(&m.authority, Role::Client);
    assert!(Connector::new(&trusted, pair(&m)).is_ok());
    assert!(Connector::new(&trusted, pair(&m)).is_ok());
    assert_eq!(trusted.pem(), &m.authority);
}

#[test]
fn connector_refuses_a_servers_anchor() {
    let m = material("123456");
    let misplaced = anchor(&m.authority, Role::Server);
    assert!(matches!(Connector::new(&misplaced, pair(&m)), Err(TlsError::MisplacedTrustAnchor)));
}

#[test]
fn only_secure_targets_are_admitted() {
    let m = material("123456");
    let connector = Connector::new(&anchor(&m.authority, Role::Client), pair(&m)).ok().unwrap();
    assert_eq!(connector.check_target("https://localhost:3030"), Ok(()));
    assert_eq!(connector.check_target("https://"), Ok(()));
    assert_eq!(connector.check_target("http://localhost:3030"), Err(TlsError::HandshakeError));
    assert_eq!(connector.check_target("localhost:3030"), Err(TlsError::HandshakeError));
    assert_eq!(connector.check_target(" https://localhost"), Err(TlsError::HandshakeError));
    assert_eq!(connector.check_target("HTTPS://localhost"), Ok(()));
    assert_eq!(connector.check_target("hTtPs://localhost"), Ok(()));
    assert_eq!(connector.check_target("https:/localhost"), Err(TlsError::HandshakeError));
    assert_eq!(connector.check_target("httpz://localhost"), Err(TlsError::HandshakeError));
    assert_eq!(connector.check_target("https:/"), Err(TlsError::HandshakeError));
    assert_eq!(connector.check_target(""), Err(TlsError::HandshakeError));
}

#[test]
fn failed_requests_are_classified_by_their_text() {
    let refused = TlsError::CertificateValidationError;
    assert_eq!(request_failure(false, true, b"InvalidCertificate(UnknownIssuer)"), refused);
    assert_eq!(request_failure(false, false, b"AlertReceived(CertificateRequired)"), refused);
    assert_eq!(request_failure(false, false, b"AlertReceived(UnknownCA)"), refused);
    assert_eq!(request_failure(false, false, b"AlertReceived(BadCertificate)"), refused);
    assert_eq!(request_failure(false, true, b"certificate verify failed"), refused);
    assert_eq!(request_failure(false, false, b"tlsv1 alert unknown ca"), refused);
    assert_eq!(request_failure(false, false, b"tlsv13 alert certificate required"), refused);
    assert_eq!(request_failure(false, true, b"AlertReceived(HandshakeFailure)"), TlsError::HandshakeError);
    assert_eq!(request_failure(false, true, b"tcp connect error"), TlsError::HandshakeError);
    assert_eq!(request_failure(false, true, b""), TlsError::HandshakeError);
    assert_eq!(request_failure(false, false, b"connection reset by peer"), TlsError::NetworkError);
    assert_eq!(request_failure(false, false, b""), TlsError::NetworkError);
    assert_eq!(request_failure(true, false, b"BadScheme"), TlsError::HandshakeError);
    assert_eq!(request_failure(true, true, b"InvalidCertificate"), TlsError::HandshakeError);
    assert_eq!(request_failure(true, false, b""), TlsError::HandshakeError);
}

#[test]
fn a_plaintext_request_never_leaves() {
    let m = material("123456");
    let connector = Connector::new(&anchor(&m.authority, Role::Client), pair(&m)).ok().unwrap();
    let runtime = tokio::runtime::Builder::new_current_thread().enable_all().build().unwrap();
    let sent = runtime.block_on(connector.client().get("http://localhost:3030").send());
    let failure = sent.err().unwrap();
    assert!(failure.is_builder());
    assert_eq!(classify(&failure), TlsError::HandshakeError);
    assert_eq!(connector.check_target("http://localhost:3030"), Err(classify(&failure)));
}

#[test]
fn a_server_that_cannot_be_reached_is_a_failed_handshake() {
    let m = material("123456");
    let connector = Connector::new(&anchor(&m.authority, Role::Client), pair(&m)).ok().unwrap();
    let runtime = tokio::runtime::Builder::new_current_thread().enable_all().build().unwrap();
    let sent = runtime.block_on(connector.client().get("https://127.0.0.1:1").send());
    let failure = sent.err().unwrap();
    assert!(failure.is_connect());
    assert_eq!(classify(&failure), TlsError::HandshakeError);
}

#[test]
fn the_class_does_not_depend_on_the_target() {
    let m = material("123456");
    let connector = Connector::new(&anchor(&m.authority, Role::Client), pair(&m)).ok().unwrap();
    let runtime = tokio::runtime::Builder::new_current_thread().enable_all().build().unwrap();
    let target = "https://127.0.0.1:1/certificate?UnknownIssuer=UnknownCA";
    let failure = runtime.block_on(connector.client().get(target).send()).err().unwrap();
    assert!(format!("{:?}", failure).contains("ertificate"));
    assert_eq!(classify(&failure), TlsError::HandshakeError);
    let target = "http://localhost:3030/certificate";
    let failure = runtime.block_on(connector.client().get(target).send()).err().unwrap();
    assert!(format!("{:?}", failure).contains("ertificate"));
    assert_eq!(classify(&failure), TlsError::HandshakeError);
}

// Listener

#[test]
fn a_server_that_cannot_start_is_classified_by_its_text() {
    assert_eq!(
        startup_failure(b"error creating server listener: Address already in use (os error 98)"),
        TlsError::IoError
    );
    assert_eq!(startup_failure(b"error creating server listener"), TlsError::IoError);
    assert_eq!(startup_failure(b"certificate parse error"), TlsError::DecodeError);
    assert_eq!(startup_failure(b"key contains no private key"), TlsError::DecodeError);
    assert_eq!(startup_failure(b"error creating server"), TlsError::DecodeError);
    assert_eq!(startup_failure(b""), TlsError::DecodeError);
}

#[test]
fn listener_binds_then_listens() {
    let m = material("123456");
    let mut listener =
        Listener::bind(address(), pair(&m), anchor(&m.authority, Role::Server)).ok().unwrap();
    assert_eq!(listener.state(), ListenerState::Bound);
    assert!(listener.accept().is_none());
    assert!(listener.listen());
    assert_eq!(listener.state(), ListenerState::Listening);
    assert!(listener.accept().is_some());
    assert_eq!(listener.address().port, 3030);
    assert_eq!(listener.address().host, [0, 0, 0, 0]);
    assert_eq!(listener.certificate(), &m.certificate);
    assert_eq!(listener.key(), &m.key);
    assert_eq!(listener.client_anchor(), &m.authority);
}

#[test]
fn listener_closes_for_good() {
    let m = material("123456");
    let mut listener = listening(&m);
    listener.close();
    assert_eq!(listener.state(), ListenerState::Closed);
    assert!(listener.accept().is_none());
    assert!(!listener.listen());
    assert_eq!(listener.state(), ListenerState::Closed);
    listener.apply(ListenerEvent::Bind);
    assert_eq!(listener.state(), ListenerState::Closed);
}

#[test]
fn events_that_do_not_fit_change_nothing() {
    let m = material("123456");
    let mut listener =
        Listener::bind(address(), pair(&m), anchor(&m.authority, Role::Server)).ok().unwrap();
    listener.apply(ListenerEvent::Bind);
    assert_eq!(listener.state(), ListenerState::Bound);
    listener.apply(ListenerEvent::Settled(ConnectionState::Rejected));
    assert_eq!(listener.state(), ListenerState::Bound);
    listener.apply(ListenerEvent::Listen);
    assert_eq!(listener.state(), ListenerState::Listening);
    listener.apply(ListenerEvent::Listen);
    assert_eq!(listener.state(), ListenerState::Listening);
    listener.apply(ListenerEvent::Settled(ConnectionState::Established));
    assert_eq!(listener.state(), ListenerState::Listening);
    listener.apply(ListenerEvent::Close);
    assert_eq!(listener.state(), ListenerState::Closed);
}

#[test]
fn listener_refuses_a_bundle_identity() {
    let m = material("123456");
    let bound =
        Listener::bind(address(), bundled(&m, "123456").ok().unwrap(), anchor(&m.authority, Role::Server));
    assert!(matches!(bound, Err(TlsError::UnsupportedIdentityFormat)));
}

#[test]
fn listener_refuses_a_pair_without_a_key_block() {
    let m = material("123456");
    let mut both = m.certificate.clone();
    both.extend_from_slice(&m.key);
    let source = IdentitySource::PemPair { certificate: both, key: Vec::new() };
    let identity = LocalIdentity::load(source).ok().unwrap();
    let bound = Listener::bind(address(), identity, anchor(&m.authority, Role::Server));
    assert!(matches!(bound, Err(TlsError::UnsupportedIdentityFormat)));
}

#[test]
fn listener_refuses_a_clients_anchor() {
    let m = material("123456");
    let bound = Listener::bind(address(), pair(&m), anchor(&m.authority, Role::Client));
    assert!(matches!(bound, Err(TlsError::MisplacedTrustAnchor)));
    let bound =
        Listener::bind(address(), bundled(&m, "123456").ok().unwrap(), anchor(&m.authority, Role::Client));
    assert!(matches!(bound, Err(TlsError::MisplacedTrustAnchor)));
}

#[test]
fn trusted_client_is_established_and_served() {
    let m = material("123456");
    let listener = listening(&m);
    let mut connection = listener.accept().unwrap();
    assert_eq!(connection.state(), ConnectionState::HandshakeInProgress);
    assert!(!connection.may_serve());
    listener.settle(&mut connection, &presented(&m.authority, true, false));
    assert_eq!(connection.state(), ConnectionState::Established);
    assert!(connection.may_serve());
    assert_eq!(connection.failure(), None);
    connection.close();
    assert_eq!(connection.state(), ConnectionState::Closed);
    assert!(!connection.may_serve());
}

#[test]
fn untrusted_client_is_rejected_and_the_listener_goes_on() {
    let m = material("123456");
    let listener = listening(&m);
    let mut connection = listener.accept().unwrap();
    listener.settle(&mut connection, &presented(&m.authority, false, false));
    assert_eq!(connection.state(), ConnectionState::Rejected);
    assert!(!connection.may_serve());
    assert_eq!(connection.failure(), Some(TlsError::CertificateValidationError));
    assert_eq!(listener.state(), ListenerState::Listening);
    let mut next = listener.accept().unwrap();
    listener.settle(&mut next, &presented(&m.authority, true, false));
    assert!(next.may_serve());
}

#[test]
fn absent_certificate_is_rejected_like_an_untrusted_one() {
    let m = material("123456");
    let listener = listening(&m);
    let mut anonymous = listener.accept().unwrap();
    listener.settle(&mut anonymous, &PeerEvidence::Absent);
    let mut untrusted = listener.accept().unwrap();
    listener.settle(&mut untrusted, &presented(&m.authority, false, false));
    assert_eq!(anonymous.state(), ConnectionState::Rejected);
    assert_eq!(anonymous.state(), untrusted.state());
    assert_eq!(anonymous.failure(), untrusted.failure());
    assert_eq!(anonymous.may_serve(), untrusted.may_serve());
}

#[test]
fn expired_certificate_is_rejected() {
    let m = material("123456");
    let listener = listening(&m);
    let mut connection = listener.accept().unwrap();
    listener.settle(&mut connection, &presented(&m.authority, true, true));
    assert_eq!(connection.state(), ConnectionState::Rejected);
}

#[test]
fn swapped_anchor_rejects_clients_of_the_first_authority() {
    let issuing = material("123456");
    let other = material("123456");
    let evidence = presented(&issuing.authority, true, false);
    let listener = listening(&issuing);
    let mut connection = listener.accept().unwrap();
    listener.settle(&mut connection, &evidence);
    assert_eq!(connection.state(), ConnectionState::Established);
    let swapped = {
        let mut listener = Listener::bind(address(), pair(&issuing), anchor(&other.authority, Role::Server))
            .ok()
            .unwrap();
        assert!(listener.listen());
        listener
    };
    let mut connection = swapped.accept().unwrap();
    swapped.settle(&mut connection, &evidence);
    assert_eq!(connection.state(), ConnectionState::Rejected);
    assert_eq!(connection.failure(), Some(TlsError::CertificateValidationError));
}

#[test]
fn a_settled_connection_is_not_settled_again() {
    let m = material("123456");
    let listener = listening(&m);
    let mut rejected = listener.accept().unwrap();
    listener.settle(&mut rejected, &PeerEvidence::Absent);
    listener.settle(&mut rejected, &presented(&m.authority, true, false));
    assert_eq!(rejected.state(), ConnectionState::Rejected);
    let mut established = listener.accept().unwrap();
    listener.settle(&mut established, &presented(&m.authority, true, false));
    listener.settle(&mut established, &PeerEvidence::Absent);
    assert_eq!(established.state(), ConnectionState::Established);
    let mut closed = listener.accept().unwrap();
    closed.close();
    listener.settle(&mut closed, &presented(&m.authority, true, false));
    assert_eq!(closed.state(), ConnectionState::Closed);
}

// Settings

fn settings(format: IdentityFormat, password: Option<&str>, key: Option<&str>) -> Settings {
    Settings {
        bind: address(),
        server_certificate: "ca/localhost.bundle.crt".to_string(),
        server_key: "ca/localhost.key".to_string(),
        client_anchor: "ca/second_ca.crt".to_string(),
        server_anchor: "ca/ca.crt".to_string(),
        client_format: format,
        client_identity: "ca/second_client.p12".to_string(),
        client_key: key.map(|k| k.to_string()),
        password: password.map(|p| p.to_string()),
        target: "https://localhost:3030".to_string(),
    }
}

#[test]
fn bundle_settings_give_a_bundle_source() {
    let s = settings(IdentityFormat::Bundle, Some("123456"), None);
    assert!(!s.reads_client_key());
    match s.client_source(vec![1, 2, 3], vec![4]) {
        IdentitySource::Bundle { archive, password } => {
            assert_eq!(archive, vec![1, 2, 3]);
            assert_eq!(password, Some("123456".to_string()));
        }
        IdentitySource::PemPair { .. } => panic!("a bundle was configured"),
    }
}

#[test]
fn pem_settings_give_a_pair_source() {
    let s = settings(IdentityFormat::PemPair, Some("ignored"), Some("ca/second_client.key"));
    assert!(s.reads_client_key());
    match s.client_source(vec![1, 2, 3], vec![4]) {
        IdentitySource::PemPair { certificate, key } => {
            assert_eq!(certificate, vec![1, 2, 3]);
            assert_eq!(key, vec![4]);
        }
        IdentitySource::Bundle { .. } => panic!("a pair was configured"),
    }
    assert!(!settings(IdentityFormat::PemPair, None, None).reads_client_key());
    assert!(!settings(IdentityFormat::Bundle, None, Some("x")).reads_client_key());
}

#[test]
fn configured_bundle_loads_end_to_end() {
    let m = material("123456");
    let s = settings(IdentityFormat::Bundle, Some("123456"), None);
    assert!(LocalIdentity::load(s.client_source(m.bundle.clone(), Vec::new())).is_ok());
    let s = settings(IdentityFormat::Bundle, Some("nope"), None);
    assert!(matches!(
        LocalIdentity::load(s.client_source(m.bundle.clone(), Vec::new())),
        Err(TlsError::WrongPassword)
    ));
}
