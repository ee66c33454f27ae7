use evkvm::config::{roles, ConfigError, Receiver, Roles, Sender, DEFAULT_PORT};
use evkvm::fingerprint::{
    get_cert_fingerprint, ClientVerifier, ServerVerifier, TlsError, Verifier,
};

const HELLO: &str = "09ca7e4eaa6e8ae9c7d261167129184883644d07dfba7cbfbc4c8a2e08360d5b";
const EMPTY: &str = "e3b0c44298fc1c149afbf4c8996fb92427ae41e4649b934ca495991b7852b855";
const ABC: &str = "ba7816bf8f01cfea414140de5dae2223b00361a396177a9cb410ff61f20015ad";

fn sender(fingerprint: Option<&str>) -> Sender {
    Sender {
        nick: None,
        address: String::from("10.0.0.2"),
        port: None,
        fingerprint: fingerprint.map(String::from),
    }
}

fn receiver(nick: Option<&str>, fingerprint: Option<&str>) -> Receiver {
    Receiver { nick: nick.map(String::from), fingerprint: fingerprint.map(String::from) }
}

#[test]
fn fingerprint_is_lowercase_hex_of_sha256() {
    assert_eq!(get_cert_fingerprint(b"hello, world"), HELLO);
    assert_eq!(get_cert_fingerprint(b""), EMPTY);
    assert_eq!(get_cert_fingerprint(b"abc"), ABC);
    assert_eq!(get_cert_fingerprint(b"abc").len(), 64);
}

#[test]
fn sender_with_the_pinned_fingerprint_is_accepted() {
    let verifier = ServerVerifier::new(sender(Some(ABC)));
    assert!(verifier.accepts(&String::from(ABC)));
    assert_eq!(verifier.verify_server_cert(b"abc"), Ok(()));
}

#[test]
fn sender_with_another_fingerprint_is_rejected() {
    let verifier = ServerVerifier::new(sender(Some(ABC)));
    assert!(!verifier.accepts(&String::from(HELLO)));
    assert_eq!(verifier.verify_server_cert(b"hello, world"), Err(TlsError::NotAuthorized));
    let upper = ServerVerifier::new(sender(Some(&ABC.to_uppercase())));
    assert_eq!(upper.verify_server_cert(b"abc"), Err(TlsError::NotAuthorized));
}

#[test]
fn sender_without_fingerprint_is_rejected() {
    let verifier = ServerVerifier::new(sender(None));
    assert_eq!(verifier.verify_server_cert(b"abc"), Err(TlsError::NotAuthorized));
    assert!(!verifier.accepts(&String::from(ABC)));
}

#[test]
fn verifier_with_nothing_pinned_accepts_no_sender() {
    let verifier = Verifier::new();
    assert_eq!(verifier.verify_server_cert(b"abc"), Err(TlsError::NotAuthorized));
    assert_eq!(verifier.verify_server_cert(b""), Err(TlsError::NotAuthorized));
}

#[test]
fn receiver_is_found_by_fingerprint() {
    let verifier = ClientVerifier::new(vec![
        receiver(None, None),
        receiver(Some("desk"), Some(HELLO)),
        receiver(None, Some(ABC)),
        receiver(Some("again"), Some(ABC)),
    ]);
    assert!(verifier.client_auth_mandatory());
    assert_eq!(verifier.verify_client_cert(b"hello, world"), Ok(1));
    assert_eq!(verifier.verify_client_cert(b"abc"), Ok(2));
    assert_eq!(verifier.authorize(&String::from(ABC)), Some(2));
    assert_eq!(verifier.receivers[1].name(&String::from(HELLO)), "desk");
    assert_eq!(verifier.receivers[2].name(&String::from(ABC)), ABC);
}

#[test]
fn receiver_that_is_not_configured_is_rejected() {
    let verifier =
        ClientVerifier::new(vec![receiver(None, Some(HELLO)), receiver(Some("x"), None)]);
    assert_eq!(verifier.verify_client_cert(b"abc"), Err(TlsError::NotAuthorized));
    assert_eq!(verifier.authorize(&String::from(EMPTY)), None);
    let nobody = ClientVerifier::new(Vec::new());
    assert_eq!(nobody.verify_client_cert(b"abc"), Err(TlsError::NotAuthorized));
}

#[test]
fn sender_port_and_name() {
    assert_eq!(DEFAULT_PORT, 5258);
    let mut peer = sender(None);
    assert_eq!(peer.port_or_default(), 5258);
    assert_eq!(peer.name(), "10.0.0.2");
    peer.port = Some(6000);
    peer.nick = Some(String::from("laptop"));
    assert_eq!(peer.port_or_default(), 6000);
    assert_eq!(peer.name(), "laptop");
}

#[test]
fn roles_follow_the_peers() {
    assert_eq!(roles(true, true, 0, 1), Ok(Roles { server: true, client: false }));
    assert_eq!(roles(true, true, 2, 0), Ok(Roles { server: false, client: true }));
    assert_eq!(roles(true, true, 1, 1), Ok(Roles { server: true, client: true }));
    // A host that only injects needs neither an address nor a combo.
    assert_eq!(roles(false, false, 1, 0), Ok(Roles { server: false, client: true }));
}

#[test]
fn configuration_that_lacks_something() {
    assert_eq!(roles(true, true, 0, 0), Err(ConfigError::NoPeers));
    assert_eq!(roles(false, false, 0, 0), Err(ConfigError::NoPeers));
    assert_eq!(roles(false, true, 0, 1), Err(ConfigError::MissingListenAddress));
    assert_eq!(roles(false, false, 1, 1), Err(ConfigError::MissingListenAddress));
    assert_eq!(roles(true, false, 0, 1), Err(ConfigError::MissingSwitchKeys));
}
