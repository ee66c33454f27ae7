//! Certificate fingerprints and the pinning checks of both sides of a
//! session. A fingerprint is the lowercase hex of the SHA-256 of an
//! end-entity certificate's DER encoding.

use vstd::prelude::*;

use crate::config::Receiver;
use crate::config::Sender;

verus! {

/// The SHA-256 digest of `data`.
pub uninterp spec fn sha256_digest(data: Seq<u8>) -> Seq<u8>;

/// The lowercase hex digit of a value below sixteen.
pub open spec fn hex_digit(nibble: u8) -> char {
    if nibble < 10 {
        (48 + nibble) as char
    } else {
        (87 + nibble) as char
    }
}

/// Lowercase hex: two digits for each octet, the high half first.
pub open spec fn hex_lower(bytes: Seq<u8>) -> Seq<char> {
    Seq::new(
        2 * bytes.len(),
        |i: int|
            hex_digit(
                if i % 2 == 0 {
                    bytes[i / 2] / 16
                } else {
                    bytes[i / 2] % 16
                },
            ),
    )
}

/// The fingerprint of the certificate with that DER encoding.
pub open spec fn fingerprint_of(der: Seq<u8>) -> Seq<char> {
    hex_lower(sha256_digest(der))
}

/// Why a peer was turned away.
#[derive(Clone, Copy, Debug, PartialEq, Eq, Structural)]
pub enum TlsError {
    /// The peer's certificate is not the one, or not one of those, that the
    /// configuration pins.
    NotAuthorized,
}

/// Calls `ring::digest::digest` with `ring::digest::SHA256`. Claimed of it:
/// the octets it returns are a function of the input alone.
#[verifier::external_body]
fn sha256(data: &[u8]) -> (digest: Vec<u8>)
    ensures
        digest@ == sha256_digest(data@),
{
    ring::digest::digest(&ring::digest::SHA256, data).as_ref().to_vec()
}

/// Calls `hex::encode`. Claimed of it: it writes each octet as two digits
/// out of `0123456789abcdef`, the high half first.
#[verifier::external_body]
fn hex_encode(bytes: &[u8]) -> (text: String)
    ensures
        text@ == hex_lower(bytes@),
{
    hex::encode(bytes)
}

/// The fingerprint of the certificate with that DER encoding.
pub fn get_cert_fingerprint(der: &[u8]) -> (fingerprint: String)
    ensures
        fingerprint@ == fingerprint_of(der@),
{
    let digest = sha256(der);
    hex_encode(digest.as_slice())
}

/// Whether the sender is pinned to that fingerprint.
pub open spec fn sender_pinned_to(sender: Sender, fingerprint: Seq<char>) -> bool {
    match sender.fingerprint {
        Some(expected) => expected@ == fingerprint,
        None => false,
    }
}

/// Whether the receiver is pinned to that fingerprint.
pub open spec fn receiver_pinned_to(receiver: Receiver, fingerprint: Seq<char>) -> bool {
    match receiver.fingerprint {
        Some(expected) => expected@ == fingerprint,
        None => false,
    }
}

/// The first receiver that is pinned to that fingerprint.
pub open spec fn first_pinned(receivers: Seq<Receiver>, fingerprint: Seq<char>) -> Option<int>
    decreases receivers.len(),
{
    if receivers.len() == 0 {
        None
    } else {
        match first_pinned(receivers.drop_last(), fingerprint) {
            Some(at) => Some(at),
            None => if receiver_pinned_to(receivers.last(), fingerprint) {
                Some(receivers.len() - 1)
            } else {
                None
            },
        }
    }
}

/// Checks the certificate of a sender that this host connects to.
#[derive(Clone, Debug)]
pub struct ServerVerifier {
    pub sender: Sender,
}

impl ServerVerifier {
    /// The verifier for that sender.
    pub fn new(sender: Sender) -> (verifier: Self)
        ensures
            verifier.sender == sender,
    {
        ServerVerifier { sender }
    }

    /// Whether a sender with that fingerprint is the one that is expected:
    /// a fingerprint is configured, and it is this one.
    pub fn accepts(&self, fingerprint: &String) -> (accepted: bool)
        ensures
            accepted == sender_pinned_to(self.sender, fingerprint@),
    {
        match &self.sender.fingerprint {
            Some(expected) => *expected == *fingerprint,
            None => false,
        }
    }

    /// Accepts the sender's end-entity certificate if and only if its
    /// fingerprint is the configured one.
    pub fn verify_server_cert(&self, end_identity: &[u8]) -> (verified: Result<(), TlsError>)
        ensures
            verified.is_ok() == sender_pinned_to(self.sender, fingerprint_of(end_identity@)),
            verified.is_err() ==> verified == Err::<(), TlsError>(TlsError::NotAuthorized),
    {
        let fingerprint = get_cert_fingerprint(end_identity);
        if self.accepts(&fingerprint) {
            Ok(())
        } else {
            Err(TlsError::NotAuthorized)
        }
    }
}

/// Checks the certificate of a sender for which nothing is pinned. A
/// sender is accepted only by the fingerprint that is expected of it, so
/// this verifier accepts none.
#[derive(Clone, Copy, Debug)]
pub struct Verifier {}

impl Verifier {
    /// A verifier with nothing pinned.
    pub fn new() -> (verifier: Self) {
        Verifier {}
    }

    /// Rejects the sender's end-entity certificate, whatever it is.
    pub fn verify_server_cert(&self, end_identity: &[u8]) -> (verified: Result<(), TlsError>)
        ensures
            verified == Err::<(), TlsError>(TlsError::NotAuthorized),
    {
        Err(TlsError::NotAuthorized)
    }
}

/// Checks the certificate of a receiver that connects to this host.
#[derive(Clone, Debug)]
pub struct ClientVerifier {
    pub receivers: Vec<Receiver>,
}

impl ClientVerifier {
    /// The verifier for those receivers.
    pub fn new(receivers: Vec<Receiver>) -> (verifier: Self)
        ensures
            verifier.receivers == receivers,
    {
        ClientVerifier { receivers }
    }

    /// A receiver has to present a certificate.
    pub fn client_auth_mandatory(&self) -> (mandatory: bool)
        ensures
            mandatory,
    {
        true
    }

    /// The place of the first configured receiver with that fingerprint.
    pub fn authorize(&self, fingerprint: &String) -> (found: Option<usize>)
        ensures
            match found {
                Some(at) => first_pinned(self.receivers@, fingerprint@) == Some(at as int),
                None => first_pinned(self.receivers@, fingerprint@).is_none(),
            },
    {
        let mut at: usize = 0;
        while at < self.receivers.len()
            invariant
                at <= self.receivers.len(),
                first_pinned(self.receivers@.subrange(0, at as int), fingerprint@).is_none(),
            decreases self.receivers.len() - at,
        {
            let pinned = match &self.receivers[at].fingerprint {
                Some(expected) => *expected == *fingerprint,
                None => false,
            };
            proof {
                assert(self.receivers@.subrange(0, at as int + 1).drop_last()
                    =~= self.receivers@.subrange(0, at as int));
                if pinned {
                    lemma_first_pinned_stays(
                        self.receivers@,
                        fingerprint@,
                        at as int + 1,
                        at as int,
                    );
                }
            }
            if pinned {
                return Some(at);
            }
            at += 1;
        }
        assert(self.receivers@.subrange(0, at as int) =~= self.receivers@);
        None
    }

    /// Accepts the receiver's end-entity certificate if and only if its
    /// fingerprint is that of a configured receiver, and says which.
    pub fn verify_client_cert(&self, end_identity: &[u8]) -> (verified: Result<usize, TlsError>)
        ensures
            match verified {
                Ok(at) => first_pinned(self.receivers@, fingerprint_of(end_identity@)) == Some(
                    at as int,
                ),
                Err(error) => error == TlsError::NotAuthorized && first_pinned(
                    self.receivers@,
                    fingerprint_of(end_identity@),
                ).is_none(),
            },
    {
        let fingerprint = get_cert_fingerprint(end_identity);
        match self.authorize(&fingerprint) {
            Some(at) => Ok(at),
            None => Err(TlsError::NotAuthorized),
        }
    }
}

/// A receiver is found if and only if some receiver is pinned to the
/// fingerprint, and the one found is the first such.
pub proof fn lemma_first_pinned(receivers: Seq<Receiver>, fingerprint: Seq<char>)
    ensures
        match first_pinned(receivers, fingerprint) {
            Some(at) => 0 <= at < receivers.len() && receiver_pinned_to(receivers[at], fingerprint)
                && forall|j: int| 0 <= j < at ==> !receiver_pinned_to(receivers[j], fingerprint),
            None => forall|j: int|
                0 <= j < receivers.len() ==> !receiver_pinned_to(receivers[j], fingerprint),
        },
    decreases receivers.len(),
{
    if receivers.len() > 0 {
        let init = receivers.drop_last();
        lemma_first_pinned(init, fingerprint);
        match first_pinned(init, fingerprint) {
            Some(at) => {
                assert(init[at] == receivers[at]);
                assert forall|j: int| 0 <= j < at implies !receiver_pinned_to(
                    receivers[j],
                    fingerprint,
                ) by {
                    assert(init[j] == receivers[j]);
                }
            },
            None => {
                assert forall|j: int| 0 <= j < init.len() implies !receiver_pinned_to(
                    receivers[j],
                    fingerprint,
                ) by {
                    assert(init[j] == receivers[j]);
                }
            },
        }
    }
}

/// What was found among the first `upto` receivers is found among all.
proof fn lemma_first_pinned_stays(
    receivers: Seq<Receiver>,
    fingerprint: Seq<char>,
    upto: int,
    at: int,
)
    requires
        0 <= upto <= receivers.len(),
        first_pinned(receivers.subrange(0, upto), fingerprint) == Some(at),
    ensures
        first_pinned(receivers, fingerprint) == Some(at),
    decreases receivers.len() - upto,
{
    if upto < receivers.len() {
        assert(receivers.subrange(0, upto + 1).drop_last() =~= receivers.subrange(0, upto));
        lemma_first_pinned_stays(receivers, fingerprint, upto + 1, at);
    } else {
        assert(receivers.subrange(0, upto) =~= receivers);
    }
}

} // verus!
