//! The identity of a host: the certificate and the private key that its
//! identity file holds.

use vstd::prelude::*;

verus! {

/// One item of an identity file.
#[derive(Clone, Debug, PartialEq, Eq)]
pub enum PemItem {
    /// An X.509 certificate, as DER.
    Certificate(Vec<u8>),
    /// A PKCS#8 private key, as DER.
    PrivateKey(Vec<u8>),
    /// Anything else.
    Other,
}

/// What an identity file lacks.
#[derive(Clone, Copy, Debug, PartialEq, Eq, Structural)]
pub enum IdentityError {
    MissingCertificate,
    MissingPrivateKey,
    MissingBoth,
}

/// The certificate that a host presents and the key that goes with it.
#[derive(Clone, Debug, PartialEq, Eq)]
pub struct Identity {
    pub certificate: Vec<u8>,
    pub private_key: Vec<u8>,
}

/// The last certificate among the items.
pub open spec fn last_certificate(items: Seq<PemItem>) -> Option<Seq<u8>>
    decreases items.len(),
{
    if items.len() == 0 {
        None
    } else {
        match items.last() {
            PemItem::Certificate(der) => Some(der@),
            _ => last_certificate(items.drop_last()),
        }
    }
}

/// The last private key among the items.
pub open spec fn last_private_key(items: Seq<PemItem>) -> Option<Seq<u8>>
    decreases items.len(),
{
    if items.len() == 0 {
        None
    } else {
        match items.last() {
            PemItem::PrivateKey(der) => Some(der@),
            _ => last_private_key(items.drop_last()),
        }
    }
}

/// The identity that the items of an identity file make: its last
/// certificate and its last private key. A file that lacks either has no
/// identity, and the error says what it lacks.
pub fn identity_from(items: Vec<PemItem>) -> (identity: Result<Identity, IdentityError>)
    ensures
        match identity {
            Ok(found) => last_certificate(items@) == Some(found.certificate@) && last_private_key(
                items@,
            ) == Some(found.private_key@),
            Err(IdentityError::MissingCertificate) => last_certificate(items@).is_none()
                && last_private_key(items@).is_some(),
            Err(IdentityError::MissingPrivateKey) => last_certificate(items@).is_some()
                && last_private_key(items@).is_none(),
            Err(IdentityError::MissingBoth) => last_certificate(items@).is_none()
                && last_private_key(items@).is_none(),
        },
{
    let ghost all = items@;
    let mut items = items;
    let mut certificate: Option<Vec<u8>> = None;
    let mut private_key: Option<Vec<u8>> = None;
    while items.len() > 0
        invariant
            match certificate {
                Some(der) => last_certificate(all) == Some(der@),
                None => last_certificate(all) == last_certificate(items@),
            },
            match private_key {
                Some(der) => last_private_key(all) == Some(der@),
                None => last_private_key(all) == last_private_key(items@),
            },
        decreases items.len(),
    {
        let ghost before = items@;
        let item = items.pop();
        assert(items@ =~= before.drop_last());
        match item {
            Some(PemItem::Certificate(der)) => {
                if certificate.is_none() {
                    certificate = Some(der);
                }
            },
            Some(PemItem::PrivateKey(der)) => {
                if private_key.is_none() {
                    private_key = Some(der);
                }
            },
            _ => {},
        }
    }
    match (certificate, private_key) {
        (Some(certificate), Some(private_key)) => Ok(Identity { certificate, private_key }),
        (None, Some(_)) => Err(IdentityError::MissingCertificate),
        (Some(_), None) => Err(IdentityError::MissingPrivateKey),
        (None, None) => Err(IdentityError::MissingBoth),
    }
}

} // verus!
