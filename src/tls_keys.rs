//! Reading the TLS certificate chain and the single private key out of PEM text.
use vstd::prelude::*;

verus! {

/// The DER contents of the PKCS#8 key blocks of a PEM text, in order, as
/// rustls-pemfile reads them; `None` when the text is malformed.
pub uninterp spec fn pkcs8_keys_in(pem: Seq<u8>) -> Option<Seq<Seq<u8>>>;

/// The DER contents of the certificate blocks of a PEM text, in order, as
/// rustls-pemfile reads them; `None` when the text is malformed.
pub uninterp spec fn certificates_in(pem: Seq<u8>) -> Option<Seq<Seq<u8>>>;

pub open spec fn blobs_view(v: Seq<Vec<u8>>) -> Seq<Seq<u8>> {
    v.map_values(|b: Vec<u8>| b@)
}

/// Relies on `rustls_pemfile::pkcs8_private_keys` over an in-memory reader:
/// every PKCS#8 key block, in order, or an error on malformed input.
#[verifier::external_body]
fn read_pkcs8_keys(pem: &[u8]) -> (r: Option<Vec<Vec<u8>>>)
    ensures
        match r {
            Some(keys) => pkcs8_keys_in(pem@) == Some(blobs_view(keys@)),
            None => pkcs8_keys_in(pem@) is None,
        },
{
    let mut reader: &[u8] = pem;
    rustls_pemfile::pkcs8_private_keys(&mut reader).ok()
}

/// Relies on `rustls_pemfile::certs` over an in-memory reader: every
/// certificate block, in order, or an error on malformed input.
#[verifier::external_body]
fn read_certificates(pem: &[u8]) -> (r: Option<Vec<Vec<u8>>>)
    ensures
        match r {
            Some(certs) => certificates_in(pem@) == Some(blobs_view(certs@)),
            None => certificates_in(pem@) is None,
        },
{
    let mut reader: &[u8] = pem;
    rustls_pemfile::certs(&mut reader).ok()
}

/// Why no private key could be taken from a PEM text.
#[derive(Debug, Clone, Copy, PartialEq, Eq, Structural)]
pub enum KeyError {
    /// The text is not well-formed PEM.
    Unreadable,
    /// It holds no PKCS#8 key.
    NoKey,
    /// It holds more than one PKCS#8 key.
    SeveralKeys,
}

/// The key a server is given: exactly one key must have been read.
pub open spec fn single_key_of(keys: Option<Seq<Seq<u8>>>) -> Result<Seq<u8>, KeyError> {
    match keys {
        None => Err(KeyError::Unreadable),
        Some(k) => if k.len() == 0 {
            Err(KeyError::NoKey)
        } else if k.len() > 1 {
            Err(KeyError::SeveralKeys)
        } else {
            Ok(k[0])
        },
    }
}

pub open spec fn key_result_view(r: Result<Vec<u8>, KeyError>) -> Result<Seq<u8>, KeyError> {
    match r {
        Ok(k) => Ok(k@),
        Err(e) => Err(e),
    }
}

/// Takes the one key out of the keys read from a PEM text.
pub fn single_key(keys: Option<Vec<Vec<u8>>>) -> (r: Result<Vec<u8>, KeyError>)
    ensures
        key_result_view(r) == single_key_of(
            match keys {
                Some(k) => Some(blobs_view(k@)),
                None => None,
            },
        ),
{
    match keys {
        None => Err(KeyError::Unreadable),
        Some(mut k) => {
            if k.len() == 0 {
                Err(KeyError::NoKey)
            } else if k.len() > 1 {
                Err(KeyError::SeveralKeys)
            } else {
                let ghost kv = blobs_view(k@);
                let key = k.pop().unwrap();
                assert(kv[0] == key@);
                Ok(key)
            }
        },
    }
}

/// The private key of a PEM text, which must hold exactly one PKCS#8 key.
pub fn private_key_from_pem(pem: &[u8]) -> (r: Result<Vec<u8>, KeyError>)
    ensures
        key_result_view(r) == single_key_of(pkcs8_keys_in(pem@)),
{
    single_key(read_pkcs8_keys(pem))
}

/// The certificate chain of a PEM text, in order; `None` when it is malformed.
pub fn certificates_from_pem(pem: &[u8]) -> (r: Option<Vec<Vec<u8>>>)
    ensures
        match r {
            Some(certs) => certificates_in(pem@) == Some(blobs_view(certs@)),
            None => certificates_in(pem@) is None,
        },
{
    read_certificates(pem)
}

} // verus!
