use vstd::prelude::*;

use crate::bytes::copy_bytes;

verus! {

/// Why server identity material could not be assembled from the two PEM
/// inputs.
#[derive(Clone, Copy, Debug, PartialEq, Eq, Structural)]
pub enum IdentityError {
    /// The key input is not well-formed PEM.
    UnreadableKey,
    /// The key input holds no PKCS8-encoded private key.
    NoKey,
    /// The key input holds more than one PKCS8-encoded private key.
    MultipleKeys,
    /// The certificate input is not well-formed PEM.
    UnreadableCerts,
}

/// The DER contents of the PKCS8 private-key sections of a PEM input, in
/// order, or nothing where the input is not well-formed PEM; a function of
/// the bytes alone.
pub uninterp spec fn pkcs8_keys_of(pem: Seq<u8>) -> Option<Seq<Seq<u8>>>;

/// The DER contents of the certificate sections of a PEM input, in order, or
/// nothing where the input is not well-formed PEM; a function of the bytes
/// alone.
pub uninterp spec fn certs_of(pem: Seq<u8>) -> Option<Seq<Seq<u8>>>;

/// Relies on rustls_pemfile::pkcs8_private_keys: scans the input for PKCS8
/// private-key sections and returns their DER contents in order, erring only
/// on malformed PEM; the result depends on the bytes alone.
#[verifier::external_body]
fn parse_pkcs8_keys(pem: &Vec<u8>) -> (r: Option<Vec<Vec<u8>>>)
    ensures
        r is Some <==> pkcs8_keys_of(pem@) is Some,
        r matches Some(keys) ==> Some(keys.deep_view()) == pkcs8_keys_of(pem@),
{
    let mut reader = std::io::Cursor::new(pem.as_slice());
    rustls_pemfile::pkcs8_private_keys(&mut reader).ok()
}

/// Relies on rustls_pemfile::certs: scans the input for certificate sections
/// and returns their DER contents in order, erring only on malformed PEM;
/// the result depends on the bytes alone.
#[verifier::external_body]
fn parse_certs(pem: &Vec<u8>) -> (r: Option<Vec<Vec<u8>>>)
    ensures
        r is Some <==> certs_of(pem@) is Some,
        r matches Some(certs) ==> Some(certs.deep_view()) == certs_of(pem@),
{
    let mut reader = std::io::Cursor::new(pem.as_slice());
    rustls_pemfile::certs(&mut reader).ok()
}

/// Picks the server's private key from the parsed PKCS8 sections: exactly
/// one must be present; none or several is a startup failure.
pub fn select_private_key(keys: &Vec<Vec<u8>>) -> (r: Result<Vec<u8>, IdentityError>)
    ensures
        keys@.len() == 0 ==> r == Err::<Vec<u8>, IdentityError>(IdentityError::NoKey),
        keys@.len() == 1 ==> (r matches Ok(k) && k@ == keys@[0]@),
        keys@.len() > 1 ==> r == Err::<Vec<u8>, IdentityError>(IdentityError::MultipleKeys),
{
    if keys.len() == 0 {
        Err(IdentityError::NoKey)
    } else if keys.len() == 1 {
        Ok(copy_bytes(&keys[0]))
    } else {
        Err(IdentityError::MultipleKeys)
    }
}

/// Loads the server's private key from a PEM input: the input must be
/// well-formed PEM holding exactly one PKCS8-encoded private key, whose DER
/// contents are returned.
pub fn load_private_key(key_pem: &Vec<u8>) -> (r: Result<Vec<u8>, IdentityError>)
    ensures
        pkcs8_keys_of(key_pem@) is None ==> r == Err::<Vec<u8>, IdentityError>(
            IdentityError::UnreadableKey,
        ),
        pkcs8_keys_of(key_pem@) matches Some(keys) ==> {
            &&& keys.len() == 0 ==> r == Err::<Vec<u8>, IdentityError>(IdentityError::NoKey)
            &&& keys.len() == 1 ==> (r matches Ok(k) && k@ == keys[0])
            &&& keys.len() > 1 ==> r == Err::<Vec<u8>, IdentityError>(IdentityError::MultipleKeys)
        },
{
    match parse_pkcs8_keys(key_pem) {
        None => Err(IdentityError::UnreadableKey),
        Some(keys) => {
            let r = select_private_key(&keys);
            proof {
                let parsed = pkcs8_keys_of(key_pem@)->Some_0;
                assert(keys.deep_view() == parsed);
                assert(keys.deep_view().len() == keys@.len());
                if keys@.len() == 1 {
                    assert(keys@[0].deep_view() =~= keys@[0]@);
                    assert(keys.deep_view()[0] == keys@[0]@);
                }
            }
            r
        },
    }
}

/// Loads the server identity from the two PEM inputs, key first as the
/// startup sequence does: the certificate chain's DER sections and the DER
/// contents of the single PKCS8 private key.
pub fn load_identity(cert_pem: &Vec<u8>, key_pem: &Vec<u8>) -> (r: Result<
    (Vec<Vec<u8>>, Vec<u8>),
    IdentityError,
>)
    ensures
        pkcs8_keys_of(key_pem@) is None ==> r == Err::<(Vec<Vec<u8>>, Vec<u8>), IdentityError>(
            IdentityError::UnreadableKey,
        ),
        pkcs8_keys_of(key_pem@) matches Some(keys) ==> {
            &&& keys.len() == 0 ==> r == Err::<(Vec<Vec<u8>>, Vec<u8>), IdentityError>(
                IdentityError::NoKey,
            )
            &&& keys.len() > 1 ==> r == Err::<(Vec<Vec<u8>>, Vec<u8>), IdentityError>(
                IdentityError::MultipleKeys,
            )
            &&& keys.len() == 1 ==> (match certs_of(cert_pem@) {
                None => r == Err::<(Vec<Vec<u8>>, Vec<u8>), IdentityError>(
                    IdentityError::UnreadableCerts,
                ),
                Some(certs) => (r matches Ok(ck) && ck.0.deep_view() == certs && ck.1@ == keys[0]),
            })
        },
{
    let key = match load_private_key(key_pem) {
        Err(e) => {
            return Err(e);
        },
        Ok(k) => k,
    };
    match parse_certs(cert_pem) {
        None => Err(IdentityError::UnreadableCerts),
        Some(certs) => Ok((certs, key)),
    }
}

} // verus!
