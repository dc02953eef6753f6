//! The listener's ephemeral identity: a fresh key pair and a certificate
//! self-signed by it, bound to the fixed subject name, generated anew on
//! every run and never persisted.

use vstd::prelude::*;
use crate::policy::subject_name;

verus! {

/// DER encodings of one ephemeral identity: the self-signed certificate and
/// the private key behind it.
pub struct IdentityDer {
    pub cert_der: Vec<u8>,
    pub key_der: Vec<u8>,
}

/// A fatal setup failure: without an identity the listener cannot start,
/// and there is no fallback.
#[derive(PartialEq, Eq, Structural, Clone, Copy, Debug)]
pub enum SetupError {
    CertificateGeneration,
}

/// Relies on rcgen::generate_simple_self_signed for a fresh key pair and a
/// certificate self-signed by it, valid for the given subject name, and on
/// Certificate::der and KeyPair::serialize_der for the DER bytes. The
/// result depends on fresh randomness, so nothing is promised of the bytes
/// beyond this: a DER-encoded certificate and a PKCS#8 document are never
/// empty.
#[verifier::external_body]
fn generate_self_signed(subject: String) -> (r: Result<IdentityDer, ()>)
    ensures
        r matches Ok(id) ==> id.cert_der@.len() > 0 && id.key_der@.len() > 0,
{
    match rcgen::generate_simple_self_signed(vec![subject]) {
        Ok(generated) => Ok(
            IdentityDer {
                cert_der: generated.cert.der().to_vec(),
                key_der: generated.signing_key.serialize_der(),
            },
        ),
        Err(_) => Err(()),
    }
}

/// Provision the ephemeral identity for this run, bound to the fixed
/// subject name. The bytes are fresh on every call — success cannot be
/// promised, but every successful outcome carries a non-empty certificate
/// and a non-empty key. A generation failure is reported as the fatal
/// [`SetupError::CertificateGeneration`].
pub fn provision_identity() -> (r: Result<IdentityDer, SetupError>)
    ensures
        r matches Ok(id) ==> id.cert_der@.len() > 0 && id.key_der@.len() > 0,
{
    match generate_self_signed(subject_name()) {
        Ok(identity) => Ok(identity),
        Err(_) => Err(SetupError::CertificateGeneration),
    }
}

} // verus!
