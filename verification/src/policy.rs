//! Fixed policies of both roles: the initiator's deliberate trust-everything
//! certificate policy, the advertised application protocol, the listener's
//! certificate subject, and the listener's one-connection constraint.

use vstd::prelude::*;

verus! {

broadcast use vstd::string::to_string_from_display_ensures_for_str;

/// The initiator's trust policy over a presented certificate: the channel is
/// encrypted, but the peer is deliberately not authenticated, so every
/// certificate — of any validity period, subject name or chain — is
/// accepted. This is a named policy, not an accident of implementation.
pub open spec fn certificate_accepted(cert_der: Seq<u8>, server_name: Seq<char>) -> bool {
    true
}

/// The initiator's trust policy over a handshake signature: every signature,
/// in every handshake mode, is taken as valid without inspection.
pub open spec fn signature_accepted(message: Seq<u8>, signature: Seq<u8>) -> bool {
    true
}

/// Decide whether a presented server certificate is acceptable. Under the
/// trust-everything policy the answer is `true` for every input.
pub fn accept_server_certificate(cert_der: &[u8], server_name: &str) -> (b: bool)
    ensures
        b == certificate_accepted(cert_der@, server_name@),
        b,
{
    true
}

/// Decide whether a handshake signature over `message` is acceptable. Under
/// the trust-everything policy the answer is `true` for every input, in both
/// handshake modes.
pub fn accept_handshake_signature(message: &[u8], signature: &[u8]) -> (b: bool)
    ensures
        b == signature_accepted(message@, signature@),
        b,
{
    true
}

/// The initiator's transport handshake never rejects a remote certificate,
/// whatever its validity or subject name, and never rejects a signature.
pub proof fn lemma_nothing_rejected(
    cert_der: Seq<u8>,
    server_name: Seq<char>,
    message: Seq<u8>,
    signature: Seq<u8>,
)
    ensures
        certificate_accepted(cert_der, server_name),
        signature_accepted(message, signature),
{
}

/// The signature scheme code points the initiator offers: all the common
/// schemes, as assigned by the TLS registry.
pub open spec fn offered_scheme_codes() -> Seq<u16> {
    seq![
        0x0201u16,  // RSA PKCS#1 SHA-1
        0x0203,  // ECDSA SHA-1
        0x0401,  // RSA PKCS#1 SHA-256
        0x0403,  // ECDSA P-256 SHA-256
        0x0501,  // RSA PKCS#1 SHA-384
        0x0503,  // ECDSA P-384 SHA-384
        0x0601,  // RSA PKCS#1 SHA-512
        0x0603,  // ECDSA P-521 SHA-512
        0x0804,  // RSA PSS SHA-256
        0x0805,  // RSA PSS SHA-384
        0x0806,  // RSA PSS SHA-512
        0x0807,  // Ed25519
        0x0808,  // Ed448
    ]
}

/// The scheme code points offered alongside the trust-everything policy,
/// exactly the thirteen common ones in registry order.
pub fn offered_schemes() -> (v: Vec<u16>)
    ensures
        v@ == offered_scheme_codes(),
{
    let mut v: Vec<u16> = Vec::new();
    v.push(0x0201);
    v.push(0x0203);
    v.push(0x0401);
    v.push(0x0403);
    v.push(0x0501);
    v.push(0x0503);
    v.push(0x0601);
    v.push(0x0603);
    v.push(0x0804);
    v.push(0x0805);
    v.push(0x0806);
    v.push(0x0807);
    v.push(0x0808);
    proof {
        assert(v@ =~= offered_scheme_codes());
    }
    v
}

/// The single application protocol identifier both roles advertise during
/// the transport handshake: the ASCII bytes of `http/1.1`.
pub open spec fn alpn_protocol_bytes() -> Seq<u8> {
    seq![0x68u8, 0x74, 0x74, 0x70, 0x2f, 0x31, 0x2e, 0x31]
}

/// The advertised application protocol identifier, as bytes.
pub fn alpn_protocol() -> (p: Vec<u8>)
    ensures
        p@ == alpn_protocol_bytes(),
{
    let mut p: Vec<u8> = Vec::new();
    p.push(0x68);  // h
    p.push(0x74);  // t
    p.push(0x74);  // t
    p.push(0x70);  // p
    p.push(0x2f);  // /
    p.push(0x31);  // 1
    p.push(0x2e);  // .
    p.push(0x31);  // 1
    proof {
        assert(p@ =~= alpn_protocol_bytes());
    }
    p
}

/// The fixed subject name the listener's ephemeral certificate is bound to.
pub fn subject_name() -> (s: String)
    ensures
        s@ == "localhost"@,
{
    "localhost".to_string()
}

/// The listener's acceptance policy: accepting is allowed only while no
/// connection has been accepted yet.
pub open spec fn accept_allowed(accepted_connections: nat) -> bool {
    accepted_connections == 0
}

/// The listener serves exactly one inbound connection per run: accepting is
/// allowed only while no connection has been accepted yet. A second attempt
/// during an active session is never examined.
pub fn may_accept_connection(accepted_connections: u64) -> (b: bool)
    ensures
        b == accept_allowed(accepted_connections as nat),
        b <==> accepted_connections == 0,
{
    accepted_connections == 0
}

/// How many connections a listener grants over a run of `attempts` inbound
/// connection attempts, starting with `granted` connections already granted,
/// when each attempt is granted exactly when [`accept_allowed`] holds of the
/// count granted so far — the shape of an accept loop that consults the
/// policy before every accept.
pub open spec fn connections_granted(granted: nat, attempts: nat) -> nat
    decreases attempts,
{
    if attempts == 0 {
        0
    } else if accept_allowed(granted) {
        1 + connections_granted(granted + 1, (attempts - 1) as nat)
    } else {
        connections_granted(granted, (attempts - 1) as nat)
    }
}

/// Only one inbound connection is ever granted in a run, however many
/// attempts arrive: the first attempt is granted, and every attempt after a
/// grant is left unexamined — it grants nothing, whatever its number.
pub proof fn lemma_one_connection_per_run(attempts: nat)
    ensures
        connections_granted(0, attempts) == if attempts == 0 {
            0nat
        } else {
            1nat
        },
        connections_granted(1, attempts) == 0,
    decreases attempts,
{
    if attempts > 0 {
        lemma_one_connection_per_run((attempts - 1) as nat);
    }
}

} // verus!
