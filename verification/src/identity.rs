//! The workload identity: an ephemeral key pair, the certification request
//! that embeds its public key, the certificate chain obtained from a
//! Steward or by self-signing, and the TLS identity material derived from
//! them. The laws here pin the binding the flow must keep: the public key
//! submitted for certification is the public key the TLS handshakes use.

use vstd::prelude::*;

verus! {

/// An ephemeral key pair, as the identity flow sees it: the encoded public
/// half, and the handle the surrounding process uses to reach the private
/// half, which never leaves the process.
pub struct KeyPair {
    /// The DER-encoded subject public key.
    pub public_der: Vec<u8>,
    /// The process-local handle of the private half.
    pub secret_handle: u64,
}

/// A certification request: it embeds the public key it asks to certify.
pub struct CertReq {
    /// The DER-encoded subject public key the request embeds.
    pub public_key_der: Vec<u8>,
}

/// One certificate; only the certified subject public key matters to the
/// binding laws.
pub struct Certificate {
    /// The DER-encoded subject public key the certificate certifies.
    pub subject_public_key_der: Vec<u8>,
}

/// A certificate chain, leaf first.
pub struct CertChain {
    pub certs: Vec<Certificate>,
}

impl CertChain {
    /// A chain carries at least the leaf.
    pub open spec fn wf(&self) -> bool {
        self.certs@.len() >= 1
    }

    /// The leaf certificate.
    pub open spec fn spec_leaf(&self) -> Certificate {
        self.certs@[0]
    }
}

/// What a request submitted to the Steward carries: the certification
/// request, and an attestation report bound to its digest.
pub struct StewardRequest {
    /// The certification request being submitted.
    pub csr: CertReq,
    /// The attestation report accompanying it, bound to the request's
    /// digest; opaque to everyone but the Steward.
    pub attestation: Vec<u8>,
}

/// The identity material a TLS endpoint uses: the chain it presents and
/// the key it proves possession of.
pub struct TlsIdentity {
    /// The certificate chain presented in the handshake.
    pub chain: CertChain,
    /// The DER-encoded public half of the handshake key.
    pub key_public_der: Vec<u8>,
    /// The process-local handle of the private half.
    pub secret_handle: u64,
}

/// Build the certification request for a key pair: it embeds exactly that
/// key pair's public key.
pub fn make_csr(kp: &KeyPair) -> (r: CertReq)
    ensures
        r.public_key_der@ == kp.public_der@,
{
    CertReq { public_key_der: kp.public_der.clone() }
}

/// Assemble a Steward submission: the request goes out unchanged, with the
/// attestation report alongside it.
pub fn steward_request(csr: CertReq, attestation: Vec<u8>) -> (r: StewardRequest)
    ensures
        r.csr.public_key_der@ == csr.public_key_der@,
        r.attestation@ == attestation@,
{
    StewardRequest { csr, attestation }
}

/// Build the self-signed chain for a key pair: a single leaf whose subject
/// public key is the key pair's public key.
pub fn selfsigned_chain(kp: &KeyPair) -> (r: CertChain)
    ensures
        r.wf(),
        r.certs@.len() == 1,
        r.spec_leaf().subject_public_key_der@ == kp.public_der@,
{
    let mut certs: Vec<Certificate> = Vec::new();
    certs.push(Certificate { subject_public_key_der: kp.public_der.clone() });
    CertChain { certs }
}

/// Derive the TLS identity used by both the server and the client
/// configurations: the given chain, proved with the given key pair.
pub fn tls_identity(chain: CertChain, kp: &KeyPair) -> (r: TlsIdentity)
    requires
        chain.wf(),
    ensures
        r.chain == chain,
        r.key_public_der@ == kp.public_der@,
        r.secret_handle == kp.secret_handle,
{
    TlsIdentity { chain, key_public_der: kp.public_der.clone(), secret_handle: kp.secret_handle }
}

/// Steward path: the certification request submitted — with its
/// attestation — embeds exactly the public key that the TLS server and
/// client configurations derived from the returned chain later use.
pub proof fn lemma_steward_submission_binds_key(
    kp: KeyPair,
    csr: CertReq,
    req: StewardRequest,
    chain: CertChain,
    ident: TlsIdentity,
)
    requires
        csr.public_key_der@ == kp.public_der@,
        req.csr.public_key_der@ == csr.public_key_der@,
        ident.chain == chain,
        ident.key_public_der@ == kp.public_der@,
    ensures
        req.csr.public_key_der@ == ident.key_public_der@,
{
}

/// Self-signed path: the leaf certificate's subject public key equals the
/// key used for the TLS handshakes.
pub proof fn lemma_selfsigned_binds_key(kp: KeyPair, chain: CertChain, ident: TlsIdentity)
    requires
        chain.certs@.len() == 1,
        chain.spec_leaf().subject_public_key_der@ == kp.public_der@,
        ident.chain == chain,
        ident.key_public_der@ == kp.public_der@,
    ensures
        ident.chain.spec_leaf().subject_public_key_der@ == ident.key_public_der@,
{
}

} // verus!
