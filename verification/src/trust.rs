//! The trust policy: who decides whether a server's identity is accepted.
//!
//! The connector never decides this itself. It hands every question of a
//! handshake to the policy, so that a stricter policy can take the place of
//! the permissive one without a change to the connector.

use crate::endpoint::{
    encrypted_scheme, transport_for_address, transport_of, uri_parts, ConnectError, Transport,
    TransportView,
};
use vstd::prelude::*;

verus! {

/// The points of a handshake at which the policy is asked.
#[derive(Clone, Copy, Debug, PartialEq, Eq, Structural)]
pub enum Checkpoint {
    /// Is the server's certificate chain accepted for the name it claims?
    CertificateChain,
    /// Is the handshake signature of protocol version 1.2 valid?
    Tls12Signature,
    /// Is the handshake signature of protocol version 1.3 valid?
    Tls13Signature,
}

/// What the policy says at a checkpoint.
#[derive(Clone, Copy, Debug, PartialEq, Eq, Structural)]
pub enum Verdict {
    Accepted,
    Rejected,
}

/// A trust policy. The services this client talks to present certificates
/// that public trust stores do not know, so the one policy there is so far
/// accepts every server.
#[derive(Clone, Copy, Debug, PartialEq, Eq, Structural)]
pub enum TrustPolicy {
    /// Accepts at every checkpoint.
    AcceptAny,
}

impl TrustPolicy {
    /// What this policy answers at `checkpoint`.
    pub open spec fn answer(self, checkpoint: Checkpoint) -> Verdict {
        match self {
            TrustPolicy::AcceptAny => Verdict::Accepted,
        }
    }

    /// The policy's verdict at `checkpoint`.
    pub fn verdict(&self, checkpoint: Checkpoint) -> (r: Verdict)
        ensures
            r == self.answer(checkpoint),
    {
        match self {
            TrustPolicy::AcceptAny => Verdict::Accepted,
        }
    }
}

/// How often a connection over `transport` asks the trust policy whether
/// the server's certificate chain is accepted: once where there is a
/// handshake, never where there is none.
pub open spec fn chain_consultations(transport: TransportView) -> nat {
    match transport {
        TransportView::Plaintext => 0,
        TransportView::Encrypted { .. } => 1,
    }
}

/// What a handshake is made with: the server's name, the one application
/// protocol that is offered, and the policy that is asked.
#[derive(Clone, Debug, PartialEq, Eq)]
pub struct Handshake {
    pub server_name: String,
    pub alpn: Vec<u8>,
    pub policy: TrustPolicy,
}

/// The application protocol offered in a handshake: `h2`.
pub open spec fn offered_protocol() -> Seq<u8> {
    seq![0x68u8, 0x32u8]
}

/// The application protocol that a handshake offers.
pub fn application_protocol() -> (r: Vec<u8>)
    ensures
        r@ == offered_protocol(),
{
    let mut alpn: Vec<u8> = Vec::new();
    alpn.push(0x68u8);
    alpn.push(0x32u8);
    assert(alpn@ =~= offered_protocol());
    alpn
}

/// The handshake that `transport` asks for with the policy `policy`:
/// none for the plain stream.
pub fn handshake_for(transport: &Transport, policy: TrustPolicy) -> (r: Option<Handshake>)
    ensures
        match r {
            Some(h) => transport@ == (TransportView::Encrypted { server_name: h.server_name@ })
                && h.alpn@ == offered_protocol() && h.policy == policy,
            None => transport@ == TransportView::Plaintext,
        },
        r is Some <==> chain_consultations(transport@) >= 1,
{
    match transport {
        Transport::Plaintext => None,
        Transport::Encrypted { server_name } => {
            Some(Handshake { server_name: server_name.clone(), alpn: application_protocol(), policy })
        },
    }
}

/// The scheme alone decides whether the trust policy is asked: a
/// connection to an address with any scheme but `https` never asks it, and
/// one to an `https` address asks it whenever a stream is planned at all.
pub proof fn lemma_scheme_decides_consultation(
    scheme: Option<Seq<char>>,
    host: Option<Seq<char>>,
    host_accepted: bool,
)
    ensures
        match transport_of(scheme, host, host_accepted) {
            Ok(t) => (chain_consultations(t) == 0 <==> scheme != Some(encrypted_scheme()))
                && (chain_consultations(t) == 1 <==> scheme == Some(encrypted_scheme())),
            Err(_) => scheme == Some(encrypted_scheme()),
        },
{
}

/// The same of whole addresses: where a transport is planned for an
/// address, the trust policy is asked exactly if the scheme is `https`.
pub proof fn lemma_address_decides_consultation(address: Seq<char>)
    ensures
        match transport_for_address(address) {
            Ok(t) => chain_consultations(t) >= 1 <==> uri_parts(address)->0.scheme == Some(
                encrypted_scheme(),
            ),
            Err(e) => e == ConnectError::InvalidUri || uri_parts(address)->0.scheme == Some(
                encrypted_scheme(),
            ),
        },
{
}

} // verus!
