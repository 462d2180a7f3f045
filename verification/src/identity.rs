//! Identities and the externally verified delegation proof.
//!
//! An identity is a stable 32-byte account identifier, held here as four
//! little-endian 64-bit words. The ledger's signature-verification
//! collaborator proves cryptographically that a root identity signed the
//! authorization message; this module only checks the shape of that proof
//! and that the identity it certifies is the expected one — it never
//! re-implements signature math.

use vstd::prelude::*;

verus! {

/// Words of the identifier of the signature-verification collaborator, in
/// little-endian order.
pub const SIG_VERIFIER_W0: u64 = 0xbefb937cd6467d03;

pub const SIG_VERIFIER_W1: u64 = 0xff408d838f42f912;

pub const SIG_VERIFIER_W2: u64 = 0x648af42749747005;

pub const SIG_VERIFIER_W3: u64 = 0x000000804470cafc;

/// A stable 32-byte account identifier, packed into four little-endian
/// 64-bit words: word `k` holds bytes `8k..8k+8`.
#[derive(Clone, Copy, Debug, PartialEq, Eq, Structural)]
pub struct Identity {
    pub w0: u64,
    pub w1: u64,
    pub w2: u64,
    pub w3: u64,
}

/// The little-endian 64-bit word over bytes `off..off + 8` of `bytes`.
pub open spec fn spec_le_word(bytes: Seq<u8>, off: nat) -> u64
    recommends
        off + 8 <= bytes.len(),
{
    (bytes[off as int] as u64) | ((bytes[off as int + 1] as u64) << 8u64) | ((bytes[off as int
        + 2] as u64) << 16u64) | ((bytes[off as int + 3] as u64) << 24u64) | ((bytes[off as int
        + 4] as u64) << 32u64) | ((bytes[off as int + 5] as u64) << 40u64) | ((bytes[off as int
        + 6] as u64) << 48u64) | ((bytes[off as int + 7] as u64) << 56u64)
}

/// The identity whose 32 bytes stand at `off..off + 32` of `bytes`.
pub open spec fn spec_identity_at(bytes: Seq<u8>, off: nat) -> Identity
    recommends
        off + 32 <= bytes.len(),
{
    Identity {
        w0: spec_le_word(bytes, off),
        w1: spec_le_word(bytes, off + 8),
        w2: spec_le_word(bytes, off + 16),
        w3: spec_le_word(bytes, off + 24),
    }
}

/// The identifier of the signature-verification collaborator.
pub open spec fn spec_sig_verifier_id() -> Identity {
    Identity { w0: SIG_VERIFIER_W0, w1: SIG_VERIFIER_W1, w2: SIG_VERIFIER_W2, w3: SIG_VERIFIER_W3 }
}

impl Identity {
    /// Packs 32 bytes into an identity.
    pub fn from_bytes(bytes: &[u8; 32]) -> (r: Identity)
        ensures
            r == spec_identity_at(bytes@, 0),
    {
        Identity {
            w0: le_word_of_array(bytes, 0),
            w1: le_word_of_array(bytes, 8),
            w2: le_word_of_array(bytes, 16),
            w3: le_word_of_array(bytes, 24),
        }
    }

    /// The identifier of the signature-verification collaborator.
    pub fn sig_verifier_id() -> (r: Identity)
        ensures
            r == spec_sig_verifier_id(),
    {
        Identity {
            w0: SIG_VERIFIER_W0,
            w1: SIG_VERIFIER_W1,
            w2: SIG_VERIFIER_W2,
            w3: SIG_VERIFIER_W3,
        }
    }
}

/// Reads the little-endian word over `bytes[off..off + 8]`.
fn le_word_of_array(bytes: &[u8; 32], off: usize) -> (w: u64)
    requires
        off + 8 <= 32,
    ensures
        w == spec_le_word(bytes@, off as nat),
{
    (bytes[off] as u64) | ((bytes[off + 1] as u64) << 8u64) | ((bytes[off + 2] as u64) << 16u64)
        | ((bytes[off + 3] as u64) << 24u64) | ((bytes[off + 4] as u64) << 32u64) | ((bytes[off
        + 5] as u64) << 40u64) | ((bytes[off + 6] as u64) << 48u64) | ((bytes[off + 7] as u64)
        << 56u64)
}

/// Reads the little-endian word over `data[off..off + 8]`.
fn le_word_at(data: &Vec<u8>, off: usize) -> (w: u64)
    requires
        off + 8 <= data@.len(),
    ensures
        w == spec_le_word(data@, off as nat),
{
    let _n: usize = data.len();
    (data[off] as u64) | ((data[off + 1] as u64) << 8u64) | ((data[off + 2] as u64) << 16u64) | ((
    data[off + 3] as u64) << 24u64) | ((data[off + 4] as u64) << 32u64) | ((data[off + 5] as u64)
        << 40u64) | ((data[off + 6] as u64) << 48u64) | ((data[off + 7] as u64) << 56u64)
}

/// An externally verified proof that a root identity authorized a session.
///
/// `verifier_id` is the identifier of the program that performed the
/// cryptographic check; `payload` is that program's instruction data, which
/// embeds the certified public identity at the offset its header names.
pub struct SessionProof {
    pub verifier_id: Identity,
    pub payload: Vec<u8>,
}

/// The byte offset, named by the proof payload's header, at which the
/// certified identity stands.
pub open spec fn spec_certified_offset(payload: Seq<u8>) -> nat
    recommends
        payload.len() >= 8,
{
    (payload[6] + 256 * payload[7]) as nat
}

/// Whether the proof is well-formed and certifies `wallet`: it comes from
/// the signature-verification collaborator, carries at least one signature,
/// has a complete header, embeds a whole 32-byte identity at the offset the
/// header names, and that identity equals `wallet`.
pub open spec fn proof_certifies(proof: SessionProof, wallet: Identity) -> bool {
    &&& proof.verifier_id == spec_sig_verifier_id()
    &&& proof.payload.len() >= 2
    &&& proof.payload[0] >= 1
    &&& proof.payload.len() >= 18
    &&& spec_certified_offset(proof.payload@) + 32 <= proof.payload.len()
    &&& spec_identity_at(proof.payload@, spec_certified_offset(proof.payload@)) == wallet
}

/// Checks a delegation proof against the root identity it must certify.
///
/// Accepts exactly the proofs that `proof_certifies` describes: absent
/// cryptographic verification is out of scope, so a proof is taken at its
/// word once its shape is right and the certified identity matches.
pub fn verify_session_proof(proof: &SessionProof, wallet: &Identity) -> (r: bool)
    ensures
        r == proof_certifies(*proof, *wallet),
{
    if !(proof.verifier_id == Identity::sig_verifier_id()) {
        return false;
    }
    if proof.payload.len() < 2 {
        return false;
    }
    if proof.payload[0] < 1 {
        return false;
    }
    if proof.payload.len() < 18 {
        return false;
    }
    let off: usize = (proof.payload[6] as usize) + 256 * (proof.payload[7] as usize);
    if proof.payload.len() < 32 || off > proof.payload.len() - 32 {
        return false;
    }
    let certified = Identity {
        w0: le_word_at(&proof.payload, off),
        w1: le_word_at(&proof.payload, off + 8),
        w2: le_word_at(&proof.payload, off + 16),
        w3: le_word_at(&proof.payload, off + 24),
    };
    certified == *wallet
}

} // verus!
