//! Shared data types: addresses, attestation records and their status.

use vstd::prelude::*;

verus! {

/// An account or contract address, held by its string encoding.
#[derive(Debug)]
pub struct Address {
    pub key: String,
}

impl View for Address {
    type V = Seq<char>;

    open spec fn view(&self) -> Seq<char> {
        self.key@
    }
}

impl Address {
    /// Build an address from its string encoding.
    pub fn new(key: String) -> (a: Address)
        ensures
            a.key == key,
    {
        Address { key }
    }
}

impl Clone for Address {
    fn clone(&self) -> (r: Self)
        ensures
            r == *self,
    {
        Address { key: self.key.clone() }
    }
}

impl PartialEq for Address {
    fn eq(&self, other: &Self) -> (r: bool) {
        self.key == other.key
    }
}

impl vstd::std_specs::cmp::PartialEqSpecImpl for Address {
    open spec fn obeys_eq_spec() -> bool {
        true
    }

    open spec fn eq_spec(&self, other: &Address) -> bool {
        self@ == other@
    }
}

impl Eq for Address {
}


/// Errors raised by the storage helpers.
#[derive(Clone, Copy, Debug, PartialEq, Eq, Structural)]
pub enum Error {
    /// The admin council has not been stored yet, or is empty.
    NotInitialized,
    /// No record is stored under the requested identifier.
    NotFound,
}

/// Trust tier assigned to a registered issuer.
#[derive(Clone, Copy, Debug, PartialEq, Eq, Structural)]
pub enum IssuerTier {
    Basic,
    Verified,
    Premium,
}

impl IssuerTier {
    /// The tier's rank: Basic 0, Verified 1, Premium 2.
    pub open spec fn spec_rank(self) -> u32 {
        match self {
            IssuerTier::Basic => 0,
            IssuerTier::Verified => 1,
            IssuerTier::Premium => 2,
        }
    }

    /// The tier's numeric rank; higher tiers rank higher.
    pub fn rank(self) -> (r: u32)
        ensures
            r == self.spec_rank(),
    {
        match self {
            IssuerTier::Basic => 0,
            IssuerTier::Verified => 1,
            IssuerTier::Premium => 2,
        }
    }
}

/// Status of a pull-based attestation request.
#[derive(Clone, Copy, Debug, PartialEq, Eq, Structural)]
pub enum RequestStatus {
    Pending,
    Fulfilled,
    Rejected,
}

/// How an attestation entered the system.
#[derive(Clone, Copy, Debug, PartialEq, Eq, Structural)]
pub enum AttestationOrigin {
    /// Created directly by a registered issuer.
    Native,
    /// Migrated from an external verified source by the admin.
    Imported,
    /// Mirrored from another chain by a trusted bridge contract.
    Bridged,
}

/// The status of an attestation at a given time.
#[derive(Clone, Copy, Debug, PartialEq, Eq, Structural)]
pub enum AttestationStatus {
    Valid,
    Expired,
    Revoked,
    Pending,
}

/// The action recorded in an audit log entry.
#[derive(Clone, Copy, Debug, PartialEq, Eq, Structural)]
pub enum AuditAction {
    Created,
    Revoked,
    Renewed,
    Updated,
    Transferred,
}

/// A single attestation record.
#[derive(Debug, PartialEq, Eq)]
pub struct Attestation {
    pub id: String,
    pub issuer: Address,
    pub subject: Address,
    pub claim_type: String,
    pub timestamp: u64,
    pub expiration: Option<u64>,
    pub revoked: bool,
    /// Set when the subject requested deletion of this attestation.
    pub deleted: bool,
    pub metadata: Option<String>,
    pub jurisdiction: Option<String>,
    pub valid_from: Option<u64>,
    pub origin: AttestationOrigin,
    pub source_chain: Option<String>,
    pub source_tx: Option<String>,
    pub tags: Option<Vec<String>>,
    pub revocation_reason: Option<String>,
}

/// The status of `a` at time `now`: not yet valid, then revoked, then expired.
pub open spec fn status_at(a: Attestation, now: u64) -> AttestationStatus {
    if a.valid_from is Some && now < a.valid_from->0 {
        AttestationStatus::Pending
    } else if a.revoked {
        AttestationStatus::Revoked
    } else if a.expiration is Some && now >= a.expiration->0 {
        AttestationStatus::Expired
    } else {
        AttestationStatus::Valid
    }
}

impl Attestation {
    /// The status of this attestation at `current_time`.
    ///
    /// An attestation whose `valid_from` lies in the future is `Pending`;
    /// otherwise a revoked one is `Revoked`, one whose expiration has been
    /// reached is `Expired`, and any other is `Valid`.
    pub fn get_status(&self, current_time: u64) -> (s: AttestationStatus)
        ensures
            s == status_at(*self, current_time),
    {
        if let Some(valid_from) = self.valid_from {
            if current_time < valid_from {
                return AttestationStatus::Pending;
            }
        }
        if self.revoked {
            return AttestationStatus::Revoked;
        }
        if let Some(expiration) = self.expiration {
            if current_time >= expiration {
                return AttestationStatus::Expired;
            }
        }
        AttestationStatus::Valid
    }
}

/// Lowercase hexadecimal digit of `n`, for `n < 16`.
pub open spec fn hex_digit(n: u8) -> char {
    if n < 10 {
        (48 + n) as char
    } else {
        (87 + n) as char
    }
}

/// Number of digest bytes kept in an identifier.
pub const ID_DIGEST_BYTES: usize = 16;

/// The identifier spelled by `digest`: its first 16 bytes in lowercase
/// hexadecimal, high nibble first, 32 characters in all.
pub open spec fn digest_id(digest: Seq<u8>) -> Seq<char> {
    Seq::new(
        32,
        |i: int|
            if i % 2 == 0 {
                hex_digit(digest[i / 2] / 16)
            } else {
                hex_digit(digest[i / 2] % 16)
            },
    )
}

/// The Soroban host environment, through which hashes are computed.
#[verifier::external_type_specification]
#[verifier::external_body]
pub struct ExEnv(soroban_sdk::Env);

/// The SHA-256 digest of `payload`, as the Soroban host computes it.
pub uninterp spec fn sha256_digest(payload: Seq<u8>) -> Seq<u8>;

/// Calls `Crypto::sha256` of the Soroban host on the bytes of `payload`
/// (copied into host `Bytes`); the digest is a deterministic function of
/// those bytes, named [`sha256_digest`].
#[verifier::external_body]
fn host_sha256(env: &soroban_sdk::Env, payload: &[u8]) -> (digest: [u8; 32])
    ensures
        digest@ == sha256_digest(payload@),
{
    env.crypto().sha256(&soroban_sdk::Bytes::from_slice(env, payload)).to_array()
}

/// Calls `String::push`, which appends one character to the end of a string.
#[verifier::external_body]
fn string_push(s: &mut String, c: char)
    ensures
        final(s)@ == old(s)@.push(c),
{
    s.push(c);
}

fn hex_char(n: u8) -> (c: char)
    requires
        n < 16,
    ensures
        c == hex_digit(n),
{
    if n < 10 {
        (48 + n) as char
    } else {
        (87 + n) as char
    }
}

impl Attestation {
    /// Hashes `payload` with SHA-256 and spells the first 16 bytes of the
    /// digest as a 32-character lowercase hex string.
    pub fn hash_payload(env: &soroban_sdk::Env, payload: &[u8]) -> (id: String)
        ensures
            id@ == digest_id(sha256_digest(payload@)),
    {
        let digest = host_sha256(env, payload);
        Self::id_from_digest(&digest)
    }

    /// The identifier derived from a SHA-256 digest of an identifying payload:
    /// the digest truncated to its first 16 bytes, hex-encoded to a
    /// 32-character lowercase string.
    pub fn id_from_digest(digest: &[u8; 32]) -> (id: String)
        ensures
            id@ == digest_id(digest@),
    {
        let mut id = String::new();
        let mut i: usize = 0;
        while i < ID_DIGEST_BYTES
            invariant
                i <= ID_DIGEST_BYTES,
                digest@.len() == 32,
                id@ == digest_id(digest@).take(2 * i as int),
            decreases ID_DIGEST_BYTES - i,
        {
            let b = digest[i];
            string_push(&mut id, hex_char(b / 16));
            string_push(&mut id, hex_char(b % 16));
            assert(id@ =~= digest_id(digest@).take(2 * (i + 1) as int));
            i = i + 1;
        }
        assert(id@ =~= digest_id(digest@));
        id
    }
}

/// A single immutable entry in an attestation's audit log.
#[derive(Debug, PartialEq, Eq)]
pub struct AuditEntry {
    pub action: AuditAction,
    pub actor: Address,
    pub timestamp: u64,
    pub details: Option<String>,
}

/// Copy of an optional string.
pub fn clone_opt_string(s: &Option<String>) -> (r: Option<String>)
    ensures
        r == *s,
{
    match s {
        Some(t) => Some(t.clone()),
        None => None,
    }
}

impl Clone for AuditEntry {
    fn clone(&self) -> (r: Self)
        ensures
            r == *self,
    {
        AuditEntry {
            action: self.action,
            actor: self.actor.clone(),
            timestamp: self.timestamp,
            details: clone_opt_string(&self.details),
        }
    }
}

/// An endorsement of an existing attestation by a registered issuer.
#[derive(Debug, PartialEq, Eq)]
pub struct Endorsement {
    pub attestation_id: String,
    pub endorser: Address,
    pub timestamp: u64,
}

impl Clone for Endorsement {
    fn clone(&self) -> (r: Self)
        ensures
            r == *self,
    {
        Endorsement {
            attestation_id: self.attestation_id.clone(),
            endorser: self.endorser.clone(),
            timestamp: self.timestamp,
        }
    }
}

/// A registered claim type and its description.
#[derive(Clone, Debug, PartialEq, Eq)]
pub struct ClaimTypeInfo {
    pub claim_type: String,
    pub description: String,
}

/// Configured lifetime of stored entries, in days.
#[derive(Clone, Copy, Debug, PartialEq, Eq, Structural)]
pub struct TtlConfig {
    pub ttl_days: u32,
}

/// Running counters over the whole contract.
#[derive(Clone, Copy, Debug, PartialEq, Eq, Structural)]
pub struct GlobalStats {
    pub total_attestations: u64,
    pub total_revocations: u64,
    pub total_issuers: u64,
}

/// Running counters for one issuer.
#[derive(Clone, Copy, Debug, PartialEq, Eq, Structural)]
pub struct IssuerStats {
    pub total_issued: u64,
}

/// Limits that guard storage against exhaustion.
#[derive(Clone, Copy, Debug, PartialEq, Eq, Structural)]
pub struct StorageLimits {
    /// Maximum number of attestations a single issuer may create.
    pub max_attestations_per_issuer: u32,
    /// Maximum number of attestations a single subject may hold.
    pub max_attestations_per_subject: u32,
}

impl Default for StorageLimits {
    /// 10,000 attestations per issuer and 100 per subject.
    fn default() -> (r: Self)
        ensures
            r.max_attestations_per_issuer == 10_000,
            r.max_attestations_per_subject == 100,
    {
        StorageLimits { max_attestations_per_issuer: 10_000, max_attestations_per_subject: 100 }
    }
}

/// Delegation from an issuer to a sub-issuer for one claim type.
#[derive(Clone, Debug, PartialEq, Eq)]
pub struct Delegation {
    pub delegator: Address,
    pub delegate: Address,
    pub claim_type: String,
    pub expiration: Option<u64>,
}

/// A pull-based attestation request submitted by a subject to an issuer.
#[derive(Debug, PartialEq, Eq)]
pub struct AttestationRequest {
    pub id: String,
    pub subject: Address,
    pub issuer: Address,
    pub claim_type: String,
    pub timestamp: u64,
    /// Time after which the request expires if not acted on.
    pub expires_at: u64,
    pub status: RequestStatus,
    /// Rejection reason set by the issuer, if rejected.
    pub rejection_reason: Option<String>,
}

/// A multi-signature attestation proposal requiring threshold signatures.
#[derive(Debug, PartialEq, Eq)]
pub struct MultiSigProposal {
    pub id: String,
    pub proposer: Address,
    pub subject: Address,
    pub claim_type: String,
    pub required_signers: Vec<Address>,
    pub threshold: u32,
    pub signers: Vec<Address>,
    pub created_at: u64,
    pub expires_at: u64,
    pub finalized: bool,
}

} // verus!
