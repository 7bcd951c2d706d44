//! Deterministic identifiers of attestations, requests and multi-signature
//! proposals: SHA-256 over the XDR encoding of the identifying fields, in a
//! fixed order, spelled as in [`digest_id`].

use vstd::prelude::*;
use vstd::string::StrSliceExecFns;
use crate::types::{
    digest_id, sha256_digest, Address, Attestation, AttestationRequest, MultiSigProposal,
};

verus! {

/// What the Stellar strkey parser makes of a string.
#[derive(Clone, Copy, Debug, PartialEq, Eq, Structural)]
pub enum StrkeyKind {
    /// An account key (`G...`).
    Account,
    /// A contract key (`C...`).
    Contract,
    /// Some other valid strkey (muxed account, liquidity pool, claimable balance).
    Other,
    /// Not a strkey that names an address.
    Invalid,
}

/// The kind that the strkey parser of the host's XDR library assigns to `key`.
pub uninterp spec fn strkey_kind(key: Seq<char>) -> StrkeyKind;

/// The XDR encoding of the host address whose strkey is `key`.
pub uninterp spec fn address_xdr(key: Seq<char>) -> Seq<u8>;

/// The XDR encoding of the host string `s`.
pub uninterp spec fn string_xdr(s: Seq<char>) -> Seq<u8>;

/// The XDR encoding of the number `t`.
pub uninterp spec fn u64_xdr(t: u64) -> Seq<u8>;

/// `key` is a strkey that the host turns into an address: 56 characters,
/// parsed as an account or a contract key.
pub open spec fn is_address_key(key: Seq<char>) -> bool {
    &&& key.len() == 56
    &&& (strkey_kind(key) == StrkeyKind::Account || strkey_kind(key) == StrkeyKind::Contract)
}

/// Calls `ScAddress::from_str` of the host's XDR library (the same strkey
/// parser, stellar-strkey 0.0.13, that the host uses to turn a strkey into an
/// address) and tells its outcome apart; the outcome depends on `key` alone.
#[verifier::external_body]
fn host_strkey_kind(key: &str) -> (k: StrkeyKind)
    ensures
        k == strkey_kind(key@),
{
    match key.parse::<soroban_sdk::xdr::ScAddress>() {
        Ok(soroban_sdk::xdr::ScAddress::Account(_)) => StrkeyKind::Account,
        Ok(soroban_sdk::xdr::ScAddress::Contract(_)) => StrkeyKind::Contract,
        Ok(_) => StrkeyKind::Other,
        Err(_) => StrkeyKind::Invalid,
    }
}

/// Calls `Address::from_str` and then `to_xdr` of the Soroban host. The host
/// accepts exactly the 56-character account and contract strkeys (it panics on
/// any other string, which `requires` excludes); the encoding depends on the
/// strkey alone.
#[verifier::external_body]
fn host_address_xdr(env: &soroban_sdk::Env, key: &str) -> (b: Vec<u8>)
    requires
        is_address_key(key@),
    ensures
        b@ == address_xdr(key@),
{
    soroban_sdk::xdr::ToXdr::to_xdr(soroban_sdk::Address::from_str(env, key), env).to_alloc_vec()
}

/// Calls `String::from_str` and then `to_xdr` of the Soroban host; the
/// encoding depends on the string alone.
#[verifier::external_body]
fn host_string_xdr(env: &soroban_sdk::Env, s: &str) -> (b: Vec<u8>)
    ensures
        b@ == string_xdr(s@),
{
    soroban_sdk::xdr::ToXdr::to_xdr(soroban_sdk::String::from_str(env, s), env).to_alloc_vec()
}

/// Calls `to_xdr` of the Soroban host on a number; the encoding depends on
/// the number alone.
#[verifier::external_body]
fn host_u64_xdr(env: &soroban_sdk::Env, t: u64) -> (b: Vec<u8>)
    ensures
        b@ == u64_xdr(t),
{
    soroban_sdk::xdr::ToXdr::to_xdr(t, env).to_alloc_vec()
}

impl Address {
    /// `true` if this address's key is a strkey that the host accepts as an
    /// address.
    pub fn is_valid(&self) -> (r: bool)
        ensures
            r == (self@.len() == 56 && (strkey_kind(self@) == StrkeyKind::Account || strkey_kind(
                self@,
            ) == StrkeyKind::Contract)),
    {
        let s = self.key.as_str();
        if s.unicode_len() != 56 {
            return false;
        }
        let kind = host_strkey_kind(s);
        kind == StrkeyKind::Account || kind == StrkeyKind::Contract
    }
}

/// The bytes of "req:", which open a request's identifying payload.
pub open spec fn request_prefix() -> Seq<u8> {
    seq![114u8, 101u8, 113u8, 58u8]
}

/// The bytes of "multisig:", which open a proposal's identifying payload.
pub open spec fn multisig_prefix() -> Seq<u8> {
    seq![109u8, 117u8, 108u8, 116u8, 105u8, 115u8, 105u8, 103u8, 58u8]
}

/// The payload `issuer | subject | claim_type | timestamp`.
pub open spec fn attestation_payload(
    issuer: Seq<char>,
    subject: Seq<char>,
    claim_type: Seq<char>,
    timestamp: u64,
) -> Seq<u8> {
    address_xdr(issuer) + address_xdr(subject) + string_xdr(claim_type) + u64_xdr(timestamp)
}

/// The payload `bridge | subject | claim_type | source_chain | source_tx | timestamp`.
pub open spec fn bridge_payload(
    bridge: Seq<char>,
    subject: Seq<char>,
    claim_type: Seq<char>,
    source_chain: Seq<char>,
    source_tx: Seq<char>,
    timestamp: u64,
) -> Seq<u8> {
    address_xdr(bridge) + address_xdr(subject) + string_xdr(claim_type) + string_xdr(source_chain)
        + string_xdr(source_tx) + u64_xdr(timestamp)
}

/// The payload `"req:" | subject | issuer | claim_type | timestamp`.
pub open spec fn request_payload(
    subject: Seq<char>,
    issuer: Seq<char>,
    claim_type: Seq<char>,
    timestamp: u64,
) -> Seq<u8> {
    request_prefix() + address_xdr(subject) + address_xdr(issuer) + string_xdr(claim_type)
        + u64_xdr(timestamp)
}

/// The payload `"multisig:" | proposer | subject | claim_type | timestamp`.
pub open spec fn multisig_payload(
    proposer: Seq<char>,
    subject: Seq<char>,
    claim_type: Seq<char>,
    timestamp: u64,
) -> Seq<u8> {
    multisig_prefix() + address_xdr(proposer) + address_xdr(subject) + string_xdr(claim_type)
        + u64_xdr(timestamp)
}

fn push_address(env: &soroban_sdk::Env, payload: &mut Vec<u8>, a: &Address)
    requires
        is_address_key(a@),
    ensures
        final(payload)@ == old(payload)@ + address_xdr(a@),
{
    let mut b = host_address_xdr(env, a.key.as_str());
    payload.append(&mut b);
}

fn push_string(env: &soroban_sdk::Env, payload: &mut Vec<u8>, s: &String)
    ensures
        final(payload)@ == old(payload)@ + string_xdr(s@),
{
    let mut b = host_string_xdr(env, s.as_str());
    payload.append(&mut b);
}

fn push_u64(env: &soroban_sdk::Env, payload: &mut Vec<u8>, t: u64)
    ensures
        final(payload)@ == old(payload)@ + u64_xdr(t),
{
    let mut b = host_u64_xdr(env, t);
    payload.append(&mut b);
}

impl Attestation {
    /// The deterministic attestation ID over
    /// `issuer | subject | claim_type | timestamp`.
    pub fn generate_id(
        env: &soroban_sdk::Env,
        issuer: &Address,
        subject: &Address,
        claim_type: &String,
        timestamp: u64,
    ) -> (id: String)
        requires
            is_address_key(issuer@),
            is_address_key(subject@),
        ensures
            id@ == digest_id(
                sha256_digest((address_xdr(issuer@) + address_xdr(subject@) + string_xdr(claim_type@) + u64_xdr(timestamp))),
            ),
    {
        let mut payload: Vec<u8> = Vec::new();
        push_address(env, &mut payload, issuer);
        push_address(env, &mut payload, subject);
        push_string(env, &mut payload, claim_type);
        push_u64(env, &mut payload, timestamp);
        assert(payload@ =~= attestation_payload(issuer@, subject@, claim_type@, timestamp));
        Self::hash_payload(env, payload.as_slice())
    }

    /// The attestation ID when both addresses are host strkeys, `None`
    /// otherwise.
    pub fn try_generate_id(
        env: &soroban_sdk::Env,
        issuer: &Address,
        subject: &Address,
        claim_type: &String,
        timestamp: u64,
    ) -> (id: Option<String>)
        ensures
            id is None <==> !((issuer@.len() == 56 && (strkey_kind(issuer@) == StrkeyKind::Account || strkey_kind(issuer@) == StrkeyKind::Contract)) && (subject@.len() == 56 && (strkey_kind(subject@) == StrkeyKind::Account || strkey_kind(subject@) == StrkeyKind::Contract))),
            id matches Some(i) ==> i@ == digest_id(
                sha256_digest((address_xdr(issuer@) + address_xdr(subject@) + string_xdr(claim_type@) + u64_xdr(timestamp))),
            ),
    {
        if issuer.is_valid() && subject.is_valid() {
            Some(Self::generate_id(env, issuer, subject, claim_type, timestamp))
        } else {
            None
        }
    }

    /// The deterministic bridge attestation ID over
    /// `bridge | subject | claim_type | source_chain | source_tx | timestamp`.
    pub fn generate_bridge_id(
        env: &soroban_sdk::Env,
        bridge: &Address,
        subject: &Address,
        claim_type: &String,
        source_chain: &String,
        source_tx: &String,
        timestamp: u64,
    ) -> (id: String)
        requires
            is_address_key(bridge@),
            is_address_key(subject@),
        ensures
            id@ == digest_id(
                sha256_digest(
                    (address_xdr(bridge@) + address_xdr(subject@) + string_xdr(claim_type@) + string_xdr(source_chain@) + string_xdr(source_tx@) + u64_xdr(timestamp)),
                ),
            ),
    {
        let mut payload: Vec<u8> = Vec::new();
        push_address(env, &mut payload, bridge);
        push_address(env, &mut payload, subject);
        push_string(env, &mut payload, claim_type);
        push_string(env, &mut payload, source_chain);
        push_string(env, &mut payload, source_tx);
        push_u64(env, &mut payload, timestamp);
        assert(payload@ =~= bridge_payload(
            bridge@,
            subject@,
            claim_type@,
            source_chain@,
            source_tx@,
            timestamp,
        ));
        Self::hash_payload(env, payload.as_slice())
    }

    /// The bridge attestation ID when both addresses are host strkeys,
    /// `None` otherwise.
    pub fn try_generate_bridge_id(
        env: &soroban_sdk::Env,
        bridge: &Address,
        subject: &Address,
        claim_type: &String,
        source_chain: &String,
        source_tx: &String,
        timestamp: u64,
    ) -> (id: Option<String>)
        ensures
            id is None <==> !((bridge@.len() == 56 && (strkey_kind(bridge@) == StrkeyKind::Account || strkey_kind(bridge@) == StrkeyKind::Contract)) && (subject@.len() == 56 && (strkey_kind(subject@) == StrkeyKind::Account || strkey_kind(subject@) == StrkeyKind::Contract))),
            id matches Some(i) ==> i@ == digest_id(
                sha256_digest(
                    (address_xdr(bridge@) + address_xdr(subject@) + string_xdr(claim_type@) + string_xdr(source_chain@) + string_xdr(source_tx@) + u64_xdr(timestamp)),
                ),
            ),
    {
        if bridge.is_valid() && subject.is_valid() {
            Some(
                Self::generate_bridge_id(
                    env,
                    bridge,
                    subject,
                    claim_type,
                    source_chain,
                    source_tx,
                    timestamp,
                ),
            )
        } else {
            None
        }
    }
}

impl AttestationRequest {
    /// The deterministic request ID over
    /// `"req:" | subject | issuer | claim_type | timestamp`.
    pub fn generate_id(
        env: &soroban_sdk::Env,
        subject: &Address,
        issuer: &Address,
        claim_type: &String,
        timestamp: u64,
    ) -> (id: String)
        requires
            is_address_key(subject@),
            is_address_key(issuer@),
        ensures
            id@ == digest_id(
                sha256_digest((seq![114u8, 101u8, 113u8, 58u8] + address_xdr(subject@) + address_xdr(issuer@) + string_xdr(claim_type@) + u64_xdr(timestamp))),
            ),
    {
        let mut payload: Vec<u8> = vec![114u8, 101u8, 113u8, 58u8];
        assert(payload@ =~= request_prefix());
        push_address(env, &mut payload, subject);
        push_address(env, &mut payload, issuer);
        push_string(env, &mut payload, claim_type);
        push_u64(env, &mut payload, timestamp);
        assert(payload@ =~= request_payload(subject@, issuer@, claim_type@, timestamp));
        Attestation::hash_payload(env, payload.as_slice())
    }

    /// The request ID when both addresses are host strkeys, `None` otherwise.
    pub fn try_generate_id(
        env: &soroban_sdk::Env,
        subject: &Address,
        issuer: &Address,
        claim_type: &String,
        timestamp: u64,
    ) -> (id: Option<String>)
        ensures
            id is None <==> !((subject@.len() == 56 && (strkey_kind(subject@) == StrkeyKind::Account || strkey_kind(subject@) == StrkeyKind::Contract)) && (issuer@.len() == 56 && (strkey_kind(issuer@) == StrkeyKind::Account || strkey_kind(issuer@) == StrkeyKind::Contract))),
            id matches Some(i) ==> i@ == digest_id(
                sha256_digest((seq![114u8, 101u8, 113u8, 58u8] + address_xdr(subject@) + address_xdr(issuer@) + string_xdr(claim_type@) + u64_xdr(timestamp))),
            ),
    {
        if subject.is_valid() && issuer.is_valid() {
            Some(Self::generate_id(env, subject, issuer, claim_type, timestamp))
        } else {
            None
        }
    }
}

impl MultiSigProposal {
    /// The deterministic proposal ID over
    /// `"multisig:" | proposer | subject | claim_type | timestamp`.
    pub fn generate_id(
        env: &soroban_sdk::Env,
        proposer: &Address,
        subject: &Address,
        claim_type: &String,
        timestamp: u64,
    ) -> (id: String)
        requires
            is_address_key(proposer@),
            is_address_key(subject@),
        ensures
            id@ == digest_id(
                sha256_digest((seq![109u8, 117u8, 108u8, 116u8, 105u8, 115u8, 105u8, 103u8, 58u8] + address_xdr(proposer@) + address_xdr(subject@) + string_xdr(claim_type@) + u64_xdr(timestamp))),
            ),
    {
        let mut payload: Vec<u8> = vec![109u8, 117u8, 108u8, 116u8, 105u8, 115u8, 105u8, 103u8, 58u8];
        assert(payload@ =~= multisig_prefix());
        push_address(env, &mut payload, proposer);
        push_address(env, &mut payload, subject);
        push_string(env, &mut payload, claim_type);
        push_u64(env, &mut payload, timestamp);
        assert(payload@ =~= multisig_payload(proposer@, subject@, claim_type@, timestamp));
        Attestation::hash_payload(env, payload.as_slice())
    }

    /// The proposal ID when both addresses are host strkeys, `None`
    /// otherwise.
    pub fn try_generate_id(
        env: &soroban_sdk::Env,
        proposer: &Address,
        subject: &Address,
        claim_type: &String,
        timestamp: u64,
    ) -> (id: Option<String>)
        ensures
            id is None <==> !((proposer@.len() == 56 && (strkey_kind(proposer@) == StrkeyKind::Account || strkey_kind(proposer@) == StrkeyKind::Contract)) && (subject@.len() == 56 && (strkey_kind(subject@) == StrkeyKind::Account || strkey_kind(subject@) == StrkeyKind::Contract))),
            id matches Some(i) ==> i@ == digest_id(
                sha256_digest((seq![109u8, 117u8, 108u8, 116u8, 105u8, 115u8, 105u8, 103u8, 58u8] + address_xdr(proposer@) + address_xdr(subject@) + string_xdr(claim_type@) + u64_xdr(timestamp))),
            ),
    {
        if proposer.is_valid() && subject.is_valid() {
            Some(Self::generate_id(env, proposer, subject, claim_type, timestamp))
        } else {
            None
        }
    }
}

} // verus!
