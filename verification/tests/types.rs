use trustlink::types::{
    Address, Attestation, AttestationOrigin, AttestationStatus, IssuerTier, StorageLimits,
};

fn attestation(valid_from: Option<u64>, expiration: Option<u64>, revoked: bool) -> Attestation {
    Attestation {
        id: "id".to_string(),
        issuer: Address::new("GISSUER".to_string()),
        subject: Address::new("GSUBJECT".to_string()),
        claim_type: "KYC".to_string(),
        timestamp: 100,
        expiration,
        revoked,
        deleted: false,
        metadata: None,
        jurisdiction: None,
        valid_from,
        origin: AttestationOrigin::Native,
        source_chain: None,
        source_tx: None,
        tags: None,
        revocation_reason: None,
    }
}

#[test]
fn status_valid_without_limits() {
    assert_eq!(attestation(None, None, false).get_status(5), AttestationStatus::Valid);
}

#[test]
fn status_pending_before_valid_from() {
    let a = attestation(Some(50), Some(60), true);
    assert_eq!(a.get_status(49), AttestationStatus::Pending);
    assert_eq!(a.get_status(50), AttestationStatus::Revoked);
}

#[test]
fn status_expired_at_expiration() {
    let a = attestation(None, Some(60), false);
    assert_eq!(a.get_status(59), AttestationStatus::Valid);
    assert_eq!(a.get_status(60), AttestationStatus::Expired);
    assert_eq!(a.get_status(1_000), AttestationStatus::Expired);
}

#[test]
fn status_revoked_before_expired() {
    assert_eq!(attestation(None, Some(60), true).get_status(70), AttestationStatus::Revoked);
}

#[test]
fn tier_ranks() {
    assert_eq!(IssuerTier::Basic.rank(), 0);
    assert_eq!(IssuerTier::Verified.rank(), 1);
    assert_eq!(IssuerTier::Premium.rank(), 2);
}

#[test]
fn default_limits() {
    let d = StorageLimits::default();
    assert_eq!(d.max_attestations_per_issuer, 10_000);
    assert_eq!(d.max_attestations_per_subject, 100);
}

#[test]
fn id_from_digest_is_truncated_lowercase_hex() {
    let mut digest = [0u8; 32];
    for (i, b) in digest.iter_mut().enumerate() {
        *b = (i as u8).wrapping_mul(17).wrapping_add(0xa5);
    }
    let id = Attestation::id_from_digest(&digest);
    assert_eq!(id.len(), 32);
    let expected: String = digest[..16].iter().map(|b| format!("{:02x}", b)).collect();
    assert_eq!(id, expected);
    assert!(id.starts_with("a5b6"));
}

#[test]
fn id_ignores_bytes_past_sixteen() {
    let a = [0xffu8; 32];
    let mut b = a;
    b[20] = 0;
    assert_eq!(Attestation::id_from_digest(&a), Attestation::id_from_digest(&b));
    assert_eq!(Attestation::id_from_digest(&a), "f".repeat(32));
    let mut c = a;
    c[3] = 0x0e;
    assert_ne!(Attestation::id_from_digest(&a), Attestation::id_from_digest(&c));
}

#[test]
fn address_equality_by_encoding() {
    let a = Address::new("GA".to_string());
    assert_eq!(a.clone(), a);
    assert_ne!(a, Address::new("GB".to_string()));
}

#[test]
fn hash_payload_spells_sha256_prefix() {
    let env = soroban_sdk::Env::default();
    // SHA-256 of the empty input starts with e3b0c44298fc1c149afbf4c8996fb924.
    assert_eq!(Attestation::hash_payload(&env, b""), "e3b0c44298fc1c149afbf4c8996fb924");
    // SHA-256 of "abc" starts with ba7816bf8f01cfea414140de5dae2223.
    assert_eq!(Attestation::hash_payload(&env, b"abc"), "ba7816bf8f01cfea414140de5dae2223");
    assert_ne!(Attestation::hash_payload(&env, b"abc"), Attestation::hash_payload(&env, b"abd"));
}
