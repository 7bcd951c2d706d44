use soroban_sdk::xdr::ToXdr;
use soroban_sdk::testutils::Address as _;
use soroban_sdk::Env;
use trustlink::types::{Address, Attestation, AttestationRequest, MultiSigProposal};

fn host_address(env: &Env) -> Address {
    let a = soroban_sdk::Address::generate(env);
    let s = a.to_string();
    let mut buf = vec![0u8; s.len() as usize];
    s.copy_into_slice(&mut buf);
    Address::new(String::from_utf8(buf).unwrap())
}

#[test]
fn host_addresses_are_valid_keys() {
    let env = Env::default();
    assert!(host_address(&env).is_valid());
    assert!(!Address::new("GABC".to_string()).is_valid());
    let mut key = host_address(&env).key;
    key.replace_range(55..56, if key.ends_with('A') { "B" } else { "A" });
    assert!(!Address::new(key).is_valid());
}

#[test]
fn generate_id_is_deterministic_and_field_sensitive() {
    let env = Env::default();
    let issuer = host_address(&env);
    let subject = host_address(&env);
    let kyc = "KYC".to_string();
    let a = Attestation::generate_id(&env, &issuer, &subject, &kyc, 10);
    assert_eq!(a.len(), 32);
    assert!(a.chars().all(|c| c.is_ascii_hexdigit() && !c.is_ascii_uppercase()));
    assert_eq!(a, Attestation::generate_id(&env, &issuer, &subject, &kyc, 10));
    assert_ne!(a, Attestation::generate_id(&env, &issuer, &subject, &kyc, 11));
    assert_ne!(a, Attestation::generate_id(&env, &subject, &issuer, &kyc, 10));
    assert_ne!(a, Attestation::generate_id(&env, &issuer, &subject, &"AML".to_string(), 10));
}

#[test]
fn generate_id_hashes_xdr_payload() {
    let env = Env::default();
    let issuer = soroban_sdk::Address::generate(&env);
    let subject = soroban_sdk::Address::generate(&env);
    let ct = soroban_sdk::String::from_str(&env, "KYC");
    let mut payload = soroban_sdk::Bytes::new(&env);
    payload.append(&issuer.clone().to_xdr(&env));
    payload.append(&subject.clone().to_xdr(&env));
    payload.append(&ct.clone().to_xdr(&env));
    payload.append(&7u64.to_xdr(&env));
    let expected = Attestation::hash_payload(&env, &payload.to_alloc_vec());
    let to_lib = |a: &soroban_sdk::Address| {
        let s = a.to_string();
        let mut buf = vec![0u8; s.len() as usize];
        s.copy_into_slice(&mut buf);
        Address::new(String::from_utf8(buf).unwrap())
    };
    let id = Attestation::generate_id(&env, &to_lib(&issuer), &to_lib(&subject), &"KYC".to_string(), 7);
    assert_eq!(id, expected);
}

#[test]
fn ids_of_different_kinds_differ() {
    let env = Env::default();
    let x = host_address(&env);
    let y = host_address(&env);
    let kyc = "KYC".to_string();
    let att = Attestation::generate_id(&env, &x, &y, &kyc, 1);
    let req = AttestationRequest::generate_id(&env, &x, &y, &kyc, 1);
    let ms = MultiSigProposal::generate_id(&env, &x, &y, &kyc, 1);
    let br = Attestation::generate_bridge_id(&env, &x, &y, &kyc, &"eth".to_string(), &"0x1".to_string(), 1);
    assert_ne!(att, req);
    assert_ne!(att, ms);
    assert_ne!(req, ms);
    assert_ne!(att, br);
    assert_eq!(br, Attestation::generate_bridge_id(&env, &x, &y, &kyc, &"eth".to_string(), &"0x1".to_string(), 1));
}

#[test]
fn try_generate_rejects_invalid_addresses() {
    let env = Env::default();
    let good = host_address(&env);
    let bad = Address::new("not-a-strkey".to_string());
    let kyc = "KYC".to_string();
    assert_eq!(Attestation::try_generate_id(&env, &bad, &good, &kyc, 1), None);
    assert_eq!(Attestation::try_generate_bridge_id(&env, &good, &bad, &kyc, &kyc, &kyc, 1), None);
    assert_eq!(AttestationRequest::try_generate_id(&env, &bad, &good, &kyc, 1), None);
    assert_eq!(MultiSigProposal::try_generate_id(&env, &good, &bad, &kyc, 1), None);
    assert_eq!(
        Attestation::try_generate_id(&env, &good, &good, &kyc, 1),
        Some(Attestation::generate_id(&env, &good, &good, &kyc, 1))
    );
}
