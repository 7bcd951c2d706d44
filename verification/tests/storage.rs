use trustlink::storage::{
    get_ttl_lifetime, paginate, Storage, StorageKey, Tier, DEFAULT_INSTANCE_LIFETIME,
};
use trustlink::types::{
    Address, AuditAction, AuditEntry, ClaimTypeInfo, Endorsement, Error, GlobalStats,
    IssuerStats, StorageLimits, TtlConfig,
};

fn addr(s: &str) -> Address {
    Address::new(s.to_string())
}

fn ids(v: &[&str]) -> Vec<String> {
    v.iter().map(|s| s.to_string()).collect()
}

#[test]
fn ttl_defaults_to_thirty_days() {
    assert_eq!(get_ttl_lifetime(None), 518_400);
    assert_eq!(DEFAULT_INSTANCE_LIFETIME, 17_280 * 30);
}

#[test]
fn ttl_follows_configured_days() {
    assert_eq!(get_ttl_lifetime(Some(TtlConfig { ttl_days: 7 })), 120_960);
    assert_eq!(get_ttl_lifetime(Some(TtlConfig { ttl_days: 0 })), 0);
}

#[test]
fn has_admin_needs_a_member() {
    assert!(!Storage::has_admin(&None));
    assert!(!Storage::has_admin(&Some(vec![])));
    assert!(Storage::has_admin(&Some(vec![addr("GA")])));
}

#[test]
fn set_admin_stores_single_member_council() {
    let council = Storage::set_admin(&addr("GA"));
    assert_eq!(council, vec![addr("GA")]);
    assert_eq!(Storage::get_admin(Some(council)), Ok(addr("GA")));
}

#[test]
fn get_admin_council_absent_is_not_initialized() {
    assert_eq!(Storage::get_admin_council(None), Err(Error::NotInitialized));
    assert_eq!(Storage::get_admin_council(Some(vec![addr("GA")])), Ok(vec![addr("GA")]));
}

#[test]
fn get_admin_errors_on_empty_or_absent_council() {
    assert_eq!(Storage::get_admin(None), Err(Error::NotInitialized));
    assert_eq!(Storage::get_admin(Some(vec![])), Err(Error::NotInitialized));
    assert_eq!(Storage::get_admin(Some(vec![addr("GB"), addr("GA")])), Ok(addr("GB")));
}

#[test]
fn is_admin_checks_membership() {
    let council = Some(vec![addr("GA"), addr("GB")]);
    assert!(Storage::is_admin(&council, &addr("GB")));
    assert!(!Storage::is_admin(&council, &addr("GC")));
    assert!(!Storage::is_admin(&None, &addr("GA")));
}

#[test]
fn add_admin_appends_new_member() {
    assert_eq!(Storage::add_admin(None, &addr("GA")), Some(vec![addr("GA")]));
    assert_eq!(
        Storage::add_admin(Some(vec![addr("GA")]), &addr("GB")),
        Some(vec![addr("GA"), addr("GB")])
    );
}

#[test]
fn add_admin_existing_member_writes_nothing() {
    assert_eq!(Storage::add_admin(Some(vec![addr("GA"), addr("GB")]), &addr("GA")), None);
}

#[test]
fn remove_admin_drops_member_and_keeps_order() {
    let council = Some(vec![addr("GA"), addr("GB"), addr("GC")]);
    assert_eq!(Storage::remove_admin(council, &addr("GB")), Some(vec![addr("GA"), addr("GC")]));
}

#[test]
fn remove_admin_absent_member_writes_nothing() {
    assert_eq!(Storage::remove_admin(Some(vec![addr("GA")]), &addr("GB")), None);
    assert_eq!(Storage::remove_admin(None, &addr("GB")), None);
}

#[test]
fn remove_last_admin_leaves_empty_council() {
    let after = Storage::remove_admin(Some(vec![addr("GA")]), &addr("GA"));
    assert_eq!(after, Some(vec![]));
    assert!(!Storage::has_admin(&after));
}

#[test]
fn get_attestation_absent_is_not_found() {
    assert_eq!(Storage::get_attestation(None), Err(Error::NotFound));
}

#[test]
fn subject_index_add_and_remove() {
    assert_eq!(Storage::get_subject_attestations(None), Vec::<String>::new());
    let after = Storage::add_subject_attestation(Some(ids(&["a1", "a2"])), &"a3".to_string());
    assert_eq!(after, ids(&["a1", "a2", "a3"]));
    let removed = Storage::remove_subject_attestation(Some(ids(&["a1", "a2", "a1", "a3"])), &"a1".to_string());
    assert_eq!(removed, ids(&["a2", "a3"]));
    assert_eq!(Storage::remove_subject_attestation(None, &"a1".to_string()), Vec::<String>::new());
}

#[test]
fn issuer_index_removes_id() {
    assert_eq!(Storage::get_issuer_attestations(Some(ids(&["x"]))), ids(&["x"]));
    assert_eq!(Storage::add_issuer_attestation(None, &"x".to_string()), Vec::<String>::new());
    assert_eq!(
        Storage::add_issuer_attestation(Some(ids(&["x", "y", "x", "z"])), &"x".to_string()),
        ids(&["y", "z"])
    );
}

#[test]
fn whitelist_mode_defaults_to_off() {
    assert!(!Storage::is_whitelist_mode(None));
    assert!(Storage::is_whitelist_mode(Some(true)));
    assert!(!Storage::is_whitelist_mode(Some(false)));
}

#[test]
fn key_tiers_follow_layout() {
    assert_eq!(StorageKey::Admin.tier(), Tier::Instance);
    assert_eq!(StorageKey::Version.tier(), Tier::Instance);
    assert_eq!(StorageKey::FeeConfig.tier(), Tier::Instance);
    assert_eq!(StorageKey::GlobalStats.tier(), Tier::Instance);
    assert_eq!(StorageKey::AdminCouncil.tier(), Tier::Persistent);
    assert_eq!(StorageKey::Attestation("a".to_string()).tier(), Tier::Persistent);
}

#[test]
fn set_claim_type_appends_only_new_types() {
    let info = ClaimTypeInfo { claim_type: "KYC".to_string(), description: "Know your customer".to_string() };
    assert_eq!(Storage::set_claim_type(false, Some(ids(&["AML"])), &info), Some(ids(&["AML", "KYC"])));
    assert_eq!(Storage::set_claim_type(false, None, &info), Some(ids(&["KYC"])));
    assert_eq!(Storage::set_claim_type(true, Some(ids(&["AML", "KYC"])), &info), None);
    assert_eq!(Storage::get_claim_type_list(None), Vec::<String>::new());
}

#[test]
fn next_proposal_id_counts_from_one() {
    assert_eq!(Storage::next_proposal_id(None), 1);
    assert_eq!(Storage::next_proposal_id(Some(41)), 42);
}

#[test]
fn paused_defaults_to_false() {
    assert!(!Storage::is_paused(None));
    assert!(Storage::is_paused(Some(true)));
    assert!(!Storage::is_paused(Some(false)));
}

#[test]
fn global_stats_default_to_zero() {
    let zero = GlobalStats { total_attestations: 0, total_revocations: 0, total_issuers: 0 };
    assert_eq!(Storage::get_global_stats(None), zero);
}

#[test]
fn global_stats_increments_saturate() {
    let stats = GlobalStats { total_attestations: u64::MAX - 1, total_revocations: 5, total_issuers: 2 };
    let after = Storage::increment_total_attestations(Some(stats), 10);
    assert_eq!(after, GlobalStats { total_attestations: u64::MAX, total_revocations: 5, total_issuers: 2 });
    let after = Storage::increment_total_revocations(Some(stats), 3);
    assert_eq!(after.total_revocations, 8);
    assert_eq!(after.total_attestations, u64::MAX - 1);
    assert_eq!(Storage::increment_total_issuers(None).total_issuers, 1);
}

#[test]
fn decrement_total_issuers_stops_at_zero() {
    assert_eq!(Storage::decrement_total_issuers(None).total_issuers, 0);
    let stats = GlobalStats { total_attestations: 1, total_revocations: 1, total_issuers: 3 };
    assert_eq!(Storage::decrement_total_issuers(Some(stats)).total_issuers, 2);
}

#[test]
fn issuer_stats_default_to_zero() {
    assert_eq!(Storage::get_issuer_stats(None), IssuerStats { total_issued: 0 });
    assert_eq!(Storage::get_issuer_stats(Some(IssuerStats { total_issued: 9 })).total_issued, 9);
}

#[test]
fn limits_default_when_absent() {
    let d = Storage::get_limits(None);
    assert_eq!(d.max_attestations_per_issuer, 10_000);
    assert_eq!(d.max_attestations_per_subject, 100);
    let custom = StorageLimits { max_attestations_per_issuer: 5, max_attestations_per_subject: 6 };
    assert_eq!(Storage::get_limits(Some(custom)), custom);
}

#[test]
fn audit_log_appends_in_order() {
    let e1 = AuditEntry { action: AuditAction::Created, actor: addr("GA"), timestamp: 1, details: None };
    let e2 = AuditEntry { action: AuditAction::Revoked, actor: addr("GB"), timestamp: 2, details: Some("fraud".to_string()) };
    let log = Storage::append_audit_entry(None, &e1);
    let log = Storage::append_audit_entry(Some(log), &e2);
    assert_eq!(log, vec![e1, e2]);
    assert!(Storage::get_audit_log(None).is_empty());
}

#[test]
fn endorsements_append() {
    let e = Endorsement { attestation_id: "a1".to_string(), endorser: addr("GA"), timestamp: 7 };
    assert_eq!(Storage::add_endorsement(None, &e), vec![e.clone()]);
    assert!(Storage::get_endorsements(None).is_empty());
}

#[test]
fn multisig_and_request_absent_are_not_found() {
    assert_eq!(Storage::get_multisig_proposal(None), Err(Error::NotFound));
    assert_eq!(Storage::get_attestation_request(None), Err(Error::NotFound));
}

#[test]
fn pending_requests_add_and_remove() {
    let after = Storage::add_pending_request(Some(ids(&["r1"])), &"r2".to_string());
    assert_eq!(after, ids(&["r1", "r2"]));
    assert_eq!(Storage::remove_pending_request(Some(after), &"r1".to_string()), ids(&["r2"]));
    assert_eq!(Storage::get_pending_requests(None), Vec::<String>::new());
}

#[test]
fn paginate_slices() {
    let items: Vec<u32> = (0..10).collect();
    assert_eq!(paginate(&items, 0, 3), vec![0, 1, 2]);
    assert_eq!(paginate(&items, 8, 5), vec![8, 9]);
    assert_eq!(paginate(&items, 10, 5), Vec::<u32>::new());
    assert_eq!(paginate(&items, 2, 0), Vec::<u32>::new());
    assert_eq!(paginate(&items, 5, u32::MAX), vec![5, 6, 7, 8, 9]);
}

#[test]
fn paginate_strings() {
    let items = ids(&["a", "b", "c"]);
    assert_eq!(paginate(&items, 1, 1), ids(&["b"]));
}
