use trustlink::events::{Event, EventData, EventTopic, EventValue, Events};
use trustlink::types::{Address, Attestation, AttestationOrigin, IssuerTier};

fn addr(s: &str) -> Address {
    Address::new(s.to_string())
}

fn text(s: &str) -> EventValue {
    EventValue::Text(s.to_string())
}

fn sample(source_chain: Option<&str>) -> Attestation {
    Attestation {
        id: "att1".to_string(),
        issuer: addr("GISS"),
        subject: addr("GSUB"),
        claim_type: "KYC".to_string(),
        timestamp: 42,
        expiration: Some(99),
        revoked: false,
        deleted: false,
        metadata: Some("meta".to_string()),
        jurisdiction: None,
        valid_from: None,
        origin: AttestationOrigin::Bridged,
        source_chain: source_chain.map(|s| s.to_string()),
        source_tx: None,
        tags: None,
        revocation_reason: None,
    }
}

fn tuple(topic: EventTopic, scope: Option<EventValue>, fields: Vec<EventValue>) -> Event {
    Event { topic, scope, data: EventData::Tuple(fields) }
}

#[test]
fn admin_initialized_event() {
    let e = Events::admin_initialized(&addr("GADM"), 7);
    assert_eq!(e, tuple(EventTopic::AdminInit, None, vec![EventValue::Address(addr("GADM")), EventValue::U64(7)]));
    assert_eq!(e.topic.symbol(), "adm_init");
}

#[test]
fn attestation_created_event() {
    let e = Events::attestation_created(&sample(None));
    assert_eq!(
        e,
        tuple(
            EventTopic::Created,
            Some(EventValue::Address(addr("GSUB"))),
            vec![text("att1"), EventValue::Address(addr("GISS")), text("KYC"), EventValue::U64(42), EventValue::OptText(Some("meta".to_string()))],
        )
    );
    assert_eq!(e.topic.symbol(), "created");
}

#[test]
fn attestation_imported_event() {
    let e = Events::attestation_imported(&sample(None));
    assert_eq!(
        e,
        tuple(
            EventTopic::Imported,
            Some(EventValue::Address(addr("GSUB"))),
            vec![text("att1"), EventValue::Address(addr("GISS")), text("KYC"), EventValue::U64(42), EventValue::OptU64(Some(99))],
        )
    );
}

#[test]
fn attestation_bridged_event_fills_missing_sources() {
    let e = Events::attestation_bridged(&sample(Some("ethereum")));
    assert_eq!(
        e,
        tuple(
            EventTopic::Bridged,
            Some(EventValue::Address(addr("GSUB"))),
            vec![text("att1"), EventValue::Address(addr("GISS")), text("KYC"), text("ethereum"), text("")],
        )
    );
    let e = Events::attestation_bridged(&sample(None));
    match e.data {
        EventData::Tuple(v) => assert_eq!(v[3], text("")),
        _ => panic!("tuple expected"),
    }
}

#[test]
fn revoked_events_agree() {
    let reason = Some("fraud".to_string());
    let a = Events::attestation_revoked(&"att1".to_string(), &addr("GISS"), &reason);
    let b = Events::attestation_revoked_with_reason(&"att1".to_string(), &addr("GISS"), &reason);
    assert_eq!(a, b);
    assert_eq!(a, tuple(EventTopic::Revoked, Some(EventValue::Address(addr("GISS"))), vec![text("att1"), EventValue::OptText(reason)]));
    assert_eq!(a.topic.symbol(), "revoked");
}

#[test]
fn renewed_and_updated_events() {
    let a = Events::attestation_renewed(&"att1".to_string(), &addr("GISS"), Some(5));
    assert_eq!(a, tuple(EventTopic::Renewed, Some(EventValue::Address(addr("GISS"))), vec![text("att1"), EventValue::OptU64(Some(5))]));
    let b = Events::attestation_updated(&"att1".to_string(), &addr("GISS"), None);
    assert_eq!(b, tuple(EventTopic::Updated, Some(EventValue::Address(addr("GISS"))), vec![text("att1"), EventValue::OptU64(None)]));
}

#[test]
fn expired_event_carries_single_id() {
    let e = Events::attestation_expired(&"att1".to_string(), &addr("GSUB"));
    assert_eq!(e, Event { topic: EventTopic::Expired, scope: Some(EventValue::Address(addr("GSUB"))), data: EventData::Single(text("att1")) });
}

#[test]
fn deletion_and_issuer_events() {
    let e = Events::deletion_requested(&addr("GSUB"), &"att1".to_string(), 3);
    assert_eq!(e, tuple(EventTopic::DeletionRequested, Some(EventValue::Address(addr("GSUB"))), vec![text("att1"), EventValue::U64(3)]));
    let e = Events::issuer_registered(&addr("GISS"), &addr("GADM"), 4);
    assert_eq!(e, tuple(EventTopic::IssuerRegistered, Some(EventValue::Address(addr("GISS"))), vec![EventValue::Address(addr("GADM")), EventValue::U64(4)]));
    let e = Events::issuer_removed(&addr("GISS"), &addr("GADM"), 5);
    assert_eq!(e.topic.symbol(), "iss_rem");
    let e = Events::issuer_tier_updated(&addr("GISS"), &IssuerTier::Premium);
    assert_eq!(e, Event { topic: EventTopic::IssuerTierUpdated, scope: Some(EventValue::Address(addr("GISS"))), data: EventData::Single(EventValue::Tier(IssuerTier::Premium)) });
}

#[test]
fn claim_type_event_scoped_by_claim_type() {
    let e = Events::claim_type_registered(&"KYC".to_string(), &"desc".to_string());
    assert_eq!(e, Event { topic: EventTopic::ClaimTypeRegistered, scope: Some(text("KYC")), data: EventData::Single(text("desc")) });
    assert_eq!(e.topic.symbol(), "clmtype");
}

#[test]
fn multisig_events() {
    let e = Events::multisig_proposed(&"p1".to_string(), &addr("GP"), &addr("GSUB"), 2);
    assert_eq!(e, tuple(EventTopic::MultisigProposed, Some(EventValue::Address(addr("GSUB"))), vec![text("p1"), EventValue::Address(addr("GP")), EventValue::U32(2)]));
    let e = Events::multisig_cosigned(&"p1".to_string(), &addr("GS"), 1, 2);
    assert_eq!(e, tuple(EventTopic::MultisigSigned, Some(EventValue::Address(addr("GS"))), vec![text("p1"), EventValue::U32(1), EventValue::U32(2)]));
    let e = Events::multisig_activated(&"p1".to_string(), &"att1".to_string());
    assert_eq!(e, tuple(EventTopic::MultisigActivated, None, vec![text("p1"), text("att1")]));
}

#[test]
fn admin_council_events() {
    let e = Events::admin_transferred(&addr("GOLD"), &addr("GNEW"));
    assert_eq!(e, tuple(EventTopic::AdminTransferred, None, vec![EventValue::Address(addr("GOLD")), EventValue::Address(addr("GNEW"))]));
    let e = Events::admin_added(&addr("GBY"), &addr("GNEW"), 9);
    assert_eq!(e, tuple(EventTopic::AdminAdded, Some(EventValue::Address(addr("GBY"))), vec![EventValue::Address(addr("GNEW")), EventValue::U64(9)]));
    let e = Events::admin_removed(&addr("GBY"), &addr("GOLD"), 9);
    assert_eq!(e.topic.symbol(), "adm_rem");
}

#[test]
fn endorsement_and_hook_events() {
    let e = Events::attestation_endorsed(&"att1".to_string(), &addr("GEND"), 11);
    assert_eq!(e, tuple(EventTopic::Endorsed, Some(EventValue::Address(addr("GEND"))), vec![text("att1"), EventValue::U64(11)]));
    let e = Events::expiration_hook_triggered(&addr("GSUB"), &"att1".to_string(), 12);
    assert_eq!(e, tuple(EventTopic::ExpirationHook, Some(EventValue::Address(addr("GSUB"))), vec![text("att1"), EventValue::U64(12)]));
}

#[test]
fn pause_events() {
    let e = Events::contract_paused(&addr("GADM"), 1);
    assert_eq!(e, tuple(EventTopic::Paused, None, vec![EventValue::Address(addr("GADM")), EventValue::U64(1)]));
    let e = Events::contract_unpaused(&addr("GADM"), 2);
    assert_eq!(e.topic.symbol(), "unpaused");
}

#[test]
fn request_events() {
    let e = Events::attestation_requested(&"r1".to_string(), &addr("GSUB"), &addr("GISS"), &"KYC".to_string(), 77);
    assert_eq!(e, tuple(EventTopic::Requested, Some(EventValue::Address(addr("GISS"))), vec![text("r1"), EventValue::Address(addr("GSUB")), text("KYC"), EventValue::U64(77)]));
    let e = Events::request_fulfilled(&"r1".to_string(), &addr("GISS"), &"att1".to_string());
    assert_eq!(e, tuple(EventTopic::RequestFulfilled, Some(EventValue::Address(addr("GISS"))), vec![text("r1"), text("att1")]));
    let e = Events::request_rejected(&"r1".to_string(), &addr("GISS"), &None);
    assert_eq!(e, tuple(EventTopic::RequestRejected, Some(EventValue::Address(addr("GISS"))), vec![text("r1"), EventValue::OptText(None)]));
}

#[test]
fn delegation_events() {
    let e = Events::delegation_created(&addr("GD"), &addr("GS"), &"KYC".to_string(), Some(3));
    assert_eq!(e, tuple(EventTopic::DelegationCreated, Some(EventValue::Address(addr("GD"))), vec![EventValue::Address(addr("GS")), text("KYC"), EventValue::OptU64(Some(3))]));
    let e = Events::delegation_revoked(&addr("GD"), &addr("GS"), &"KYC".to_string());
    assert_eq!(e, tuple(EventTopic::DelegationRevoked, Some(EventValue::Address(addr("GD"))), vec![EventValue::Address(addr("GS")), text("KYC")]));
    assert_eq!(e.topic.symbol(), "dlg_rev");
}

#[test]
fn whitelist_events() {
    let e = Events::whitelist_mode_enabled(&addr("GISS"));
    assert_eq!(e, Event { topic: EventTopic::WhitelistOn, scope: Some(EventValue::Address(addr("GISS"))), data: EventData::Unit });
    let added = Events::whitelist_updated(&addr("GISS"), &addr("GSUB"), true);
    assert_eq!(added, Event { topic: EventTopic::WhitelistAdded, scope: Some(EventValue::Address(addr("GISS"))), data: EventData::Single(EventValue::Address(addr("GSUB"))) });
    assert_eq!(added.topic.symbol(), "wl_add");
    let removed = Events::whitelist_updated(&addr("GISS"), &addr("GSUB"), false);
    assert_eq!(removed.topic.symbol(), "wl_rem");
}

#[test]
fn topic_symbols_are_distinct_and_short() {
    let topics = [
        EventTopic::AdminInit, EventTopic::Created, EventTopic::Imported, EventTopic::Bridged,
        EventTopic::Revoked, EventTopic::Renewed, EventTopic::Updated, EventTopic::Expired,
        EventTopic::DeletionRequested, EventTopic::IssuerRegistered, EventTopic::IssuerTierUpdated,
        EventTopic::IssuerRemoved, EventTopic::ClaimTypeRegistered, EventTopic::MultisigProposed,
        EventTopic::MultisigSigned, EventTopic::MultisigActivated, EventTopic::AdminTransferred,
        EventTopic::AdminAdded, EventTopic::AdminRemoved, EventTopic::Endorsed,
        EventTopic::ExpirationHook, EventTopic::Paused, EventTopic::Unpaused, EventTopic::Requested,
        EventTopic::RequestFulfilled, EventTopic::RequestRejected, EventTopic::DelegationCreated,
        EventTopic::DelegationRevoked, EventTopic::WhitelistOn, EventTopic::WhitelistAdded,
        EventTopic::WhitelistRemoved,
    ];
    for (i, a) in topics.iter().enumerate() {
        assert!(a.symbol().len() <= 9);
        for b in topics.iter().skip(i + 1) {
            assert_ne!(a.symbol(), b.symbol());
        }
    }
}
