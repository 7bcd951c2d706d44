//! Event builders: the topics and payload of every event the contract emits.
//!
//! Each builder returns the event as plain values; publishing it is left to
//! the host environment.

use vstd::prelude::*;
use crate::types::{clone_opt_string, Address, Attestation, IssuerTier};

verus! {

/// The first topic of an event, naming what happened.
#[derive(Clone, Copy, Debug, PartialEq, Eq, Structural)]
pub enum EventTopic {
    /// Admin initialized the contract.
    AdminInit,
    /// Attestation created.
    Created,
    /// Attestation imported from an external source.
    Imported,
    /// Attestation bridged from another chain.
    Bridged,
    /// Attestation revoked.
    Revoked,
    /// Attestation renewed (expiration updated by issuer).
    Renewed,
    /// Attestation expiration updated.
    Updated,
    /// Attestation expired (emitted lazily on status check).
    Expired,
    /// Subject requested deletion of an attestation.
    DeletionRequested,
    /// Issuer registered.
    IssuerRegistered,
    /// Issuer tier updated.
    IssuerTierUpdated,
    /// Issuer removed.
    IssuerRemoved,
    /// Claim type registered.
    ClaimTypeRegistered,
    /// Multi-sig proposal created.
    MultisigProposed,
    /// Multi-sig proposal co-signed.
    MultisigSigned,
    /// Multi-sig proposal activated (threshold reached).
    MultisigActivated,
    /// Admin rights transferred.
    AdminTransferred,
    /// Admin added to council.
    AdminAdded,
    /// Admin removed from council.
    AdminRemoved,
    /// Attestation endorsed by a registered issuer.
    Endorsed,
    /// Expiration hook triggered for a subject.
    ExpirationHook,
    /// Contract paused.
    Paused,
    /// Contract unpaused.
    Unpaused,
    /// Subject submitted an attestation request.
    Requested,
    /// Issuer fulfilled an attestation request.
    RequestFulfilled,
    /// Issuer rejected an attestation request.
    RequestRejected,
    /// Delegation created from issuer to sub-issuer.
    DelegationCreated,
    /// Delegation revoked.
    DelegationRevoked,
    /// Whitelist mode enabled for an issuer.
    WhitelistOn,
    /// Subject added to issuer whitelist.
    WhitelistAdded,
    /// Subject removed from issuer whitelist.
    WhitelistRemoved,
}

/// The short symbol under which a topic is published.
pub open spec fn topic_symbol(t: EventTopic) -> Seq<char> {
    match t {
        EventTopic::AdminInit => "adm_init"@,
        EventTopic::Created => "created"@,
        EventTopic::Imported => "imported"@,
        EventTopic::Bridged => "bridged"@,
        EventTopic::Revoked => "revoked"@,
        EventTopic::Renewed => "renewed"@,
        EventTopic::Updated => "updated"@,
        EventTopic::Expired => "expired"@,
        EventTopic::DeletionRequested => "del_req"@,
        EventTopic::IssuerRegistered => "iss_reg"@,
        EventTopic::IssuerTierUpdated => "iss_tier"@,
        EventTopic::IssuerRemoved => "iss_rem"@,
        EventTopic::ClaimTypeRegistered => "clmtype"@,
        EventTopic::MultisigProposed => "ms_prop"@,
        EventTopic::MultisigSigned => "ms_sign"@,
        EventTopic::MultisigActivated => "ms_actv"@,
        EventTopic::AdminTransferred => "adm_xfer"@,
        EventTopic::AdminAdded => "adm_add"@,
        EventTopic::AdminRemoved => "adm_rem"@,
        EventTopic::Endorsed => "endorsed"@,
        EventTopic::ExpirationHook => "exp_hook"@,
        EventTopic::Paused => "paused"@,
        EventTopic::Unpaused => "unpaused"@,
        EventTopic::Requested => "req"@,
        EventTopic::RequestFulfilled => "req_ok"@,
        EventTopic::RequestRejected => "req_no"@,
        EventTopic::DelegationCreated => "dlg_new"@,
        EventTopic::DelegationRevoked => "dlg_rev"@,
        EventTopic::WhitelistOn => "wl_on"@,
        EventTopic::WhitelistAdded => "wl_add"@,
        EventTopic::WhitelistRemoved => "wl_rem"@,
    }
}

impl EventTopic {
    /// The short symbol under which this topic is published.
    pub fn symbol(&self) -> (s: &'static str)
        ensures
            s@ == topic_symbol(*self),
    {
        match self {
            EventTopic::AdminInit => "adm_init",
            EventTopic::Created => "created",
            EventTopic::Imported => "imported",
            EventTopic::Bridged => "bridged",
            EventTopic::Revoked => "revoked",
            EventTopic::Renewed => "renewed",
            EventTopic::Updated => "updated",
            EventTopic::Expired => "expired",
            EventTopic::DeletionRequested => "del_req",
            EventTopic::IssuerRegistered => "iss_reg",
            EventTopic::IssuerTierUpdated => "iss_tier",
            EventTopic::IssuerRemoved => "iss_rem",
            EventTopic::ClaimTypeRegistered => "clmtype",
            EventTopic::MultisigProposed => "ms_prop",
            EventTopic::MultisigSigned => "ms_sign",
            EventTopic::MultisigActivated => "ms_actv",
            EventTopic::AdminTransferred => "adm_xfer",
            EventTopic::AdminAdded => "adm_add",
            EventTopic::AdminRemoved => "adm_rem",
            EventTopic::Endorsed => "endorsed",
            EventTopic::ExpirationHook => "exp_hook",
            EventTopic::Paused => "paused",
            EventTopic::Unpaused => "unpaused",
            EventTopic::Requested => "req",
            EventTopic::RequestFulfilled => "req_ok",
            EventTopic::RequestRejected => "req_no",
            EventTopic::DelegationCreated => "dlg_new",
            EventTopic::DelegationRevoked => "dlg_rev",
            EventTopic::WhitelistOn => "wl_on",
            EventTopic::WhitelistAdded => "wl_add",
            EventTopic::WhitelistRemoved => "wl_rem",
        }
    }
}

/// A single value carried by an event, in a topic or in the payload.
#[derive(Debug, PartialEq, Eq)]
pub enum EventValue {
    Address(Address),
    Text(String),
    OptText(Option<String>),
    U32(u32),
    U64(u64),
    OptU64(Option<u64>),
    Tier(IssuerTier),
}

/// The payload of an event: nothing, a single value, or a tuple of values.
#[derive(Debug, PartialEq, Eq)]
pub enum EventData {
    Unit,
    Single(EventValue),
    Tuple(Vec<EventValue>),
}

/// An event: its topic symbol, an optional second topic, and its payload.
#[derive(Debug, PartialEq, Eq)]
pub struct Event {
    pub topic: EventTopic,
    pub scope: Option<EventValue>,
    pub data: EventData,
}

/// `e` has topic `topic`, second topic `scope`, and the tuple `fields` as payload.
pub open spec fn emits_tuple(e: Event, topic: EventTopic, scope: Option<EventValue>, fields: Seq<EventValue>) -> bool {
    &&& e.topic == topic
    &&& e.scope == scope
    &&& e.data matches EventData::Tuple(v) && v@ == fields
}

/// `e` has topic `topic`, second topic `scope`, and the single value `value` as payload.
pub open spec fn emits_single(e: Event, topic: EventTopic, scope: Option<EventValue>, value: EventValue) -> bool {
    &&& e.topic == topic
    &&& e.scope == scope
    &&& e.data == EventData::Single(value)
}

/// `e` has topic `topic`, second topic `scope`, and no payload.
pub open spec fn emits_unit(e: Event, topic: EventTopic, scope: Option<EventValue>) -> bool {
    &&& e.topic == topic
    &&& e.scope == scope
    &&& e.data == EventData::Unit
}

/// `s`, or the empty string when absent.
pub open spec fn text_or_empty(s: Option<String>) -> Seq<char> {
    match s {
        Some(t) => t@,
        None => Seq::empty(),
    }
}

/// `v` is a text value spelled `s`.
pub open spec fn text_value_is(v: EventValue, s: Seq<char>) -> bool {
    v matches EventValue::Text(t) && t@ == s
}

/// `f` is the payload of the bridged event for `a`: its ID, issuer, claim
/// type, source chain and source transaction, an absent one as "".
pub open spec fn bridged_fields(f: Seq<EventValue>, a: Attestation) -> bool {
    &&& f.len() == 5
    &&& f[0] == EventValue::Text(a.id)
    &&& f[1] == EventValue::Address(a.issuer)
    &&& f[2] == EventValue::Text(a.claim_type)
    &&& text_value_is(f[3], text_or_empty(a.source_chain))
    &&& text_value_is(f[4], text_or_empty(a.source_tx))
}

fn tuple_event(topic: EventTopic, scope: Option<EventValue>, fields: Vec<EventValue>) -> (e: Event)
    ensures
        emits_tuple(e, topic, scope, fields@),
{
    Event { topic, scope, data: EventData::Tuple(fields) }
}

fn single_event(topic: EventTopic, scope: Option<EventValue>, value: EventValue) -> (e: Event)
    ensures
        emits_single(e, topic, scope, value),
{
    Event { topic, scope, data: EventData::Single(value) }
}

/// Builders for every event the contract emits.
pub struct Events;

impl Events {
    /// Emitted when an attestation is created.
    pub fn attestation_created(attestation: &Attestation) -> (e: Event)
        ensures
            emits_tuple(e, EventTopic::Created, Some(EventValue::Address(attestation.subject)), seq![
                EventValue::Text(attestation.id),
                EventValue::Address(attestation.issuer),
                EventValue::Text(attestation.claim_type),
                EventValue::U64(attestation.timestamp),
                EventValue::OptText(attestation.metadata),
            ]),
    {
        tuple_event(
            EventTopic::Created,
            Some(EventValue::Address(attestation.subject.clone())),
            vec![
                EventValue::Text(attestation.id.clone()),
                EventValue::Address(attestation.issuer.clone()),
                EventValue::Text(attestation.claim_type.clone()),
                EventValue::U64(attestation.timestamp),
                EventValue::OptText(clone_opt_string(&attestation.metadata)),
            ],
        )
    }

    /// Emitted when an attestation is imported from an external source.
    pub fn attestation_imported(attestation: &Attestation) -> (e: Event)
        ensures
            emits_tuple(e, EventTopic::Imported, Some(EventValue::Address(attestation.subject)), seq![
                EventValue::Text(attestation.id),
                EventValue::Address(attestation.issuer),
                EventValue::Text(attestation.claim_type),
                EventValue::U64(attestation.timestamp),
                EventValue::OptU64(attestation.expiration),
            ]),
    {
        tuple_event(
            EventTopic::Imported,
            Some(EventValue::Address(attestation.subject.clone())),
            vec![
                EventValue::Text(attestation.id.clone()),
                EventValue::Address(attestation.issuer.clone()),
                EventValue::Text(attestation.claim_type.clone()),
                EventValue::U64(attestation.timestamp),
                EventValue::OptU64(attestation.expiration),
            ],
        )
    }

    /// Emitted when an attestation is bridged from another chain; an absent
    /// source chain or transaction is published as the empty string.
    pub fn attestation_bridged(attestation: &Attestation) -> (e: Event)
        ensures
            e.topic == EventTopic::Bridged,
            e.scope == Some(EventValue::Address(attestation.subject)),
            e.data matches EventData::Tuple(v) && bridged_fields(v@, *attestation),
    {
        let chain = match &attestation.source_chain {
            Some(c) => c.clone(),
            None => String::new(),
        };
        let tx = match &attestation.source_tx {
            Some(t) => t.clone(),
            None => String::new(),
        };
        tuple_event(
            EventTopic::Bridged,
            Some(EventValue::Address(attestation.subject.clone())),
            vec![
                EventValue::Text(attestation.id.clone()),
                EventValue::Address(attestation.issuer.clone()),
                EventValue::Text(attestation.claim_type.clone()),
                EventValue::Text(chain),
                EventValue::Text(tx),
            ],
        )
    }

    /// Emitted when the admin initializes the contract.
    pub fn admin_initialized(admin: &Address, timestamp: u64) -> (e: Event)
        ensures
            emits_tuple(e, EventTopic::AdminInit, None, seq![EventValue::Address(*admin), EventValue::U64(timestamp)]),
    {
        tuple_event(
            EventTopic::AdminInit,
            None,
            vec![
                EventValue::Address(admin.clone()),
                EventValue::U64(timestamp),
            ],
        )
    }

    /// Emitted when an issuer revokes an attestation.
    pub fn attestation_revoked(attestation_id: &String, issuer: &Address, reason: &Option<String>) -> (e: Event)
        ensures
            emits_tuple(e, EventTopic::Revoked, Some(EventValue::Address(*issuer)), seq![EventValue::Text(*attestation_id), EventValue::OptText(*reason)]),
    {
        tuple_event(
            EventTopic::Revoked,
            Some(EventValue::Address(issuer.clone())),
            vec![
                EventValue::Text(attestation_id.clone()),
                EventValue::OptText(clone_opt_string(&reason)),
            ],
        )
    }

    /// Emitted when an issuer revokes an attestation, with the reason given.
    pub fn attestation_revoked_with_reason(attestation_id: &String, issuer: &Address, reason: &Option<String>) -> (e: Event)
        ensures
            emits_tuple(e, EventTopic::Revoked, Some(EventValue::Address(*issuer)), seq![EventValue::Text(*attestation_id), EventValue::OptText(*reason)]),
    {
        tuple_event(
            EventTopic::Revoked,
            Some(EventValue::Address(issuer.clone())),
            vec![
                EventValue::Text(attestation_id.clone()),
                EventValue::OptText(clone_opt_string(&reason)),
            ],
        )
    }

    /// Emitted when an issuer renews an attestation.
    pub fn attestation_renewed(attestation_id: &String, issuer: &Address, new_expiration: Option<u64>) -> (e: Event)
        ensures
            emits_tuple(e, EventTopic::Renewed, Some(EventValue::Address(*issuer)), seq![EventValue::Text(*attestation_id), EventValue::OptU64(new_expiration)]),
    {
        tuple_event(
            EventTopic::Renewed,
            Some(EventValue::Address(issuer.clone())),
            vec![
                EventValue::Text(attestation_id.clone()),
                EventValue::OptU64(new_expiration),
            ],
        )
    }

    /// Emitted when an attestation's expiration is updated.
    pub fn attestation_updated(attestation_id: &String, issuer: &Address, new_expiration: Option<u64>) -> (e: Event)
        ensures
            emits_tuple(e, EventTopic::Updated, Some(EventValue::Address(*issuer)), seq![EventValue::Text(*attestation_id), EventValue::OptU64(new_expiration)]),
    {
        tuple_event(
            EventTopic::Updated,
            Some(EventValue::Address(issuer.clone())),
            vec![
                EventValue::Text(attestation_id.clone()),
                EventValue::OptU64(new_expiration),
            ],
        )
    }

    /// Emitted when an attestation is found expired.
    pub fn attestation_expired(attestation_id: &String, subject: &Address) -> (e: Event)
        ensures
            emits_single(e, EventTopic::Expired, Some(EventValue::Address(*subject)), EventValue::Text(*attestation_id)),
    {
        single_event(EventTopic::Expired, Some(EventValue::Address(subject.clone())), EventValue::Text(attestation_id.clone()))
    }

    /// Emitted when a subject requests deletion of an attestation.
    pub fn deletion_requested(subject: &Address, attestation_id: &String, timestamp: u64) -> (e: Event)
        ensures
            emits_tuple(e, EventTopic::DeletionRequested, Some(EventValue::Address(*subject)), seq![EventValue::Text(*attestation_id), EventValue::U64(timestamp)]),
    {
        tuple_event(
            EventTopic::DeletionRequested,
            Some(EventValue::Address(subject.clone())),
            vec![
                EventValue::Text(attestation_id.clone()),
                EventValue::U64(timestamp),
            ],
        )
    }

    /// Emitted when the admin registers an issuer.
    pub fn issuer_registered(issuer: &Address, admin: &Address, timestamp: u64) -> (e: Event)
        ensures
            emits_tuple(e, EventTopic::IssuerRegistered, Some(EventValue::Address(*issuer)), seq![EventValue::Address(*admin), EventValue::U64(timestamp)]),
    {
        tuple_event(
            EventTopic::IssuerRegistered,
            Some(EventValue::Address(issuer.clone())),
            vec![
                EventValue::Address(admin.clone()),
                EventValue::U64(timestamp),
            ],
        )
    }

    /// Emitted when an issuer's tier is set or updated by the admin.
    pub fn issuer_tier_updated(issuer: &Address, tier: &IssuerTier) -> (e: Event)
        ensures
            emits_single(e, EventTopic::IssuerTierUpdated, Some(EventValue::Address(*issuer)), EventValue::Tier(*tier)),
    {
        single_event(EventTopic::IssuerTierUpdated, Some(EventValue::Address(issuer.clone())), EventValue::Tier(*tier))
    }

    /// Emitted when the admin removes an issuer.
    pub fn issuer_removed(issuer: &Address, admin: &Address, timestamp: u64) -> (e: Event)
        ensures
            emits_tuple(e, EventTopic::IssuerRemoved, Some(EventValue::Address(*issuer)), seq![EventValue::Address(*admin), EventValue::U64(timestamp)]),
    {
        tuple_event(
            EventTopic::IssuerRemoved,
            Some(EventValue::Address(issuer.clone())),
            vec![
                EventValue::Address(admin.clone()),
                EventValue::U64(timestamp),
            ],
        )
    }

    /// Emitted when a claim type is registered.
    pub fn claim_type_registered(claim_type: &String, description: &String) -> (e: Event)
        ensures
            emits_single(e, EventTopic::ClaimTypeRegistered, Some(EventValue::Text(*claim_type)), EventValue::Text(*description)),
    {
        single_event(EventTopic::ClaimTypeRegistered, Some(EventValue::Text(claim_type.clone())), EventValue::Text(description.clone()))
    }

    /// Emitted when a new multi-sig proposal is created.
    pub fn multisig_proposed(proposal_id: &String, proposer: &Address, subject: &Address, threshold: u32) -> (e: Event)
        ensures
            emits_tuple(e, EventTopic::MultisigProposed, Some(EventValue::Address(*subject)), seq![EventValue::Text(*proposal_id), EventValue::Address(*proposer), EventValue::U32(threshold)]),
    {
        tuple_event(
            EventTopic::MultisigProposed,
            Some(EventValue::Address(subject.clone())),
            vec![
                EventValue::Text(proposal_id.clone()),
                EventValue::Address(proposer.clone()),
                EventValue::U32(threshold),
            ],
        )
    }

    /// Emitted when an issuer co-signs a multi-sig proposal.
    pub fn multisig_cosigned(proposal_id: &String, signer: &Address, signatures_so_far: u32, threshold: u32) -> (e: Event)
        ensures
            emits_tuple(e, EventTopic::MultisigSigned, Some(EventValue::Address(*signer)), seq![EventValue::Text(*proposal_id), EventValue::U32(signatures_so_far), EventValue::U32(threshold)]),
    {
        tuple_event(
            EventTopic::MultisigSigned,
            Some(EventValue::Address(signer.clone())),
            vec![
                EventValue::Text(proposal_id.clone()),
                EventValue::U32(signatures_so_far),
                EventValue::U32(threshold),
            ],
        )
    }

    /// Emitted when a multi-sig proposal reaches its threshold and the attestation is activated.
    pub fn multisig_activated(proposal_id: &String, attestation_id: &String) -> (e: Event)
        ensures
            emits_tuple(e, EventTopic::MultisigActivated, None, seq![EventValue::Text(*proposal_id), EventValue::Text(*attestation_id)]),
    {
        tuple_event(
            EventTopic::MultisigActivated,
            None,
            vec![
                EventValue::Text(proposal_id.clone()),
                EventValue::Text(attestation_id.clone()),
            ],
        )
    }

    /// Emitted when admin rights are transferred to a new address.
    pub fn admin_transferred(old_admin: &Address, new_admin: &Address) -> (e: Event)
        ensures
            emits_tuple(e, EventTopic::AdminTransferred, None, seq![EventValue::Address(*old_admin), EventValue::Address(*new_admin)]),
    {
        tuple_event(
            EventTopic::AdminTransferred,
            None,
            vec![
                EventValue::Address(old_admin.clone()),
                EventValue::Address(new_admin.clone()),
            ],
        )
    }

    /// Emitted when an admin adds a new admin to the council.
    pub fn admin_added(by_admin: &Address, new_admin: &Address, timestamp: u64) -> (e: Event)
        ensures
            emits_tuple(e, EventTopic::AdminAdded, Some(EventValue::Address(*by_admin)), seq![EventValue::Address(*new_admin), EventValue::U64(timestamp)]),
    {
        tuple_event(
            EventTopic::AdminAdded,
            Some(EventValue::Address(by_admin.clone())),
            vec![
                EventValue::Address(new_admin.clone()),
                EventValue::U64(timestamp),
            ],
        )
    }

    /// Emitted when an admin removes an admin from the council.
    pub fn admin_removed(by_admin: &Address, removed_admin: &Address, timestamp: u64) -> (e: Event)
        ensures
            emits_tuple(e, EventTopic::AdminRemoved, Some(EventValue::Address(*by_admin)), seq![EventValue::Address(*removed_admin), EventValue::U64(timestamp)]),
    {
        tuple_event(
            EventTopic::AdminRemoved,
            Some(EventValue::Address(by_admin.clone())),
            vec![
                EventValue::Address(removed_admin.clone()),
                EventValue::U64(timestamp),
            ],
        )
    }

    /// Emitted when a registered issuer endorses an existing attestation.
    pub fn attestation_endorsed(attestation_id: &String, endorser: &Address, timestamp: u64) -> (e: Event)
        ensures
            emits_tuple(e, EventTopic::Endorsed, Some(EventValue::Address(*endorser)), seq![EventValue::Text(*attestation_id), EventValue::U64(timestamp)]),
    {
        tuple_event(
            EventTopic::Endorsed,
            Some(EventValue::Address(endorser.clone())),
            vec![
                EventValue::Text(attestation_id.clone()),
                EventValue::U64(timestamp),
            ],
        )
    }

    /// Emitted when an expiration hook is triggered for a subject's attestation.
    pub fn expiration_hook_triggered(subject: &Address, attestation_id: &String, expiration: u64) -> (e: Event)
        ensures
            emits_tuple(e, EventTopic::ExpirationHook, Some(EventValue::Address(*subject)), seq![EventValue::Text(*attestation_id), EventValue::U64(expiration)]),
    {
        tuple_event(
            EventTopic::ExpirationHook,
            Some(EventValue::Address(subject.clone())),
            vec![
                EventValue::Text(attestation_id.clone()),
                EventValue::U64(expiration),
            ],
        )
    }

    /// Emitted when the admin pauses the contract.
    pub fn contract_paused(admin: &Address, timestamp: u64) -> (e: Event)
        ensures
            emits_tuple(e, EventTopic::Paused, None, seq![EventValue::Address(*admin), EventValue::U64(timestamp)]),
    {
        tuple_event(
            EventTopic::Paused,
            None,
            vec![
                EventValue::Address(admin.clone()),
                EventValue::U64(timestamp),
            ],
        )
    }

    /// Emitted when the admin unpauses the contract.
    pub fn contract_unpaused(admin: &Address, timestamp: u64) -> (e: Event)
        ensures
            emits_tuple(e, EventTopic::Unpaused, None, seq![EventValue::Address(*admin), EventValue::U64(timestamp)]),
    {
        tuple_event(
            EventTopic::Unpaused,
            None,
            vec![
                EventValue::Address(admin.clone()),
                EventValue::U64(timestamp),
            ],
        )
    }

    /// Emitted when a subject submits an attestation request to an issuer.
    pub fn attestation_requested(request_id: &String, subject: &Address, issuer: &Address, claim_type: &String, expires_at: u64) -> (e: Event)
        ensures
            emits_tuple(e, EventTopic::Requested, Some(EventValue::Address(*issuer)), seq![EventValue::Text(*request_id), EventValue::Address(*subject), EventValue::Text(*claim_type), EventValue::U64(expires_at)]),
    {
        tuple_event(
            EventTopic::Requested,
            Some(EventValue::Address(issuer.clone())),
            vec![
                EventValue::Text(request_id.clone()),
                EventValue::Address(subject.clone()),
                EventValue::Text(claim_type.clone()),
                EventValue::U64(expires_at),
            ],
        )
    }

    /// Emitted when an issuer fulfills an attestation request.
    pub fn request_fulfilled(request_id: &String, issuer: &Address, attestation_id: &String) -> (e: Event)
        ensures
            emits_tuple(e, EventTopic::RequestFulfilled, Some(EventValue::Address(*issuer)), seq![EventValue::Text(*request_id), EventValue::Text(*attestation_id)]),
    {
        tuple_event(
            EventTopic::RequestFulfilled,
            Some(EventValue::Address(issuer.clone())),
            vec![
                EventValue::Text(request_id.clone()),
                EventValue::Text(attestation_id.clone()),
            ],
        )
    }

    /// Emitted when an issuer rejects an attestation request.
    pub fn request_rejected(request_id: &String, issuer: &Address, reason: &Option<String>) -> (e: Event)
        ensures
            emits_tuple(e, EventTopic::RequestRejected, Some(EventValue::Address(*issuer)), seq![EventValue::Text(*request_id), EventValue::OptText(*reason)]),
    {
        tuple_event(
            EventTopic::RequestRejected,
            Some(EventValue::Address(issuer.clone())),
            vec![
                EventValue::Text(request_id.clone()),
                EventValue::OptText(clone_opt_string(&reason)),
            ],
        )
    }

    /// Emitted when an issuer delegates a claim type to a sub-issuer.
    pub fn delegation_created(delegator: &Address, delegate: &Address, claim_type: &String, expiration: Option<u64>) -> (e: Event)
        ensures
            emits_tuple(e, EventTopic::DelegationCreated, Some(EventValue::Address(*delegator)), seq![EventValue::Address(*delegate), EventValue::Text(*claim_type), EventValue::OptU64(expiration)]),
    {
        tuple_event(
            EventTopic::DelegationCreated,
            Some(EventValue::Address(delegator.clone())),
            vec![
                EventValue::Address(delegate.clone()),
                EventValue::Text(claim_type.clone()),
                EventValue::OptU64(expiration),
            ],
        )
    }

    /// Emitted when an issuer revokes a delegation.
    pub fn delegation_revoked(delegator: &Address, delegate: &Address, claim_type: &String) -> (e: Event)
        ensures
            emits_tuple(e, EventTopic::DelegationRevoked, Some(EventValue::Address(*delegator)), seq![EventValue::Address(*delegate), EventValue::Text(*claim_type)]),
    {
        tuple_event(
            EventTopic::DelegationRevoked,
            Some(EventValue::Address(delegator.clone())),
            vec![
                EventValue::Address(delegate.clone()),
                EventValue::Text(claim_type.clone()),
            ],
        )
    }

    /// Emitted when whitelist mode is enabled for an issuer.
    pub fn whitelist_mode_enabled(issuer: &Address) -> (e: Event)
        ensures
            emits_unit(e, EventTopic::WhitelistOn, Some(EventValue::Address(*issuer))),
    {
        Event { topic: EventTopic::WhitelistOn, scope: Some(EventValue::Address(issuer.clone())), data: EventData::Unit }
    }

    /// Emitted when a subject is added to (`added`) or removed from an
    /// issuer's whitelist.
    pub fn whitelist_updated(issuer: &Address, subject: &Address, added: bool) -> (e: Event)
        ensures
            emits_single(
                e,
                if added {
                    EventTopic::WhitelistAdded
                } else {
                    EventTopic::WhitelistRemoved
                },
                Some(EventValue::Address(*issuer)),
                EventValue::Address(*subject),
            ),
    {
        let topic = if added {
            EventTopic::WhitelistAdded
        } else {
            EventTopic::WhitelistRemoved
        };
        single_event(topic, Some(EventValue::Address(issuer.clone())), EventValue::Address(subject.clone()))
    }
}

} // verus!
