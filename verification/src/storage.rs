//! Storage helpers: the key layout of the contract's ledger entries and what
//! each helper computes from the entries it reads.
//!
//! Every helper here takes the values that were read from the ledger (an
//! absent entry is `None`) and returns what is to be written back, or the
//! answer to the query. The instance tier holds the admin council, version,
//! fee, TTL and rate-limit configuration, the paused flag, the proposal
//! counter, global stats and limits; the persistent tier holds everything
//! else. Each write refreshes the entry's TTL to [`get_ttl_lifetime`] ledgers.

use vstd::prelude::*;
use crate::types::{
    Address, Attestation, AttestationRequest, AuditEntry, ClaimTypeInfo, Endorsement, Error,
    GlobalStats, IssuerStats, MultiSigProposal, StorageLimits, TtlConfig,
};

verus! {

/// Number of ledgers closed per day (one ledger every five seconds).
pub const DAY_IN_LEDGERS: u32 = 17280;

/// Lifetime of an entry, in days, when no TTL configuration is stored.
pub const DEFAULT_TTL_DAYS: u32 = 30;

/// Lifetime of an entry, in ledgers, when no TTL configuration is stored.
pub const DEFAULT_INSTANCE_LIFETIME: u32 = 518400;

/// Keys used to address data in contract storage.
#[derive(Debug)]
pub enum StorageKey {
    /// The single contract administrator (superseded by the council).
    Admin,
    /// The list of admin addresses.
    AdminCouncil,
    /// Version string set at initialization.
    Version,
    /// Global attestation fee settings.
    FeeConfig,
    /// TTL configuration, in days.
    TtlConfig,
    /// Presence flag for a registered issuer.
    Issuer(Address),
    /// Presence flag for a registered bridge contract.
    Bridge(Address),
    /// Full attestation record keyed by its ID.
    Attestation(String),
    /// Ordered list of attestation IDs for a subject.
    SubjectAttestations(Address),
    /// Ordered list of attestation IDs created by an issuer.
    IssuerAttestations(Address),
    /// Optional metadata of a registered issuer.
    IssuerMetadata(Address),
    /// Info for a registered claim type.
    ClaimType(String),
    /// Ordered list of registered claim type identifiers.
    ClaimTypeList,
    /// Whether whitelist mode is enabled for an issuer.
    IssuerWhitelistMode(Address),
    /// Whether a subject is whitelisted by an issuer.
    IssuerWhitelist(Address, Address),
    /// Storage exhaustion limits.
    Limits,
    /// A council proposal by number.
    CouncilProposal(u32),
    /// Number of the last council proposal.
    ProposalCounter,
    /// The contract paused flag.
    Paused,
    /// Running counters over the whole contract.
    GlobalStats,
    /// Running counters of one issuer.
    IssuerStats(Address),
    /// Trust tier of one issuer.
    IssuerTier(Address),
    /// Audit log of one attestation.
    AuditLog(String),
    /// Endorsements of one attestation.
    Endorsements(String),
    /// Expiration hook registered by a subject.
    ExpirationHook(Address),
    /// A multi-signature proposal by ID.
    MultiSigProposal(String),
    /// An attestation request by ID.
    AttestationRequest(String),
    /// IDs of the requests pending with an issuer.
    PendingRequests(Address),
    /// Rate-limit configuration.
    RateLimitConfig,
    /// Time of an issuer's last issuance.
    LastIssuanceTime(Address),
    /// Delegation from a delegator to a delegate for a claim type.
    Delegation(Address, Address, String),
}

/// The storage tier of an entry.
#[derive(Clone, Copy, Debug, PartialEq, Eq, Structural)]
pub enum Tier {
    /// Stored with the contract instance.
    Instance,
    /// Stored as an entry of its own.
    Persistent,
}

/// The tier an entry lives in: the administrator, version, fee
/// configuration and global stats with the instance, everything else
/// persistent.
pub open spec fn key_tier(key: StorageKey) -> Tier {
    match key {
        StorageKey::Admin | StorageKey::Version | StorageKey::FeeConfig
        | StorageKey::GlobalStats => Tier::Instance,
        _ => Tier::Persistent,
    }
}

impl StorageKey {
    /// The tier in which the entry under this key is stored.
    pub fn tier(&self) -> (t: Tier)
        ensures
            t == key_tier(*self),
    {
        match self {
            StorageKey::Admin | StorageKey::Version | StorageKey::FeeConfig
            | StorageKey::GlobalStats => Tier::Instance,
            _ => Tier::Persistent,
        }
    }
}

/// The lifetime in ledgers that `config` asks for: the configured number of
/// days, or the default of thirty days when none is configured.
pub open spec fn ttl_lifetime(config: Option<TtlConfig>) -> int {
    match config {
        Some(c) => DAY_IN_LEDGERS * c.ttl_days,
        None => DAY_IN_LEDGERS * DEFAULT_TTL_DAYS,
    }
}

/// The TTL in ledgers for the configured number of days, given the stored
/// TTL configuration, if any.
pub fn get_ttl_lifetime(config: Option<TtlConfig>) -> (ttl: u32)
    requires
        ttl_lifetime(config) <= u32::MAX,
    ensures
        ttl == ttl_lifetime(config),
{
    match config {
        Some(c) => DAY_IN_LEDGERS * c.ttl_days,
        None => DEFAULT_INSTANCE_LIFETIME,
    }
}

/// The list that a stored entry holds; an absent entry holds an empty list.
pub open spec fn list_of<T>(stored: Option<Vec<T>>) -> Seq<T> {
    match stored {
        Some(c) => c@,
        None => Seq::empty(),
    }
}

/// `s` holds an element whose view is `v`.
pub open spec fn has_view<T: View>(s: Seq<T>, v: T::V) -> bool {
    exists|i: int| 0 <= i < s.len() && #[trigger] s[i]@ == v
}

/// No two elements of `s` have the same view.
pub open spec fn distinct_views<T: View>(s: Seq<T>) -> bool {
    forall|i: int, j: int|
        0 <= i < s.len() && 0 <= j < s.len() && i != j ==> #[trigger] s[i]@ != #[trigger] s[j]@
}

/// `s` with every element whose view is `v` taken out; the others keep
/// their order.
pub open spec fn without_view<T: View>(s: Seq<T>, v: T::V) -> Seq<T> {
    s.filter(|m: T| m@ != v)
}

/// `a + b`, or `u64::MAX` when the sum does not fit.
pub open spec fn add_saturating(a: u64, b: u64) -> u64 {
    if a + b > u64::MAX {
        u64::MAX
    } else {
        (a + b) as u64
    }
}

/// `a - b`, or zero when `b` exceeds `a`.
pub open spec fn sub_saturating(a: u64, b: u64) -> u64 {
    if a < b {
        0
    } else {
        (a - b) as u64
    }
}

/// Counters that hold when none are stored: all zero.
pub open spec fn stats_of(stored: Option<GlobalStats>) -> GlobalStats {
    match stored {
        Some(s) => s,
        None => GlobalStats { total_attestations: 0, total_revocations: 0, total_issuers: 0 },
    }
}

/// The stored list, or an empty one when the entry is absent.
fn list_or_empty<T>(stored: Option<Vec<T>>) -> (r: Vec<T>)
    ensures
        r@ == list_of(stored),
{
    match stored {
        Some(v) => v,
        None => Vec::new(),
    }
}

/// `ids` without the identifiers spelled like `id`, order kept.
fn strings_without(ids: &Vec<String>, id: &String) -> (r: Vec<String>)
    ensures
        r@ == without_view(ids@, id@),
{
    let mut updated: Vec<String> = Vec::new();
    let mut i: usize = 0;
    while i < ids.len()
        invariant
            i <= ids.len(),
            updated@ == without_view(ids@.take(i as int), id@),
        decreases ids.len() - i,
    {
        assert(without_view(ids@.take(i + 1), id@) == if ids@[i as int]@ != id@ {
            without_view(ids@.take(i as int), id@).push(ids@[i as int])
        } else {
            without_view(ids@.take(i as int), id@)
        }) by {
            reveal_with_fuel(Seq::<_>::filter, 1);
            assert(ids@.take(i + 1).drop_last() =~= ids@.take(i as int));
        }
        if !(ids[i] == *id) {
            updated.push(ids[i].clone());
        }
        i = i + 1;
    }
    assert(ids@.take(ids@.len() as int) =~= ids@);
    updated
}

/// The council after `admin` is admitted: unchanged when an address spelled
/// like `admin` is already a member, otherwise `admin` appended.
pub open spec fn council_with(council: Seq<Address>, admin: Address) -> Seq<Address> {
    if has_view(council, admin@) {
        council
    } else {
        council.push(admin)
    }
}

/// The entry that stands after a helper returned `written`: the written
/// value, or the stored one when nothing was written.
pub open spec fn standing<T>(stored: Option<Vec<T>>, written: Option<Vec<T>>) -> Seq<T> {
    match written {
        Some(w) => w@,
        None => list_of(stored),
    }
}

/// The claim type list after `claim_type` is registered: unchanged when it
/// was registered already, otherwise the new ID appended.
pub open spec fn claim_list_with(
    already_registered: bool,
    list: Seq<String>,
    claim_type: String,
) -> Seq<String> {
    if already_registered {
        list
    } else {
        list.push(claim_type)
    }
}

/// Low-level storage operations for TrustLink state.
pub struct Storage;

impl Storage {
    /// `true` if the admin council is stored and has at least one member.
    pub fn has_admin(stored: &Option<Vec<Address>>) -> (r: bool)
        ensures
            r == (stored is Some && list_of(*stored).len() > 0),
    {
        match stored {
            Some(council) => council.len() > 0,
            None => false,
        }
    }

    /// The council to store when a single `admin` is set: that admin alone.
    pub fn set_admin(admin: &Address) -> (council: Vec<Address>)
        ensures
            council@ == seq![*admin],
    {
        let mut council = Vec::new();
        council.push(admin.clone());
        council
    }

    /// The stored admin council.
    ///
    /// # Errors
    /// - [`Error::NotInitialized`] if the council entry is absent.
    pub fn get_admin_council(stored: Option<Vec<Address>>) -> (r: Result<Vec<Address>, Error>)
        ensures
            stored is None ==> r == Err::<Vec<Address>, Error>(Error::NotInitialized),
            stored is Some ==> r is Ok && r->Ok_0@ == list_of(stored),
    {
        match stored {
            Some(c) => Ok(c),
            None => Err(Error::NotInitialized),
        }
    }

    /// `true` if `address` is a member of the stored council.
    pub fn is_admin(stored: &Option<Vec<Address>>, address: &Address) -> (r: bool)
        ensures
            r == has_view(list_of(*stored), address@),
    {
        match stored {
            Some(council) => Self::council_contains(council, address),
            None => false,
        }
    }

    fn council_contains(council: &Vec<Address>, address: &Address) -> (r: bool)
        ensures
            r == has_view(council@, address@),
    {
        let mut i: usize = 0;
        while i < council.len()
            invariant
                i <= council.len(),
                forall|j: int| 0 <= j < i ==> #[trigger] council@[j]@ != address@,
            decreases council.len() - i,
        {
            if council[i] == *address {
                return true;
            }
            i = i + 1;
        }
        false
    }

    /// The council to store after adding `admin`, or `None` when `admin` is
    /// already a member and nothing is to be written.
    pub fn add_admin(stored: Option<Vec<Address>>, admin: &Address) -> (r: Option<Vec<Address>>)
        ensures
            has_view(list_of(stored), admin@) ==> r is None,
            !has_view(list_of(stored), admin@) ==> r is Some && r->0@ == list_of(
                stored,
            ).push(*admin),
            standing(stored, r) == council_with(list_of(stored), *admin),
    {
        let mut council = match stored {
            Some(c) => c,
            None => Vec::new(),
        };
        if Self::council_contains(&council, admin) {
            None
        } else {
            council.push(admin.clone());
            Some(council)
        }
    }

    /// The council to store after removing `admin`, or `None` when `admin` is
    /// not a member and nothing is to be written.
    pub fn remove_admin(stored: Option<Vec<Address>>, admin: &Address) -> (r: Option<Vec<Address>>)
        ensures
            !has_view(list_of(stored), admin@) ==> r is None,
            has_view(list_of(stored), admin@) ==> r is Some && r->0@ == without_view(
                list_of(stored),
                admin@,
            ),
            standing(stored, r) == without_view(list_of(stored), admin@),
    {
        let council = match stored {
            Some(c) => c,
            None => Vec::new(),
        };
        let mut new_council: Vec<Address> = Vec::new();
        let mut found = false;
        let mut i: usize = 0;
        while i < council.len()
            invariant
                i <= council.len(),
                council@ == list_of(stored),
                new_council@ == without_view(council@.take(i as int), admin@),
                found == has_view(council@.take(i as int), admin@),
                !found ==> new_council@ == council@.take(i as int),
            decreases council.len() - i,
        {
            assert(without_view(council@.take(i + 1), admin@) == if council@[i as int]@ != admin@ {
                without_view(council@.take(i as int), admin@).push(council@[i as int])
            } else {
                without_view(council@.take(i as int), admin@)
            }) by {
                reveal_with_fuel(Seq::<_>::filter, 1);
                assert(council@.take(i + 1).drop_last() =~= council@.take(i as int));
            }
            let a = &council[i];
            if !(*a == *admin) {
                new_council.push(a.clone());
            } else {
                found = true;
                assert(council@.take(i + 1)[i as int]@ == admin@);
            }
            proof {
                if has_view(council@.take(i + 1), admin@) {
                    let k = choose|k: int|
                        0 <= k < i + 1 && #[trigger] council@.take(i + 1)[k]@ == admin@;
                    if k < i {
                        assert(council@.take(i as int)[k]@ == admin@);
                    }
                }
                if has_view(council@.take(i as int), admin@) {
                    let k = choose|k: int|
                        0 <= k < i && #[trigger] council@.take(i as int)[k]@ == admin@;
                    assert(council@.take(i + 1)[k]@ == admin@);
                }
            }
            i = i + 1;
        }
        assert(council@.take(council@.len() as int) =~= council@);
        if found {
            Some(new_council)
        } else {
            None
        }
    }

    /// The primary admin: the first member of the stored council.
    ///
    /// # Errors
    /// - [`Error::NotInitialized`] if the council is absent or empty.
    pub fn get_admin(stored: Option<Vec<Address>>) -> (r: Result<Address, Error>)
        ensures
            list_of(stored).len() == 0 ==> r == Err::<Address, Error>(Error::NotInitialized),
            list_of(stored).len() > 0 ==> r == Ok::<Address, Error>(list_of(stored)[0]),
    {
        let council = Self::get_admin_council(stored)?;
        if council.len() > 0 {
            Ok(council[0].clone())
        } else {
            Err(Error::NotInitialized)
        }
    }

    /// The stored attestation record.
    ///
    /// # Errors
    /// - [`Error::NotFound`] — no attestation is stored under the ID.
    pub fn get_attestation(stored: Option<Attestation>) -> (r: Result<Attestation, Error>)
        ensures
            stored is None ==> r == Err::<Attestation, Error>(Error::NotFound),
            stored is Some ==> r == Ok::<Attestation, Error>(stored->0),
    {
        match stored {
            Some(a) => Ok(a),
            None => Err(Error::NotFound),
        }
    }

    /// The ordered list of attestation IDs of a subject; empty if none.
    pub fn get_subject_attestations(stored: Option<Vec<String>>) -> (ids: Vec<String>)
        ensures
            ids@ == list_of(stored),
    {
        list_or_empty(stored)
    }

    /// The subject's index after appending `attestation_id` to it.
    pub fn add_subject_attestation(stored: Option<Vec<String>>, attestation_id: &String) -> (ids:
        Vec<String>)
        ensures
            ids@ == list_of(stored).push(*attestation_id),
    {
        let mut ids = list_or_empty(stored);
        ids.push(attestation_id.clone());
        ids
    }

    /// The subject's index after removing every occurrence of
    /// `attestation_id`; the other IDs keep their order.
    pub fn remove_subject_attestation(stored: Option<Vec<String>>, attestation_id: &String) -> (ids:
        Vec<String>)
        ensures
            ids@ == without_view(list_of(stored), attestation_id@),
    {
        let existing = list_or_empty(stored);
        strings_without(&existing, attestation_id)
    }

    /// The ordered list of attestation IDs created by an issuer; empty if none.
    pub fn get_issuer_attestations(stored: Option<Vec<String>>) -> (ids: Vec<String>)
        ensures
            ids@ == list_of(stored),
    {
        list_or_empty(stored)
    }

    /// The issuer's index after removing every occurrence of
    /// `attestation_id`; the other IDs keep their order. The attestation
    /// record itself is not touched: only the issuer's listing shrinks.
    pub fn add_issuer_attestation(stored: Option<Vec<String>>, attestation_id: &String) -> (ids:
        Vec<String>)
        ensures
            ids@ == without_view(list_of(stored), attestation_id@),
    {
        let existing = list_or_empty(stored);
        strings_without(&existing, attestation_id)
    }

    /// The list of claim type IDs to store when `info` is stored: the old
    /// list with the new ID appended if the claim type was not registered
    /// yet, or `None` when it was and the list stays as it is.
    pub fn set_claim_type(
        already_registered: bool,
        stored_list: Option<Vec<String>>,
        info: &ClaimTypeInfo,
    ) -> (r: Option<Vec<String>>)
        ensures
            already_registered ==> r is None,
            !already_registered ==> r is Some && r->0@ == list_of(stored_list).push(
                info.claim_type,
            ),
            standing(stored_list, r) == claim_list_with(
                already_registered,
                list_of(stored_list),
                info.claim_type,
            ),
    {
        let is_new = !already_registered;
        if is_new {
            let mut list = list_or_empty(stored_list);
            list.push(info.claim_type.clone());
            Some(list)
        } else {
            None
        }
    }

    /// The ordered list of registered claim type IDs; empty if none.
    pub fn get_claim_type_list(stored: Option<Vec<String>>) -> (ids: Vec<String>)
        ensures
            ids@ == list_of(stored),
    {
        list_or_empty(stored)
    }

    /// The number of the next council proposal, one past the stored counter
    /// (zero when none is stored); it is also the counter to store.
    pub fn next_proposal_id(current: Option<u32>) -> (next: u32)
        requires
            current matches Some(c) ==> c < u32::MAX,
        ensures
            current is None ==> next == 1,
            current matches Some(c) ==> next == c + 1,
    {
        let current: u32 = match current {
            Some(c) => c,
            None => 0,
        };
        current + 1
    }

    /// `true` if the contract is paused; not paused when no flag is stored.
    pub fn is_paused(stored: Option<bool>) -> (paused: bool)
        ensures
            paused == (stored == Some(true)),
    {
        match stored {
            Some(p) => p,
            None => false,
        }
    }

    /// `true` if whitelist mode is enabled for an issuer; off when no flag
    /// is stored.
    pub fn is_whitelist_mode(stored: Option<bool>) -> (enabled: bool)
        ensures
            enabled == (stored == Some(true)),
    {
        match stored {
            Some(e) => e,
            None => false,
        }
    }

    /// The stored global counters, all zero when none are stored.
    pub fn get_global_stats(stored: Option<GlobalStats>) -> (stats: GlobalStats)
        ensures
            stats == stats_of(stored),
    {
        match stored {
            Some(s) => s,
            None => GlobalStats { total_attestations: 0, total_revocations: 0, total_issuers: 0 },
        }
    }

    /// The global counters after counting `count` more attestations,
    /// saturating at `u64::MAX`.
    pub fn increment_total_attestations(stored: Option<GlobalStats>, count: u64) -> (stats:
        GlobalStats)
        ensures
            stats == (GlobalStats {
                total_attestations: add_saturating(stats_of(stored).total_attestations, count),
                ..stats_of(stored)
            }),
    {
        let mut stats = Self::get_global_stats(stored);
        stats.total_attestations = stats.total_attestations.saturating_add(count);
        stats
    }

    /// The global counters after counting `count` more revocations,
    /// saturating at `u64::MAX`.
    pub fn increment_total_revocations(stored: Option<GlobalStats>, count: u64) -> (stats:
        GlobalStats)
        ensures
            stats == (GlobalStats {
                total_revocations: add_saturating(stats_of(stored).total_revocations, count),
                ..stats_of(stored)
            }),
    {
        let mut stats = Self::get_global_stats(stored);
        stats.total_revocations = stats.total_revocations.saturating_add(count);
        stats
    }

    /// The global counters after counting one more issuer, saturating.
    pub fn increment_total_issuers(stored: Option<GlobalStats>) -> (stats: GlobalStats)
        ensures
            stats == (GlobalStats {
                total_issuers: add_saturating(stats_of(stored).total_issuers, 1),
                ..stats_of(stored)
            }),
    {
        let mut stats = Self::get_global_stats(stored);
        stats.total_issuers = stats.total_issuers.saturating_add(1);
        stats
    }

    /// The global counters after counting one issuer fewer, never below zero.
    pub fn decrement_total_issuers(stored: Option<GlobalStats>) -> (stats: GlobalStats)
        ensures
            stats == (GlobalStats {
                total_issuers: sub_saturating(stats_of(stored).total_issuers, 1),
                ..stats_of(stored)
            }),
    {
        let mut stats = Self::get_global_stats(stored);
        stats.total_issuers = stats.total_issuers.saturating_sub(1);
        stats
    }

    /// The stored counters of an issuer, zero when none are stored.
    pub fn get_issuer_stats(stored: Option<IssuerStats>) -> (stats: IssuerStats)
        ensures
            stored matches Some(s) ==> stats == s,
            stored is None ==> stats.total_issued == 0,
    {
        match stored {
            Some(s) => s,
            None => IssuerStats { total_issued: 0 },
        }
    }

    /// The stored storage limits, or the default limits when none are stored.
    pub fn get_limits(stored: Option<StorageLimits>) -> (limits: StorageLimits)
        ensures
            stored matches Some(l) ==> limits == l,
            stored is None ==> limits == (StorageLimits {
                max_attestations_per_issuer: 10_000,
                max_attestations_per_subject: 100,
            }),
    {
        match stored {
            Some(l) => l,
            None => StorageLimits::default(),
        }
    }

    /// The audit log of an attestation; empty if none.
    pub fn get_audit_log(stored: Option<Vec<AuditEntry>>) -> (log: Vec<AuditEntry>)
        ensures
            log@ == list_of(stored),
    {
        list_or_empty(stored)
    }

    /// The audit log after appending `entry` to it.
    pub fn append_audit_entry(stored: Option<Vec<AuditEntry>>, entry: &AuditEntry) -> (log: Vec<
        AuditEntry,
    >)
        ensures
            log@ == list_of(stored).push(*entry),
    {
        let mut log = Self::get_audit_log(stored);
        log.push(entry.clone());
        log
    }

    /// The endorsements of an attestation, in order; empty if none.
    pub fn get_endorsements(stored: Option<Vec<Endorsement>>) -> (list: Vec<Endorsement>)
        ensures
            list@ == list_of(stored),
    {
        list_or_empty(stored)
    }

    /// The endorsements after appending `endorsement` to them.
    pub fn add_endorsement(stored: Option<Vec<Endorsement>>, endorsement: &Endorsement) -> (list:
        Vec<Endorsement>)
        ensures
            list@ == list_of(stored).push(*endorsement),
    {
        let mut list = Self::get_endorsements(stored);
        list.push(endorsement.clone());
        list
    }

    /// The stored multi-signature proposal.
    ///
    /// # Errors
    /// - [`Error::NotFound`] — no proposal is stored under the ID.
    pub fn get_multisig_proposal(stored: Option<MultiSigProposal>) -> (r: Result<
        MultiSigProposal,
        Error,
    >)
        ensures
            stored is None ==> r == Err::<MultiSigProposal, Error>(Error::NotFound),
            stored is Some ==> r == Ok::<MultiSigProposal, Error>(stored->0),
    {
        match stored {
            Some(p) => Ok(p),
            None => Err(Error::NotFound),
        }
    }

    /// The stored attestation request.
    ///
    /// # Errors
    /// - [`Error::NotFound`] — no request is stored under the ID.
    pub fn get_attestation_request(stored: Option<AttestationRequest>) -> (r: Result<
        AttestationRequest,
        Error,
    >)
        ensures
            stored is None ==> r == Err::<AttestationRequest, Error>(Error::NotFound),
            stored is Some ==> r == Ok::<AttestationRequest, Error>(stored->0),
    {
        match stored {
            Some(q) => Ok(q),
            None => Err(Error::NotFound),
        }
    }

    /// The IDs of the requests pending with an issuer; empty if none.
    pub fn get_pending_requests(stored: Option<Vec<String>>) -> (ids: Vec<String>)
        ensures
            ids@ == list_of(stored),
    {
        list_or_empty(stored)
    }

    /// The pending requests after appending `request_id` to them.
    pub fn add_pending_request(stored: Option<Vec<String>>, request_id: &String) -> (ids: Vec<
        String,
    >)
        ensures
            ids@ == list_of(stored).push(*request_id),
    {
        let mut ids = list_or_empty(stored);
        ids.push(request_id.clone());
        ids
    }

    /// The pending requests after removing every occurrence of `request_id`;
    /// the other IDs keep their order.
    pub fn remove_pending_request(stored: Option<Vec<String>>, request_id: &String) -> (ids: Vec<
        String,
    >)
        ensures
            ids@ == without_view(list_of(stored), request_id@),
    {
        let existing = list_or_empty(stored);
        strings_without(&existing, request_id)
    }
}

/// One past the last position of the page that starts at `start` and holds
/// at most `limit` items of a list of `len` items.
pub open spec fn page_end(len: nat, start: u32, limit: u32) -> int {
    let want: int = if start + limit > u32::MAX {
        u32::MAX as int
    } else {
        start + limit
    };
    if len < want {
        len as int
    } else {
        want
    }
}

/// The page of `items` that starts at `start` and holds at most `limit`
/// items: empty when `limit` is zero or `start` lies past the end.
pub open spec fn page<T>(items: Seq<T>, start: u32, limit: u32) -> Seq<T> {
    if limit == 0 || start >= items.len() {
        Seq::empty()
    } else {
        items.subrange(start as int, page_end(items.len(), start, limit))
    }
}

/// The slice of `items` starting at `start` with at most `limit` elements;
/// empty when `start >= items.len()` or `limit == 0`.
pub fn paginate<T: Clone>(items: &Vec<T>, start: u32, limit: u32) -> (result: Vec<T>)
    ensures
        result@.len() == page(items@, start, limit).len(),
        forall|i: int|
            0 <= i < result@.len() ==> cloned::<T>(page(items@, start, limit)[i], #[trigger] result@[i]),
{
    let mut result: Vec<T> = Vec::new();
    if limit == 0 {
        return result;
    }
    let len = items.len();
    if start as usize >= len {
        return result;
    }
    let want = start.saturating_add(limit) as usize;
    let end = if len < want {
        len
    } else {
        want
    };
    let ghost expected = page(items@, start, limit);
    assert(end == page_end(items@.len(), start, limit));
    let mut i: usize = start as usize;
    while i < end
        invariant
            start <= i <= end <= items@.len(),
            end == page_end(items@.len(), start, limit),
            expected == items@.subrange(start as int, end as int),
            result@.len() == i - start,
            forall|k: int|
                0 <= k < result@.len() ==> cloned::<T>(expected[k], #[trigger] result@[k]),
        decreases end - i,
    {
        let item = items[i].clone();
        result.push(item);
        i = i + 1;
    }
    result
}

} // verus!
