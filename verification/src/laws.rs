//! Laws of the storage helpers, the event builders and the shared types:
//! properties that hold across calls or of every state.

use vstd::prelude::*;
use crate::storage::{
    key_tier, standing, stats_of, StorageKey, Tier, add_saturating, claim_list_with, council_with, distinct_views, has_view, list_of, page,
    page_end, sub_saturating, ttl_lifetime, without_view, DAY_IN_LEDGERS,
    DEFAULT_INSTANCE_LIFETIME,
};
use crate::events::{
    bridged_fields, emits_single, emits_tuple, emits_unit, topic_symbol, Event, EventData,
    EventTopic, EventValue,
};
use crate::ids::{
    address_xdr, attestation_payload, bridge_payload, is_address_key, multisig_payload,
    request_payload, string_xdr, strkey_kind, u64_xdr, StrkeyKind,
};
use crate::types::{
    GlobalStats, IssuerTier, digest_id, hex_digit, status_at, Address, Attestation, AttestationStatus, TtlConfig,
};

verus! {

/// One step of `without_view`: the last element stays exactly when its view
/// differs from `v`.
proof fn lemma_without_view_step<T: View>(s: Seq<T>, v: T::V)
    requires
        s.len() > 0,
    ensures
        without_view(s, v) == if s.last()@ != v {
            without_view(s.drop_last(), v).push(s.last())
        } else {
            without_view(s.drop_last(), v)
        },
{
    reveal_with_fuel(Seq::<_>::filter, 1);
}

/// After every element viewed as `v` is taken out of `s`, the views left are
/// exactly those of `s` other than `v`.
proof fn lemma_without_view_members<T: View>(s: Seq<T>, v: T::V, x: T::V)
    ensures
        has_view(without_view(s, v), x) == (has_view(s, x) && x != v),
    decreases s.len(),
{
    if s.len() == 0 {
        reveal_with_fuel(Seq::<_>::filter, 1);
    } else {
        let d = s.drop_last();
        lemma_without_view_step(s, v);
        lemma_without_view_members(d, v, x);
        let w = without_view(s, v);
        let wd = without_view(d, v);
        if has_view(w, x) {
            let k = choose|k: int| 0 <= k < w.len() && #[trigger] w[k]@ == x;
            if k < wd.len() {
                assert(wd[k]@ == x);
                let j = choose|j: int| 0 <= j < d.len() && #[trigger] d[j]@ == x;
                assert(s[j]@ == x);
            } else {
                assert(s[s.len() - 1]@ == x);
            }
        }
        if has_view(s, x) && x != v {
            let j = choose|j: int| 0 <= j < s.len() && #[trigger] s[j]@ == x;
            if j < d.len() {
                assert(d[j]@ == x);
                let k = choose|k: int| 0 <= k < wd.len() && #[trigger] wd[k]@ == x;
                assert(w[k]@ == x);
            } else {
                assert(w[w.len() - 1]@ == x);
            }
        }
    }
}

/// Taking out a view that no element has leaves the sequence as it was.
proof fn lemma_without_absent_view<T: View>(s: Seq<T>, v: T::V)
    requires
        !has_view(s, v),
    ensures
        without_view(s, v) == s,
    decreases s.len(),
{
    if s.len() == 0 {
        reveal_with_fuel(Seq::<_>::filter, 1);
    } else {
        let d = s.drop_last();
        lemma_without_view_step(s, v);
        assert(!has_view(d, v)) by {
            if has_view(d, v) {
                let j = choose|j: int| 0 <= j < d.len() && #[trigger] d[j]@ == v;
                assert(s[j]@ == v);
            }
        }
        lemma_without_absent_view(d, v);
        assert(s.last()@ != v) by {
            assert(s[s.len() - 1]@ == s.last()@);
        }
        assert(d.push(s.last()) =~= s);
    }
}

/// Taking elements out keeps distinct views distinct.
proof fn lemma_without_view_distinct<T: View>(s: Seq<T>, v: T::V)
    requires
        distinct_views(s),
    ensures
        distinct_views(without_view(s, v)),
    decreases s.len(),
{
    if s.len() > 0 {
        let d = s.drop_last();
        lemma_without_view_step(s, v);
        assert(distinct_views(d)) by {
            assert forall|i: int, j: int|
                0 <= i < d.len() && 0 <= j < d.len() && i != j implies #[trigger] d[i]@
                != #[trigger] d[j]@ by {
                assert(s[i]@ != s[j]@);
            }
        }
        lemma_without_view_distinct(d, v);
        let wd = without_view(d, v);
        if s.last()@ != v {
            lemma_without_view_members(d, v, s.last()@);
            assert(!has_view(d, s.last()@)) by {
                if has_view(d, s.last()@) {
                    let j = choose|j: int| 0 <= j < d.len() && #[trigger] d[j]@ == s.last()@;
                    assert(s[j]@ != s[s.len() - 1]@);
                }
            }
            let w = wd.push(s.last());
            assert forall|i: int, j: int|
                0 <= i < w.len() && 0 <= j < w.len() && i != j implies #[trigger] w[i]@
                != #[trigger] w[j]@ by {
                if i < wd.len() && j < wd.len() {
                    assert(wd[i]@ != wd[j]@);
                } else if i < wd.len() {
                    assert(wd[i]@ != s.last()@);
                } else {
                    assert(wd[j]@ != s.last()@);
                }
            }
        }
    }
}

// ── Admin council ─────────────────────────────────────────────────────────

/// After `add_admin`, the members of the council are those before and the
/// added admin: the added admin is an admin, and no one else's standing
/// changes.
pub proof fn law_add_admin_members(council: Seq<Address>, admin: Address, x: Seq<char>)
    ensures
        has_view(council_with(council, admin), x) == (has_view(council, x) || x == admin@),
{
    let after = council_with(council, admin);
    if !has_view(council, admin@) {
        if has_view(after, x) {
            let k = choose|k: int| 0 <= k < after.len() && #[trigger] after[k]@ == x;
            if k < council.len() {
                assert(council[k]@ == x);
            }
        }
        if has_view(council, x) {
            let j = choose|j: int| 0 <= j < council.len() && #[trigger] council[j]@ == x;
            assert(after[j]@ == x);
        }
        if x == admin@ {
            assert(after[council.len() as int]@ == x);
        }
    }
}

/// Adding an admin twice stores the same council as adding it once.
pub proof fn law_add_admin_idempotent(council: Seq<Address>, admin: Address)
    ensures
        council_with(council_with(council, admin), admin) == council_with(council, admin),
{
    law_add_admin_members(council, admin, admin@);
}

/// A council in which no address occurs twice keeps that property when an
/// admin is added.
pub proof fn law_add_admin_keeps_distinct(council: Seq<Address>, admin: Address)
    requires
        distinct_views(council),
    ensures
        distinct_views(council_with(council, admin)),
{
    if !has_view(council, admin@) {
        let after = council.push(admin);
        assert forall|i: int, j: int|
            0 <= i < after.len() && 0 <= j < after.len() && i != j implies #[trigger] after[i]@
            != #[trigger] after[j]@ by {
            if i < council.len() && j < council.len() {
                assert(council[i]@ != council[j]@);
            } else if i < council.len() {
                assert(council[i]@ != admin@);
            } else {
                assert(council[j]@ != admin@);
            }
        }
    }
}

/// After `remove_admin`, the removed admin is no admin, and every other
/// address is an admin exactly when it was one before.
pub proof fn law_remove_admin_members(council: Seq<Address>, admin: Seq<char>, x: Seq<char>)
    ensures
        has_view(without_view(council, admin), x) == (has_view(council, x) && x != admin),
{
    lemma_without_view_members(council, admin, x);
}

/// Removing an admin keeps a council free of repeated addresses.
pub proof fn law_remove_admin_keeps_distinct(council: Seq<Address>, admin: Seq<char>)
    requires
        distinct_views(council),
    ensures
        distinct_views(without_view(council, admin)),
{
    lemma_without_view_distinct(council, admin);
}

/// Removing an admin undoes adding it: the council stored after adding and
/// then removing an admin is the council stored after only removing it.
pub proof fn law_remove_admin_undoes_add(council: Seq<Address>, admin: Address)
    ensures
        without_view(council_with(council, admin), admin@) == without_view(council, admin@),
{
    if !has_view(council, admin@) {
        let after = council.push(admin);
        lemma_without_view_step(after, admin@);
        assert(after.drop_last() =~= council);
    }
}

/// Removing an admin who is not a member leaves the council as it was.
pub proof fn law_remove_absent_admin(council: Seq<Address>, admin: Seq<char>)
    requires
        !has_view(council, admin),
    ensures
        without_view(council, admin) == council,
{
    lemma_without_absent_view(council, admin);
}

/// The council that `set_admin` stores has `admin` as its primary admin,
/// and `admin` is an admin of it.
pub proof fn law_set_admin_then_get_admin(admin: Address)
    ensures
        seq![admin].len() > 0,
        seq![admin][0] == admin,
        has_view(seq![admin], admin@),
{
    assert(seq![admin][0]@ == admin@);
}

/// The primary admin of a council is one of its admins.
pub proof fn law_primary_admin_is_admin(council: Seq<Address>)
    requires
        council.len() > 0,
    ensures
        has_view(council, council[0]@),
{
}

// ── Attestation indexes and pending requests ──────────────────────────────

/// After an ID is removed from an index, the index holds the IDs it held
/// before except that one.
pub proof fn law_remove_id_members(ids: Seq<String>, id: Seq<char>, x: Seq<char>)
    ensures
        has_view(without_view(ids, id), x) == (has_view(ids, x) && x != id),
{
    lemma_without_view_members(ids, id, x);
}

/// Removing an ID that was just appended, and was not in the index before,
/// gives back the index as it was.
pub proof fn law_remove_id_undoes_add(ids: Seq<String>, id: String)
    requires
        !has_view(ids, id@),
    ensures
        without_view(ids.push(id), id@) == ids,
{
    let after = ids.push(id);
    lemma_without_view_step(after, id@);
    assert(after.drop_last() =~= ids);
    lemma_without_absent_view(ids, id@);
}

/// Lists only grow at the end: reading a list after an item was appended
/// gives the items read before, unchanged and in order, followed by the new
/// one. Audit logs, endorsements, subject indexes and pending requests
/// are all appended this way.
pub proof fn law_append_keeps_earlier<T>(stored: Option<Vec<T>>, written: Vec<T>, item: T)
    requires
        written@ == list_of(stored).push(item),
    ensures
        list_of(Some(written)).len() == list_of(stored).len() + 1,
        forall|i: int|
            0 <= i < list_of(stored).len() ==> #[trigger] list_of(Some(written))[i] == list_of(
                stored,
            )[i],
        list_of(Some(written)).last() == item,
{
}

// ── Claim type registry ───────────────────────────────────────────────────

/// The claim type list holds each registered claim type exactly once: if it
/// does before a claim type is stored, it does after, with the new claim
/// type among the registered ones.
pub proof fn law_claim_type_list_tracks_registry(
    registered: Set<Seq<char>>,
    list: Seq<String>,
    claim_type: String,
)
    requires
        distinct_views(list),
        forall|x: Seq<char>| has_view(list, x) == registered.contains(x),
    ensures
        ({
            let after = claim_list_with(registered.contains(claim_type@), list, claim_type);
            &&& distinct_views(after)
            &&& forall|x: Seq<char>|
                has_view(after, x) == registered.insert(claim_type@).contains(x)
        }),
{
    let after = claim_list_with(registered.contains(claim_type@), list, claim_type);
    if !registered.contains(claim_type@) {
        assert(!has_view(list, claim_type@));
        assert forall|i: int, j: int|
            0 <= i < after.len() && 0 <= j < after.len() && i != j implies #[trigger] after[i]@
            != #[trigger] after[j]@ by {
            if i < list.len() && j < list.len() {
                assert(list[i]@ != list[j]@);
            } else if i < list.len() {
                assert(list[i]@ != claim_type@);
            } else {
                assert(list[j]@ != claim_type@);
            }
        }
        assert forall|x: Seq<char>|
            has_view(after, x) == registered.insert(claim_type@).contains(x) by {
            if has_view(after, x) {
                let k = choose|k: int| 0 <= k < after.len() && #[trigger] after[k]@ == x;
                if k < list.len() {
                    assert(list[k]@ == x);
                }
            }
            if has_view(list, x) {
                let j = choose|j: int| 0 <= j < list.len() && #[trigger] list[j]@ == x;
                assert(after[j]@ == x);
            }
            if x == claim_type@ {
                assert(after[list.len() as int]@ == x);
            }
        }
    }
}

// ── Pagination ────────────────────────────────────────────────────────────

/// A page holds at most `limit` items, and they are the items of the list
/// from `start` on, in order.
pub proof fn law_page_is_slice<T>(items: Seq<T>, start: u32, limit: u32)
    ensures
        page(items, start, limit).len() <= limit,
        forall|i: int|
            0 <= i < page(items, start, limit).len() ==> start + i < items.len()
                && #[trigger] page(items, start, limit)[i] == items[start + i],
{
}

/// Two consecutive pages, of `a` items and then of `b` items, together are
/// the page of `a + b` items from the same start.
pub proof fn law_consecutive_pages<T>(items: Seq<T>, start: u32, a: u32, b: u32)
    requires
        start + a + b <= u32::MAX,
    ensures
        page(items, start, a) + page(items, (start + a) as u32, b) == page(
            items,
            start,
            (a + b) as u32,
        ),
{
    let first = page(items, start, a);
    let second = page(items, (start + a) as u32, b);
    let both = page(items, start, (a + b) as u32);
    assert(first + second =~= both);
}

/// What `paginate` returns for two consecutive pages, of `a` and then `b`
/// items, together is what it returns for the page of `a + b` items, for
/// item types whose clones equal the original (numbers, strings, addresses).
pub proof fn law_paginated_pages_concatenate<T: Clone>(
    items: Seq<T>,
    start: u32,
    a: u32,
    b: u32,
    first: Seq<T>,
    second: Seq<T>,
    both: Seq<T>,
)
    requires
        start + a + b <= u32::MAX,
        forall|x: T, y: T| #[trigger] cloned::<T>(x, y) ==> x == y,
        first.len() == page(items, start, a).len(),
        forall|i: int| 0 <= i < first.len() ==> cloned::<T>(page(items, start, a)[i], #[trigger] first[i]),
        second.len() == page(items, (start + a) as u32, b).len(),
        forall|i: int|
            0 <= i < second.len() ==> cloned::<T>(
                page(items, (start + a) as u32, b)[i],
                #[trigger] second[i],
            ),
        both.len() == page(items, start, (a + b) as u32).len(),
        forall|i: int|
            0 <= i < both.len() ==> cloned::<T>(
                page(items, start, (a + b) as u32)[i],
                #[trigger] both[i],
            ),
    ensures
        first + second == both,
{
    law_consecutive_pages(items, start, a, b);
    assert(first =~= page(items, start, a));
    assert(second =~= page(items, (start + a) as u32, b));
    assert(both =~= page(items, start, (a + b) as u32));
}

/// Paging from the start in steps of `limit` reaches every item: the item
/// at position `i` lies on the page that starts at `i - i % limit`.
pub proof fn law_pages_cover_items<T>(items: Seq<T>, limit: u32, i: u32)
    requires
        limit > 0,
        i < items.len(),
        items.len() <= u32::MAX,
    ensures
        ({
            let start = (i - i % limit) as u32;
            let p = page(items, start, limit);
            &&& i - start < p.len()
            &&& p[i - start] == items[i as int]
        }),
{
    assert(i % limit < limit && i % limit <= i) by (nonlinear_arith)
        requires
            limit > 0,
    ;
    let start = (i - i % limit) as u32;
    assert(page_end(items.len(), start, limit) > i);
}

/// An absent list reads as empty, a stored one as itself; after a helper
/// returns, the written list stands, or the stored one when nothing was
/// written.
pub proof fn law_list_entries<T>(stored: Option<Vec<T>>, written: Vec<T>)
    ensures
        list_of::<T>(None) == Seq::<T>::empty(),
        list_of(Some(written)) == written@,
        standing(stored, Some(written)) == written@,
        standing(stored, None) == list_of(stored),
{
}

/// Absent counters read as all zero; stored ones as themselves.
pub proof fn law_absent_stats_are_zero(stats: GlobalStats)
    ensures
        stats_of(None) == (GlobalStats {
            total_attestations: 0,
            total_revocations: 0,
            total_issuers: 0,
        }),
        stats_of(Some(stats)) == stats,
{
}

/// Only the administrator, version, fee configuration and global stats
/// live with the contract instance; every other entry is persistent.
pub proof fn law_key_tiers(key: StorageKey)
    ensures
        (key_tier(key) == Tier::Instance) == (key is Admin || key is Version || key is FeeConfig
            || key is GlobalStats),
        (key_tier(key) == Tier::Persistent) == !(key is Admin || key is Version
            || key is FeeConfig || key is GlobalStats),
{
}

// ── Entry lifetime ────────────────────────────────────────────────────────

/// Without a TTL configuration, entries live thirty days of ledgers; with
/// one, they live the configured number of days.
pub proof fn law_ttl_in_days(days: u32)
    ensures
        ttl_lifetime(None) == DEFAULT_INSTANCE_LIFETIME,
        DEFAULT_INSTANCE_LIFETIME == 30 * DAY_IN_LEDGERS,
        ttl_lifetime(Some(TtlConfig { ttl_days: days })) == days * DAY_IN_LEDGERS,
{
}

// ── Counters ──────────────────────────────────────────────────────────────

/// Counting an issuer and then uncounting one restores the issuer count,
/// unless the count was saturated.
pub proof fn law_issuer_count_round_trip(total: u64)
    requires
        total < u64::MAX,
    ensures
        sub_saturating(add_saturating(total, 1), 1) == total,
{
}

/// Uncounting an issuer and then counting one restores a positive count.
pub proof fn law_issuer_uncount_round_trip(total: u64)
    requires
        total > 0,
    ensures
        add_saturating(sub_saturating(total, 1), 1) == total,
{
}

/// Counters add and subtract exactly while the result fits, and stop at
/// `u64::MAX` and at zero.
pub proof fn law_counters_saturate(total: u64, count: u64)
    ensures
        total + count <= u64::MAX ==> add_saturating(total, count) == total + count,
        total + count > u64::MAX ==> add_saturating(total, count) == u64::MAX,
        count <= total ==> sub_saturating(total, count) == total - count,
        count > total ==> sub_saturating(total, count) == 0,
{
}

/// Counters never wrap around: counting more never lowers a counter, and
/// uncounting never raises it.
pub proof fn law_counters_monotone(total: u64, count: u64)
    ensures
        add_saturating(total, count) >= total,
        sub_saturating(total, count) <= total,
{
}

// ── Attestation status ────────────────────────────────────────────────────

/// An attestation is valid exactly when its validity period has begun, it
/// is not revoked, and it has not reached its expiration.
pub proof fn law_status_valid_iff(a: Attestation, now: u64)
    ensures
        (status_at(a, now) == AttestationStatus::Valid) == (!(a.valid_from matches Some(f)
            && now < f) && !a.revoked && !(a.expiration matches Some(x) && now >= x)),
{
}

/// A revoked attestation is never valid.
pub proof fn law_revoked_never_valid(a: Attestation, now: u64)
    requires
        a.revoked,
    ensures
        status_at(a, now) != AttestationStatus::Valid,
{
}

/// Expiry is permanent: an attestation expired at some time is expired at
/// every later time.
pub proof fn law_expiry_is_permanent(a: Attestation, now: u64, later: u64)
    requires
        status_at(a, now) == AttestationStatus::Expired,
        now <= later,
    ensures
        status_at(a, later) == AttestationStatus::Expired,
{
}

/// The status at a time is decided in this order: not yet valid before
/// `valid_from`; once valid, revoked if revoked, whatever the expiration;
/// otherwise expired from the expiration time on; otherwise valid.
pub proof fn law_status_cases(a: Attestation, now: u64)
    ensures
        (a.valid_from is Some && now < a.valid_from->0) ==> status_at(a, now)
            == AttestationStatus::Pending,
        (!(a.valid_from is Some && now < a.valid_from->0) && a.revoked) ==> status_at(a, now)
            == AttestationStatus::Revoked,
        (!(a.valid_from is Some && now < a.valid_from->0) && !a.revoked && a.expiration is Some
            && now >= a.expiration->0) ==> status_at(a, now) == AttestationStatus::Expired,
        (!(a.valid_from is Some && now < a.valid_from->0) && !a.revoked && !(a.expiration is Some
            && now >= a.expiration->0)) ==> status_at(a, now) == AttestationStatus::Valid,
{
}

/// Issuer tiers rank Basic 0, Verified 1, Premium 2.
pub proof fn law_tier_ranks()
    ensures
        IssuerTier::Basic.spec_rank() == 0,
        IssuerTier::Verified.spec_rank() == 1,
        IssuerTier::Premium.spec_rank() == 2,
{
}

// ── Identifiers ───────────────────────────────────────────────────────────

/// An identifier is 32 lowercase hexadecimal characters.
pub proof fn law_id_is_lowercase_hex(digest: Seq<u8>)
    requires
        digest.len() == 32,
    ensures
        digest_id(digest).len() == 32,
        forall|i: int|
            0 <= i < 32 ==> {
                let c = #[trigger] digest_id(digest)[i];
                ('0' <= c <= '9') || ('a' <= c <= 'f')
            },
{
    assert forall|i: int| 0 <= i < 32 implies {
        let c = #[trigger] digest_id(digest)[i];
        ('0' <= c <= '9') || ('a' <= c <= 'f')
    } by {
        let b = digest[i / 2];
        assert(b / 16 < 16 && b % 16 < 16);
    }
}

proof fn lemma_hex_digit_injective(m: u8, n: u8)
    requires
        m < 16,
        n < 16,
        hex_digit(m) == hex_digit(n),
    ensures
        m == n,
{
}

/// Character `2k` of an identifier is the lowercase hex digit of the high
/// nibble of digest byte `k`, and character `2k + 1` that of its low nibble.
pub proof fn law_id_spells_digest(digest: Seq<u8>, k: int)
    requires
        digest.len() == 32,
        0 <= k < 16,
    ensures
        digest_id(digest).len() == 32,
        digest_id(digest)[2 * k] == "0123456789abcdef"@[(digest[k] / 16) as int],
        digest_id(digest)[2 * k + 1] == "0123456789abcdef"@[(digest[k] % 16) as int],
{
    reveal_strlit("0123456789abcdef");
    assert((2 * k) / 2 == k && (2 * k) % 2 == 0);
    assert((2 * k + 1) / 2 == k && (2 * k + 1) % 2 == 1);
    let hi = digest[k] / 16;
    let lo = digest[k] % 16;
    assert(hi < 16 && lo < 16);
    assert(hex_digit(hi) == "0123456789abcdef"@[hi as int]);
    assert(hex_digit(lo) == "0123456789abcdef"@[lo as int]);
}

/// Two digests give the same identifier exactly when their first 16 bytes
/// agree.
pub proof fn law_id_determined_by_prefix(d1: Seq<u8>, d2: Seq<u8>)
    requires
        d1.len() == 32,
        d2.len() == 32,
    ensures
        (digest_id(d1) == digest_id(d2)) == (d1.take(16) == d2.take(16)),
{
    if digest_id(d1) == digest_id(d2) {
        assert forall|k: int| 0 <= k < 16 implies d1[k] == d2[k] by {
            assert(digest_id(d1)[2 * k] == digest_id(d2)[2 * k]);
            assert(digest_id(d1)[2 * k + 1] == digest_id(d2)[2 * k + 1]);
            assert((2 * k) / 2 == k && (2 * k) % 2 == 0);
            assert((2 * k + 1) / 2 == k && (2 * k + 1) % 2 == 1);
            lemma_hex_digit_injective(d1[k] / 16, d2[k] / 16);
            lemma_hex_digit_injective(d1[k] % 16, d2[k] % 16);
        }
        assert(d1.take(16) =~= d2.take(16));
    }
    if d1.take(16) == d2.take(16) {
        assert forall|k: int| 0 <= k < 16 implies d1[k] == d2[k] by {
            assert(d1.take(16)[k] == d2.take(16)[k]);
        }
        assert(digest_id(d1) =~= digest_id(d2));
    }
}

// ── Addresses ─────────────────────────────────────────────────────────────

/// Every host address is accepted for identifiers, account or contract: a
/// 56-character key that the strkey parser reads as an account key, or as a
/// contract key, is a valid key, and no other key is.
pub proof fn law_host_addresses_are_valid_keys(key: Seq<char>)
    ensures
        (key.len() == 56 && strkey_kind(key) == StrkeyKind::Account) ==> is_address_key(key),
        (key.len() == 56 && strkey_kind(key) == StrkeyKind::Contract) ==> is_address_key(key),
        is_address_key(key) ==> key.len() == 56 && (strkey_kind(key) == StrkeyKind::Account
            || strkey_kind(key) == StrkeyKind::Contract),
{
}

// ── Identifier payloads ───────────────────────────────────────────────────

/// Equal concatenations around the same prefix and suffix have equal
/// middles.
proof fn lemma_cancel_middle(p: Seq<u8>, x: Seq<u8>, y: Seq<u8>, q: Seq<u8>)
    requires
        p + x + q == p + y + q,
    ensures
        x == y,
{
    assert((p + x + q).len() == (p + y + q).len());
    assert((p + x).len() == p.len() + x.len());
    assert((p + y).len() == p.len() + y.len());
    assert((p + x + q).len() == (p + x).len() + q.len());
    assert((p + y + q).len() == (p + y).len() + q.len());
    assert(x =~= (p + x + q).subrange(p.len() as int, (p.len() + x.len()) as int));
    assert(y =~= (p + y + q).subrange(p.len() as int, (p.len() + y.len()) as int));
    assert(x.len() == y.len());
    assert(x =~= y);
}

/// The payload hashed into an attestation ID is the XDR encodings of
/// `issuer | subject | claim_type | timestamp`, in that order, and each field counts: two payloads that
/// differ in one field alone are equal only if that field's encodings are.
pub proof fn law_attestation_payload_fields(issuer: Seq<char>, issuer2: Seq<char>, subject: Seq<char>, subject2: Seq<char>, claim_type: Seq<char>, claim_type2: Seq<char>, timestamp: u64, timestamp2: u64)
    ensures
        attestation_payload(issuer, subject, claim_type, timestamp) == address_xdr(issuer) + address_xdr(subject) + string_xdr(claim_type) + u64_xdr(timestamp),
        attestation_payload(issuer, subject, claim_type, timestamp) == attestation_payload(issuer2, subject, claim_type, timestamp) ==> address_xdr(issuer) == address_xdr(issuer2),
        attestation_payload(issuer, subject, claim_type, timestamp) == attestation_payload(issuer, subject2, claim_type, timestamp) ==> address_xdr(subject) == address_xdr(subject2),
        attestation_payload(issuer, subject, claim_type, timestamp) == attestation_payload(issuer, subject, claim_type2, timestamp) ==> string_xdr(claim_type) == string_xdr(claim_type2),
        attestation_payload(issuer, subject, claim_type, timestamp) == attestation_payload(issuer, subject, claim_type, timestamp2) ==> u64_xdr(timestamp) == u64_xdr(timestamp2),
{
    assert(attestation_payload(issuer, subject, claim_type, timestamp) =~= address_xdr(issuer) + address_xdr(subject) + string_xdr(claim_type) + u64_xdr(timestamp));
    if attestation_payload(issuer, subject, claim_type, timestamp) == attestation_payload(issuer2, subject, claim_type, timestamp) {
        let p = Seq::<u8>::empty();
        let q = address_xdr(subject) + string_xdr(claim_type) + u64_xdr(timestamp);
        assert(attestation_payload(issuer, subject, claim_type, timestamp) =~= p + address_xdr(issuer) + q);
        assert(attestation_payload(issuer2, subject, claim_type, timestamp) =~= p + address_xdr(issuer2) + q);
        lemma_cancel_middle(p, address_xdr(issuer), address_xdr(issuer2), q);
    }
    if attestation_payload(issuer, subject, claim_type, timestamp) == attestation_payload(issuer, subject2, claim_type, timestamp) {
        let p = address_xdr(issuer);
        let q = string_xdr(claim_type) + u64_xdr(timestamp);
        assert(attestation_payload(issuer, subject, claim_type, timestamp) =~= p + address_xdr(subject) + q);
        assert(attestation_payload(issuer, subject2, claim_type, timestamp) =~= p + address_xdr(subject2) + q);
        lemma_cancel_middle(p, address_xdr(subject), address_xdr(subject2), q);
    }
    if attestation_payload(issuer, subject, claim_type, timestamp) == attestation_payload(issuer, subject, claim_type2, timestamp) {
        let p = address_xdr(issuer) + address_xdr(subject);
        let q = u64_xdr(timestamp);
        assert(attestation_payload(issuer, subject, claim_type, timestamp) =~= p + string_xdr(claim_type) + q);
        assert(attestation_payload(issuer, subject, claim_type2, timestamp) =~= p + string_xdr(claim_type2) + q);
        lemma_cancel_middle(p, string_xdr(claim_type), string_xdr(claim_type2), q);
    }
    if attestation_payload(issuer, subject, claim_type, timestamp) == attestation_payload(issuer, subject, claim_type, timestamp2) {
        let p = address_xdr(issuer) + address_xdr(subject) + string_xdr(claim_type);
        let q = Seq::<u8>::empty();
        assert(attestation_payload(issuer, subject, claim_type, timestamp) =~= p + u64_xdr(timestamp) + q);
        assert(attestation_payload(issuer, subject, claim_type, timestamp2) =~= p + u64_xdr(timestamp2) + q);
        lemma_cancel_middle(p, u64_xdr(timestamp), u64_xdr(timestamp2), q);
    }
}

/// The payload hashed into a bridge attestation ID is the XDR encodings of
/// `bridge | subject | claim_type | source_chain | source_tx | timestamp`, in that order, and each field counts: two payloads that
/// differ in one field alone are equal only if that field's encodings are.
pub proof fn law_bridge_payload_fields(bridge: Seq<char>, bridge2: Seq<char>, subject: Seq<char>, subject2: Seq<char>, claim_type: Seq<char>, claim_type2: Seq<char>, source_chain: Seq<char>, source_chain2: Seq<char>, source_tx: Seq<char>, source_tx2: Seq<char>, timestamp: u64, timestamp2: u64)
    ensures
        bridge_payload(bridge, subject, claim_type, source_chain, source_tx, timestamp) == address_xdr(bridge) + address_xdr(subject) + string_xdr(claim_type) + string_xdr(source_chain) + string_xdr(source_tx) + u64_xdr(timestamp),
        bridge_payload(bridge, subject, claim_type, source_chain, source_tx, timestamp) == bridge_payload(bridge2, subject, claim_type, source_chain, source_tx, timestamp) ==> address_xdr(bridge) == address_xdr(bridge2),
        bridge_payload(bridge, subject, claim_type, source_chain, source_tx, timestamp) == bridge_payload(bridge, subject2, claim_type, source_chain, source_tx, timestamp) ==> address_xdr(subject) == address_xdr(subject2),
        bridge_payload(bridge, subject, claim_type, source_chain, source_tx, timestamp) == bridge_payload(bridge, subject, claim_type2, source_chain, source_tx, timestamp) ==> string_xdr(claim_type) == string_xdr(claim_type2),
        bridge_payload(bridge, subject, claim_type, source_chain, source_tx, timestamp) == bridge_payload(bridge, subject, claim_type, source_chain2, source_tx, timestamp) ==> string_xdr(source_chain) == string_xdr(source_chain2),
        bridge_payload(bridge, subject, claim_type, source_chain, source_tx, timestamp) == bridge_payload(bridge, subject, claim_type, source_chain, source_tx2, timestamp) ==> string_xdr(source_tx) == string_xdr(source_tx2),
        bridge_payload(bridge, subject, claim_type, source_chain, source_tx, timestamp) == bridge_payload(bridge, subject, claim_type, source_chain, source_tx, timestamp2) ==> u64_xdr(timestamp) == u64_xdr(timestamp2),
{
    assert(bridge_payload(bridge, subject, claim_type, source_chain, source_tx, timestamp) =~= address_xdr(bridge) + address_xdr(subject) + string_xdr(claim_type) + string_xdr(source_chain) + string_xdr(source_tx) + u64_xdr(timestamp));
    if bridge_payload(bridge, subject, claim_type, source_chain, source_tx, timestamp) == bridge_payload(bridge2, subject, claim_type, source_chain, source_tx, timestamp) {
        let p = Seq::<u8>::empty();
        let q = address_xdr(subject) + string_xdr(claim_type) + string_xdr(source_chain) + string_xdr(source_tx) + u64_xdr(timestamp);
        assert(bridge_payload(bridge, subject, claim_type, source_chain, source_tx, timestamp) =~= p + address_xdr(bridge) + q);
        assert(bridge_payload(bridge2, subject, claim_type, source_chain, source_tx, timestamp) =~= p + address_xdr(bridge2) + q);
        lemma_cancel_middle(p, address_xdr(bridge), address_xdr(bridge2), q);
    }
    if bridge_payload(bridge, subject, claim_type, source_chain, source_tx, timestamp) == bridge_payload(bridge, subject2, claim_type, source_chain, source_tx, timestamp) {
        let p = address_xdr(bridge);
        let q = string_xdr(claim_type) + string_xdr(source_chain) + string_xdr(source_tx) + u64_xdr(timestamp);
        assert(bridge_payload(bridge, subject, claim_type, source_chain, source_tx, timestamp) =~= p + address_xdr(subject) + q);
        assert(bridge_payload(bridge, subject2, claim_type, source_chain, source_tx, timestamp) =~= p + address_xdr(subject2) + q);
        lemma_cancel_middle(p, address_xdr(subject), address_xdr(subject2), q);
    }
    if bridge_payload(bridge, subject, claim_type, source_chain, source_tx, timestamp) == bridge_payload(bridge, subject, claim_type2, source_chain, source_tx, timestamp) {
        let p = address_xdr(bridge) + address_xdr(subject);
        let q = string_xdr(source_chain) + string_xdr(source_tx) + u64_xdr(timestamp);
        assert(bridge_payload(bridge, subject, claim_type, source_chain, source_tx, timestamp) =~= p + string_xdr(claim_type) + q);
        assert(bridge_payload(bridge, subject, claim_type2, source_chain, source_tx, timestamp) =~= p + string_xdr(claim_type2) + q);
        lemma_cancel_middle(p, string_xdr(claim_type), string_xdr(claim_type2), q);
    }
    if bridge_payload(bridge, subject, claim_type, source_chain, source_tx, timestamp) == bridge_payload(bridge, subject, claim_type, source_chain2, source_tx, timestamp) {
        let p = address_xdr(bridge) + address_xdr(subject) + string_xdr(claim_type);
        let q = string_xdr(source_tx) + u64_xdr(timestamp);
        assert(bridge_payload(bridge, subject, claim_type, source_chain, source_tx, timestamp) =~= p + string_xdr(source_chain) + q);
        assert(bridge_payload(bridge, subject, claim_type, source_chain2, source_tx, timestamp) =~= p + string_xdr(source_chain2) + q);
        lemma_cancel_middle(p, string_xdr(source_chain), string_xdr(source_chain2), q);
    }
    if bridge_payload(bridge, subject, claim_type, source_chain, source_tx, timestamp) == bridge_payload(bridge, subject, claim_type, source_chain, source_tx2, timestamp) {
        let p = address_xdr(bridge) + address_xdr(subject) + string_xdr(claim_type) + string_xdr(source_chain);
        let q = u64_xdr(timestamp);
        assert(bridge_payload(bridge, subject, claim_type, source_chain, source_tx, timestamp) =~= p + string_xdr(source_tx) + q);
        assert(bridge_payload(bridge, subject, claim_type, source_chain, source_tx2, timestamp) =~= p + string_xdr(source_tx2) + q);
        lemma_cancel_middle(p, string_xdr(source_tx), string_xdr(source_tx2), q);
    }
    if bridge_payload(bridge, subject, claim_type, source_chain, source_tx, timestamp) == bridge_payload(bridge, subject, claim_type, source_chain, source_tx, timestamp2) {
        let p = address_xdr(bridge) + address_xdr(subject) + string_xdr(claim_type) + string_xdr(source_chain) + string_xdr(source_tx);
        let q = Seq::<u8>::empty();
        assert(bridge_payload(bridge, subject, claim_type, source_chain, source_tx, timestamp) =~= p + u64_xdr(timestamp) + q);
        assert(bridge_payload(bridge, subject, claim_type, source_chain, source_tx, timestamp2) =~= p + u64_xdr(timestamp2) + q);
        lemma_cancel_middle(p, u64_xdr(timestamp), u64_xdr(timestamp2), q);
    }
}

/// The payload hashed into a request ID is the XDR encodings of
/// `"req:" | subject | issuer | claim_type | timestamp`, in that order, and each field counts: two payloads that
/// differ in one field alone are equal only if that field's encodings are.
pub proof fn law_request_payload_fields(subject: Seq<char>, subject2: Seq<char>, issuer: Seq<char>, issuer2: Seq<char>, claim_type: Seq<char>, claim_type2: Seq<char>, timestamp: u64, timestamp2: u64)
    ensures
        request_payload(subject, issuer, claim_type, timestamp) == seq![114u8, 101u8, 113u8, 58u8] + address_xdr(subject) + address_xdr(issuer) + string_xdr(claim_type) + u64_xdr(timestamp),
        request_payload(subject, issuer, claim_type, timestamp) == request_payload(subject2, issuer, claim_type, timestamp) ==> address_xdr(subject) == address_xdr(subject2),
        request_payload(subject, issuer, claim_type, timestamp) == request_payload(subject, issuer2, claim_type, timestamp) ==> address_xdr(issuer) == address_xdr(issuer2),
        request_payload(subject, issuer, claim_type, timestamp) == request_payload(subject, issuer, claim_type2, timestamp) ==> string_xdr(claim_type) == string_xdr(claim_type2),
        request_payload(subject, issuer, claim_type, timestamp) == request_payload(subject, issuer, claim_type, timestamp2) ==> u64_xdr(timestamp) == u64_xdr(timestamp2),
{
    assert(request_payload(subject, issuer, claim_type, timestamp) =~= seq![114u8, 101u8, 113u8, 58u8] + address_xdr(subject) + address_xdr(issuer) + string_xdr(claim_type) + u64_xdr(timestamp));
    if request_payload(subject, issuer, claim_type, timestamp) == request_payload(subject2, issuer, claim_type, timestamp) {
        let p = seq![114u8, 101u8, 113u8, 58u8];
        let q = address_xdr(issuer) + string_xdr(claim_type) + u64_xdr(timestamp);
        assert(request_payload(subject, issuer, claim_type, timestamp) =~= p + address_xdr(subject) + q);
        assert(request_payload(subject2, issuer, claim_type, timestamp) =~= p + address_xdr(subject2) + q);
        lemma_cancel_middle(p, address_xdr(subject), address_xdr(subject2), q);
    }
    if request_payload(subject, issuer, claim_type, timestamp) == request_payload(subject, issuer2, claim_type, timestamp) {
        let p = seq![114u8, 101u8, 113u8, 58u8] + address_xdr(subject);
        let q = string_xdr(claim_type) + u64_xdr(timestamp);
        assert(request_payload(subject, issuer, claim_type, timestamp) =~= p + address_xdr(issuer) + q);
        assert(request_payload(subject, issuer2, claim_type, timestamp) =~= p + address_xdr(issuer2) + q);
        lemma_cancel_middle(p, address_xdr(issuer), address_xdr(issuer2), q);
    }
    if request_payload(subject, issuer, claim_type, timestamp) == request_payload(subject, issuer, claim_type2, timestamp) {
        let p = seq![114u8, 101u8, 113u8, 58u8] + address_xdr(subject) + address_xdr(issuer);
        let q = u64_xdr(timestamp);
        assert(request_payload(subject, issuer, claim_type, timestamp) =~= p + string_xdr(claim_type) + q);
        assert(request_payload(subject, issuer, claim_type2, timestamp) =~= p + string_xdr(claim_type2) + q);
        lemma_cancel_middle(p, string_xdr(claim_type), string_xdr(claim_type2), q);
    }
    if request_payload(subject, issuer, claim_type, timestamp) == request_payload(subject, issuer, claim_type, timestamp2) {
        let p = seq![114u8, 101u8, 113u8, 58u8] + address_xdr(subject) + address_xdr(issuer) + string_xdr(claim_type);
        let q = Seq::<u8>::empty();
        assert(request_payload(subject, issuer, claim_type, timestamp) =~= p + u64_xdr(timestamp) + q);
        assert(request_payload(subject, issuer, claim_type, timestamp2) =~= p + u64_xdr(timestamp2) + q);
        lemma_cancel_middle(p, u64_xdr(timestamp), u64_xdr(timestamp2), q);
    }
}

/// The payload hashed into a multi-signature proposal ID is the XDR encodings of
/// `"multisig:" | proposer | subject | claim_type | timestamp`, in that order, and each field counts: two payloads that
/// differ in one field alone are equal only if that field's encodings are.
pub proof fn law_multisig_payload_fields(proposer: Seq<char>, proposer2: Seq<char>, subject: Seq<char>, subject2: Seq<char>, claim_type: Seq<char>, claim_type2: Seq<char>, timestamp: u64, timestamp2: u64)
    ensures
        multisig_payload(proposer, subject, claim_type, timestamp) == seq![109u8, 117u8, 108u8, 116u8, 105u8, 115u8, 105u8, 103u8, 58u8] + address_xdr(proposer) + address_xdr(subject) + string_xdr(claim_type) + u64_xdr(timestamp),
        multisig_payload(proposer, subject, claim_type, timestamp) == multisig_payload(proposer2, subject, claim_type, timestamp) ==> address_xdr(proposer) == address_xdr(proposer2),
        multisig_payload(proposer, subject, claim_type, timestamp) == multisig_payload(proposer, subject2, claim_type, timestamp) ==> address_xdr(subject) == address_xdr(subject2),
        multisig_payload(proposer, subject, claim_type, timestamp) == multisig_payload(proposer, subject, claim_type2, timestamp) ==> string_xdr(claim_type) == string_xdr(claim_type2),
        multisig_payload(proposer, subject, claim_type, timestamp) == multisig_payload(proposer, subject, claim_type, timestamp2) ==> u64_xdr(timestamp) == u64_xdr(timestamp2),
{
    assert(multisig_payload(proposer, subject, claim_type, timestamp) =~= seq![109u8, 117u8, 108u8, 116u8, 105u8, 115u8, 105u8, 103u8, 58u8] + address_xdr(proposer) + address_xdr(subject) + string_xdr(claim_type) + u64_xdr(timestamp));
    if multisig_payload(proposer, subject, claim_type, timestamp) == multisig_payload(proposer2, subject, claim_type, timestamp) {
        let p = seq![109u8, 117u8, 108u8, 116u8, 105u8, 115u8, 105u8, 103u8, 58u8];
        let q = address_xdr(subject) + string_xdr(claim_type) + u64_xdr(timestamp);
        assert(multisig_payload(proposer, subject, claim_type, timestamp) =~= p + address_xdr(proposer) + q);
        assert(multisig_payload(proposer2, subject, claim_type, timestamp) =~= p + address_xdr(proposer2) + q);
        lemma_cancel_middle(p, address_xdr(proposer), address_xdr(proposer2), q);
    }
    if multisig_payload(proposer, subject, claim_type, timestamp) == multisig_payload(proposer, subject2, claim_type, timestamp) {
        let p = seq![109u8, 117u8, 108u8, 116u8, 105u8, 115u8, 105u8, 103u8, 58u8] + address_xdr(proposer);
        let q = string_xdr(claim_type) + u64_xdr(timestamp);
        assert(multisig_payload(proposer, subject, claim_type, timestamp) =~= p + address_xdr(subject) + q);
        assert(multisig_payload(proposer, subject2, claim_type, timestamp) =~= p + address_xdr(subject2) + q);
        lemma_cancel_middle(p, address_xdr(subject), address_xdr(subject2), q);
    }
    if multisig_payload(proposer, subject, claim_type, timestamp) == multisig_payload(proposer, subject, claim_type2, timestamp) {
        let p = seq![109u8, 117u8, 108u8, 116u8, 105u8, 115u8, 105u8, 103u8, 58u8] + address_xdr(proposer) + address_xdr(subject);
        let q = u64_xdr(timestamp);
        assert(multisig_payload(proposer, subject, claim_type, timestamp) =~= p + string_xdr(claim_type) + q);
        assert(multisig_payload(proposer, subject, claim_type2, timestamp) =~= p + string_xdr(claim_type2) + q);
        lemma_cancel_middle(p, string_xdr(claim_type), string_xdr(claim_type2), q);
    }
    if multisig_payload(proposer, subject, claim_type, timestamp) == multisig_payload(proposer, subject, claim_type, timestamp2) {
        let p = seq![109u8, 117u8, 108u8, 116u8, 105u8, 115u8, 105u8, 103u8, 58u8] + address_xdr(proposer) + address_xdr(subject) + string_xdr(claim_type);
        let q = Seq::<u8>::empty();
        assert(multisig_payload(proposer, subject, claim_type, timestamp) =~= p + u64_xdr(timestamp) + q);
        assert(multisig_payload(proposer, subject, claim_type, timestamp2) =~= p + u64_xdr(timestamp2) + q);
        lemma_cancel_middle(p, u64_xdr(timestamp), u64_xdr(timestamp2), q);
    }
}

// ── Events ────────────────────────────────────────────────────────────────

/// Each event is published under its own fixed symbol, the one that
/// listeners subscribe to.
pub proof fn law_topic_symbols_spelled(t: EventTopic)
    ensures
        topic_symbol(EventTopic::AdminInit) == "adm_init"@,
        topic_symbol(EventTopic::Created) == "created"@,
        topic_symbol(EventTopic::Imported) == "imported"@,
        topic_symbol(EventTopic::Bridged) == "bridged"@,
        topic_symbol(EventTopic::Revoked) == "revoked"@,
        topic_symbol(EventTopic::Renewed) == "renewed"@,
        topic_symbol(EventTopic::Updated) == "updated"@,
        topic_symbol(EventTopic::Expired) == "expired"@,
        topic_symbol(EventTopic::DeletionRequested) == "del_req"@,
        topic_symbol(EventTopic::IssuerRegistered) == "iss_reg"@,
        topic_symbol(EventTopic::IssuerTierUpdated) == "iss_tier"@,
        topic_symbol(EventTopic::IssuerRemoved) == "iss_rem"@,
        topic_symbol(EventTopic::ClaimTypeRegistered) == "clmtype"@,
        topic_symbol(EventTopic::MultisigProposed) == "ms_prop"@,
        topic_symbol(EventTopic::MultisigSigned) == "ms_sign"@,
        topic_symbol(EventTopic::MultisigActivated) == "ms_actv"@,
        topic_symbol(EventTopic::AdminTransferred) == "adm_xfer"@,
        topic_symbol(EventTopic::AdminAdded) == "adm_add"@,
        topic_symbol(EventTopic::AdminRemoved) == "adm_rem"@,
        topic_symbol(EventTopic::Endorsed) == "endorsed"@,
        topic_symbol(EventTopic::ExpirationHook) == "exp_hook"@,
        topic_symbol(EventTopic::Paused) == "paused"@,
        topic_symbol(EventTopic::Unpaused) == "unpaused"@,
        topic_symbol(EventTopic::Requested) == "req"@,
        topic_symbol(EventTopic::RequestFulfilled) == "req_ok"@,
        topic_symbol(EventTopic::RequestRejected) == "req_no"@,
        topic_symbol(EventTopic::DelegationCreated) == "dlg_new"@,
        topic_symbol(EventTopic::DelegationRevoked) == "dlg_rev"@,
        topic_symbol(EventTopic::WhitelistOn) == "wl_on"@,
        topic_symbol(EventTopic::WhitelistAdded) == "wl_add"@,
        topic_symbol(EventTopic::WhitelistRemoved) == "wl_rem"@,
{
}

/// A tuple event carries exactly its topic, second topic and fields; a
/// single-value event its value; a unit event nothing.
pub proof fn law_event_shapes(
    e: Event,
    topic: EventTopic,
    scope: Option<EventValue>,
    fields: Seq<EventValue>,
    value: EventValue,
)
    ensures
        emits_tuple(e, topic, scope, fields) ==> e.topic == topic && e.scope == scope && (
        e.data matches EventData::Tuple(v) && v@ == fields),
        emits_single(e, topic, scope, value) ==> e.topic == topic && e.scope == scope && e.data
            == EventData::Single(value),
        emits_unit(e, topic, scope) ==> e.topic == topic && e.scope == scope && e.data
            == EventData::Unit,
{
}

/// The bridged event carries the attestation's ID, issuer and claim type,
/// then its source chain and source transaction, each as the empty string
/// when absent.
pub proof fn law_bridged_event_fields(f: Seq<EventValue>, a: Attestation)
    requires
        bridged_fields(f, a),
    ensures
        f.len() == 5,
        f[0] == EventValue::Text(a.id),
        f[1] == EventValue::Address(a.issuer),
        f[2] == EventValue::Text(a.claim_type),
        f[3] is Text && f[4] is Text,
        a.source_chain is None ==> f[3]->Text_0@ == Seq::<char>::empty(),
        a.source_chain is Some ==> f[3]->Text_0@ == a.source_chain->0@,
        a.source_tx is None ==> f[4]->Text_0@ == Seq::<char>::empty(),
        a.source_tx is Some ==> f[4]->Text_0@ == a.source_tx->0@,
{
}

/// The topic whose symbol is `s`, told by its length and characters.
spec fn topic_named(s: Seq<char>) -> EventTopic {
    if s.len() == 3 {
        EventTopic::Requested
    } else {
        if s.len() == 5 {
            EventTopic::WhitelistOn
        } else {
            if s.len() == 6 {
                if s[0] == 'p' {
                    EventTopic::Paused
                } else {
                    if s[0] == 'r' {
                        if s[4] == 'n' {
                            EventTopic::RequestRejected
                        } else {
                            EventTopic::RequestFulfilled
                        }
                    } else {
                        if s[3] == 'a' {
                            EventTopic::WhitelistAdded
                        } else {
                            EventTopic::WhitelistRemoved
                        }
                    }
                }
            } else {
                if s.len() == 7 {
                    if s[0] == 'a' {
                        if s[4] == 'a' {
                            EventTopic::AdminAdded
                        } else {
                            EventTopic::AdminRemoved
                        }
                    } else {
                        if s[0] == 'b' {
                            EventTopic::Bridged
                        } else {
                            if s[0] == 'c' {
                                if s[1] == 'l' {
                                    EventTopic::ClaimTypeRegistered
                                } else {
                                    EventTopic::Created
                                }
                            } else {
                                if s[0] == 'd' {
                                    if s[1] == 'e' {
                                        EventTopic::DeletionRequested
                                    } else {
                                        if s[4] == 'n' {
                                            EventTopic::DelegationCreated
                                        } else {
                                            EventTopic::DelegationRevoked
                                        }
                                    }
                                } else {
                                    if s[0] == 'e' {
                                        EventTopic::Expired
                                    } else {
                                        if s[0] == 'i' {
                                            if s[6] == 'g' {
                                                EventTopic::IssuerRegistered
                                            } else {
                                                EventTopic::IssuerRemoved
                                            }
                                        } else {
                                            if s[0] == 'm' {
                                                if s[3] == 'a' {
                                                    EventTopic::MultisigActivated
                                                } else {
                                                    if s[3] == 'p' {
                                                        EventTopic::MultisigProposed
                                                    } else {
                                                        EventTopic::MultisigSigned
                                                    }
                                                }
                                            } else {
                                                if s[0] == 'r' {
                                                    if s[2] == 'n' {
                                                        EventTopic::Renewed
                                                    } else {
                                                        EventTopic::Revoked
                                                    }
                                                } else {
                                                    EventTopic::Updated
                                                }
                                            }
                                        }
                                    }
                                }
                            }
                        }
                    }
                } else {
                    if s[0] == 'a' {
                        if s[4] == 'i' {
                            EventTopic::AdminInit
                        } else {
                            EventTopic::AdminTransferred
                        }
                    } else {
                        if s[0] == 'e' {
                            if s[1] == 'n' {
                                EventTopic::Endorsed
                            } else {
                                EventTopic::ExpirationHook
                            }
                        } else {
                            if s[0] == 'i' {
                                if s[1] == 'm' {
                                    EventTopic::Imported
                                } else {
                                    EventTopic::IssuerTierUpdated
                                }
                            } else {
                                EventTopic::Unpaused
                            }
                        }
                    }
                }
            }
        }
    }
}

/// Every topic is published under its own symbol, of at most nine
/// characters: events of different kinds can be told apart by their first
/// topic.
#[verifier::rlimit(50)]
pub proof fn law_topic_symbols_distinct(t1: EventTopic, t2: EventTopic)
    ensures
        topic_symbol(t1).len() <= 9,
        t1 != t2 ==> topic_symbol(t1) != topic_symbol(t2),
{
    reveal_strlit("adm_init");
    reveal_strlit("created");
    reveal_strlit("imported");
    reveal_strlit("bridged");
    reveal_strlit("revoked");
    reveal_strlit("renewed");
    reveal_strlit("updated");
    reveal_strlit("expired");
    reveal_strlit("del_req");
    reveal_strlit("iss_reg");
    reveal_strlit("iss_tier");
    reveal_strlit("iss_rem");
    reveal_strlit("clmtype");
    reveal_strlit("ms_prop");
    reveal_strlit("ms_sign");
    reveal_strlit("ms_actv");
    reveal_strlit("adm_xfer");
    reveal_strlit("adm_add");
    reveal_strlit("adm_rem");
    reveal_strlit("endorsed");
    reveal_strlit("exp_hook");
    reveal_strlit("paused");
    reveal_strlit("unpaused");
    reveal_strlit("req");
    reveal_strlit("req_ok");
    reveal_strlit("req_no");
    reveal_strlit("dlg_new");
    reveal_strlit("dlg_rev");
    reveal_strlit("wl_on");
    reveal_strlit("wl_add");
    reveal_strlit("wl_rem");
    assert(topic_named(topic_symbol(t1)) == t1);
    assert(topic_named(topic_symbol(t2)) == t2);
}

} // verus!
