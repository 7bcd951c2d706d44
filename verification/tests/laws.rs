use trustlink::storage::{paginate, Storage};
use trustlink::types::{Address, ClaimTypeInfo};

fn addr(s: &str) -> Address {
    Address::new(s.to_string())
}

fn ids(v: &[&str]) -> Vec<String> {
    v.iter().map(|s| s.to_string()).collect()
}

#[test]
fn added_admin_is_admin_and_others_unchanged() {
    let before = Some(vec![addr("GA")]);
    let after = Storage::add_admin(before.clone(), &addr("GB"));
    assert!(Storage::is_admin(&after, &addr("GB")));
    assert!(Storage::is_admin(&after, &addr("GA")));
    assert!(!Storage::is_admin(&after, &addr("GC")));
}

#[test]
fn adding_admin_twice_is_adding_once() {
    let once = Storage::add_admin(Some(vec![addr("GA")]), &addr("GB")).unwrap();
    assert_eq!(Storage::add_admin(Some(once.clone()), &addr("GB")), None);
}

#[test]
fn removing_admin_undoes_adding() {
    let base = vec![addr("GA"), addr("GC")];
    let added = Storage::add_admin(Some(base.clone()), &addr("GB")).unwrap();
    let removed = Storage::remove_admin(Some(added), &addr("GB")).unwrap();
    assert_eq!(removed, base);
    assert!(!Storage::is_admin(&Some(removed), &addr("GB")));
}

#[test]
fn primary_admin_is_admin() {
    let council = Some(vec![addr("GZ"), addr("GA")]);
    let primary = Storage::get_admin(council.clone()).unwrap();
    assert!(Storage::is_admin(&council, &primary));
}

#[test]
fn removing_fresh_id_restores_index() {
    let base = ids(&["a", "b"]);
    let added = Storage::add_subject_attestation(Some(base.clone()), &"c".to_string());
    assert_eq!(Storage::remove_subject_attestation(Some(added), &"c".to_string()), base);
}

#[test]
fn claim_type_list_stays_duplicate_free() {
    let info = ClaimTypeInfo { claim_type: "KYC".to_string(), description: String::new() };
    let list = Storage::set_claim_type(false, None, &info).unwrap();
    assert_eq!(Storage::set_claim_type(true, Some(list.clone()), &info), None);
    assert_eq!(list, ids(&["KYC"]));
}

#[test]
fn consecutive_pages_concatenate() {
    let items: Vec<u32> = (0..11).collect();
    let mut joined = paginate(&items, 2, 4);
    joined.extend(paginate(&items, 6, 4));
    assert_eq!(joined, paginate(&items, 2, 8));
}

#[test]
fn pages_of_different_sizes_concatenate() {
    let items: Vec<u32> = (0..11).collect();
    let mut joined = paginate(&items, 1, 3);
    joined.extend(paginate(&items, 4, 5));
    assert_eq!(joined, paginate(&items, 1, 8));
    let mut tail = paginate(&items, 7, 2);
    tail.extend(paginate(&items, 9, 6));
    assert_eq!(tail, paginate(&items, 7, 8));
}

#[test]
fn pages_cover_every_item() {
    let items: Vec<u32> = (0..11).collect();
    let mut all = Vec::new();
    let mut start = 0u32;
    while (start as usize) < items.len() {
        all.extend(paginate(&items, start, 3));
        start += 3;
    }
    assert_eq!(all, items);
}

#[test]
fn issuer_count_round_trip() {
    let stats = Storage::increment_total_issuers(None);
    assert_eq!(Storage::decrement_total_issuers(Some(stats)).total_issuers, 0);
}
