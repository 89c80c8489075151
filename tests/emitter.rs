use outpost_event::event::{make_batch, Credential, Event, EventError, EventKind, EventRecord};
use outpost_event::ids::{copy_bytes, AccountId, AssetId, Listing, ResourceId};

fn resource(tag: u8) -> ResourceId {
    ResourceId { bytes: vec![0x5d, tag, tag, 0x01] }
}

fn asset(collection: u8, item: &str) -> AssetId {
    AssetId { collection: resource(collection), item: item.to_string() }
}

fn listing(account: u8, collection: u8, item: &str) -> Listing {
    Listing {
        outpost_account: AccountId { bytes: vec![0xc1, account] },
        nfgid: asset(collection, item),
        details: vec![account, collection, 7],
    }
}

fn credential(tag: u8) -> Credential {
    Credential { resource: resource(tag) }
}

fn assert_record(rec: &EventRecord, kind: EventKind, l: &Listing, a: &AssetId) {
    assert_eq!(rec.kind, kind);
    assert_eq!(rec.listing.outpost_account.bytes, l.outpost_account.bytes);
    assert_eq!(rec.listing.nfgid.collection.bytes, l.nfgid.collection.bytes);
    assert_eq!(rec.listing.nfgid.item, l.nfgid.item);
    assert_eq!(rec.listing.details, l.details);
    assert_eq!(rec.outpost_account.bytes, l.outpost_account.bytes);
    assert_eq!(rec.nft_id.collection.bytes, a.collection.bytes);
    assert_eq!(rec.nft_id.item, a.item);
}

#[test]
fn listing_event_scenario() {
    let emitter = Event::create_event_listener(resource(1));
    let l1 = listing(0xc1, 9, "#1#");
    let a1 = asset(9, "#1#");
    let rec = emitter.listing_event(listing(0xc1, 9, "#1#"), asset(9, "#1#"), credential(1)).unwrap();
    assert_record(&rec, EventKind::Created, &l1, &a1);
    assert_eq!(rec.outpost_account.bytes, vec![0xc1, 0xc1]);

    let refused = emitter.listing_event(listing(0xc1, 9, "#1#"), asset(9, "#1#"), credential(2));
    assert!(matches!(refused, Err(EventError::AuthorizationFailure)));
}

#[test]
fn single_emissions_carry_their_kind() {
    let emitter = Event::create_event_listener(resource(3));
    let l = listing(4, 5, "<gold>");
    let a = asset(6, "<silver>");
    let cases: Vec<(EventKind, EventRecord)> = vec![
        (EventKind::Created, emitter.listing_event(listing(4, 5, "<gold>"), asset(6, "<silver>"), credential(3)).unwrap()),
        (EventKind::Updated, emitter.update_listing_event(listing(4, 5, "<gold>"), asset(6, "<silver>"), credential(3)).unwrap()),
        (EventKind::Canceled, emitter.cancel_listing_event(listing(4, 5, "<gold>"), asset(6, "<silver>"), credential(3)).unwrap()),
        (EventKind::Purchased, emitter.purchase_listing_event(listing(4, 5, "<gold>"), asset(6, "<silver>"), credential(3)).unwrap()),
    ];
    for (kind, rec) in cases.iter() {
        assert_record(rec, *kind, &l, &a);
    }
    let general = emitter.emit(EventKind::Updated, listing(4, 5, "<gold>"), asset(6, "<silver>"), credential(3)).unwrap();
    assert_record(&general, EventKind::Updated, &l, &a);
}

#[test]
fn invalid_credential_fails_everywhere() {
    let emitter = Event::create_event_listener(resource(3));
    let bad = || credential(8);
    let fail = Err(EventError::AuthorizationFailure);
    assert_eq!(emitter.listing_event(listing(1, 2, "#1#"), asset(2, "#1#"), bad()).map(|_| ()), fail);
    assert_eq!(emitter.update_listing_event(listing(1, 2, "#1#"), asset(2, "#1#"), bad()).map(|_| ()), fail);
    assert_eq!(emitter.cancel_listing_event(listing(1, 2, "#1#"), asset(2, "#1#"), bad()).map(|_| ()), fail);
    assert_eq!(emitter.purchase_listing_event(listing(1, 2, "#1#"), asset(2, "#1#"), bad()).map(|_| ()), fail);
    assert_eq!(emitter.multi_listing_event(vec![listing(1, 2, "#1#")], bad()).map(|_| ()), fail);
    assert_eq!(emitter.multi_purchase_event(vec![listing(1, 2, "#1#")], bad()).map(|_| ()), fail);
    assert_eq!(emitter.emit_batch(EventKind::Canceled, vec![], bad()).map(|_| ()), fail);
}

#[test]
fn credential_of_a_prefix_resource_is_refused() {
    let emitter = Event::create_event_listener(ResourceId { bytes: vec![1, 2, 3] });
    assert!(!emitter.verify(&Credential { resource: ResourceId { bytes: vec![1, 2] } }));
    assert!(!emitter.verify(&Credential { resource: ResourceId { bytes: vec![1, 2, 3, 4] } }));
    assert!(!emitter.verify(&Credential { resource: ResourceId { bytes: vec![1, 2, 4] } }));
    assert!(emitter.verify(&Credential { resource: ResourceId { bytes: vec![1, 2, 3] } }));
}

#[test]
fn batch_keeps_order_and_embedded_ids() {
    let emitter = Event::create_event_listener(resource(1));
    let inputs = vec![listing(1, 10, "#1#"), listing(2, 11, "#2#"), listing(3, 12, "<x>")];
    let expected = vec![listing(1, 10, "#1#"), listing(2, 11, "#2#"), listing(3, 12, "<x>")];
    let recs = emitter.multi_listing_event(inputs, credential(1)).unwrap();
    assert_eq!(recs.len(), 3);
    for (rec, l) in recs.iter().zip(expected.iter()) {
        assert_record(rec, EventKind::Created, l, &l.nfgid);
    }
    let recs = emitter
        .multi_purchase_event(vec![listing(1, 10, "#1#"), listing(2, 11, "#2#"), listing(3, 12, "<x>")], credential(1))
        .unwrap();
    assert_eq!(recs.len(), 3);
    for (rec, l) in recs.iter().zip(expected.iter()) {
        assert_record(rec, EventKind::Purchased, l, &l.nfgid);
    }
    assert_eq!(recs[2].nft_id.item, "<x>");
}

#[test]
fn empty_batch_succeeds_with_no_records() {
    let emitter = Event::create_event_listener(resource(1));
    assert_eq!(emitter.multi_listing_event(vec![], credential(1)).unwrap().len(), 0);
    assert_eq!(emitter.multi_purchase_event(vec![], credential(1)).unwrap().len(), 0);
    assert_eq!(make_batch(EventKind::Created, vec![]).len(), 0);
}

#[test]
fn distinct_authorities_reject_each_other() {
    let a = Event::create_event_listener(resource(1));
    let b = Event::create_event_listener(resource(2));
    assert!(a.verify(&credential(1)));
    assert!(!b.verify(&credential(1)));
    assert!(b.verify(&credential(2)));
    assert!(!a.verify(&credential(2)));
    assert!(b.listing_event(listing(1, 2, "#1#"), asset(2, "#1#"), credential(1)).is_err());
    assert_eq!(a.emitter_badge_auth().bytes, resource(1).bytes);
}

#[test]
fn copies_are_equal_and_independent() {
    let original = vec![9u8, 8, 7];
    let copy = copy_bytes(&original);
    assert_eq!(copy, original);
    assert_eq!(copy_bytes(&vec![]), Vec::<u8>::new());
    let r = resource(4);
    assert!(r.same_as(&r.duplicate()));
    let acc = AccountId { bytes: vec![1, 2] };
    assert_eq!(acc.duplicate().bytes, vec![1, 2]);
    let id = asset(4, "{abc}");
    let dup = id.duplicate();
    assert_eq!(dup.item, "{abc}");
    assert!(dup.collection.same_as(&resource(4)));
}
