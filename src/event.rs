use vstd::prelude::*;

use crate::ids::{AccountId, AssetId, AssetView, Listing, ListingView, ResourceId};

verus! {

/// The lifecycle transition that a record describes.
#[derive(Clone, Copy, Debug, PartialEq, Eq, Structural)]
pub enum EventKind {
    Created,
    Updated,
    Canceled,
    Purchased,
}

/// The one way an emission can fail: the credential does not assert the
/// authority that the emitter trusts.
#[derive(Clone, Copy, Debug, PartialEq, Eq, Structural)]
pub enum EventError {
    AuthorizationFailure,
}

/// A credential presented by a caller: a proof of the resource it holds.
pub struct Credential {
    pub resource: ResourceId,
}

/// The abstract value of an event record.
pub struct RecordView {
    pub kind: EventKind,
    pub listing: ListingView,
    pub account: Seq<u8>,
    pub asset: AssetView,
}

/// An immutable record of one listing transition, ready for the host's log.
pub struct EventRecord {
    pub kind: EventKind,
    pub listing: Listing,
    pub outpost_account: AccountId,
    pub nft_id: AssetId,
}

impl View for EventRecord {
    type V = RecordView;

    open spec fn view(&self) -> RecordView {
        RecordView {
            kind: self.kind,
            listing: self.listing@,
            account: self.outpost_account@,
            asset: self.nft_id@,
        }
    }
}

/// The record of `kind` for `listing` and `asset`: the owning account is the listing's own.
pub open spec fn record_of(kind: EventKind, listing: ListingView, asset: AssetView) -> RecordView {
    RecordView { kind, listing, account: listing.account, asset }
}

/// The records of a batch: one per listing, in input order, each naming the
/// asset embedded in its own listing.
pub open spec fn batch_of(kind: EventKind, listings: Seq<ListingView>) -> Seq<RecordView> {
    Seq::new(listings.len(), |i: int| record_of(kind, listings[i], listings[i].asset))
}

/// The abstract values of a sequence of listings.
pub open spec fn listing_views(listings: Seq<Listing>) -> Seq<ListingView> {
    listings.map_values(|l: Listing| l@)
}

/// The abstract values of a sequence of records.
pub open spec fn record_views(records: Seq<EventRecord>) -> Seq<RecordView> {
    records.map_values(|r: EventRecord| r@)
}

/// Builds the record of `kind`, taking the owning account from the listing.
pub fn make_record(kind: EventKind, listing: Listing, nft_id: AssetId) -> (r: EventRecord)
    ensures
        r@ == record_of(kind, listing@, nft_id@),
{
    let outpost_account = listing.outpost_account.duplicate();
    EventRecord { kind, listing, outpost_account, nft_id }
}

/// Builds the records of a batch, in input order, without any authorization.
pub fn make_batch(kind: EventKind, listings: Vec<Listing>) -> (r: Vec<EventRecord>)
    ensures
        record_views(r@) == batch_of(kind, listing_views(listings@)),
{
    let ghost orig = listings@;
    let mut rest = listings;
    let mut reversed: Vec<EventRecord> = Vec::new();
    while rest.len() > 0
        invariant
            rest@ == orig.subrange(0, rest@.len() as int),
            reversed@.len() + rest@.len() == orig.len(),
            forall|j: int|
                0 <= j < reversed@.len() ==> #[trigger] reversed@[j]@ == record_of(
                    kind,
                    orig[orig.len() - 1 - j]@,
                    orig[orig.len() - 1 - j]@.asset,
                ),
        decreases rest@.len(),
    {
        let listing = rest.pop().unwrap();
        let nft_id = listing.nfgid.duplicate();
        let rec = make_record(kind, listing, nft_id);
        reversed.push(rec);
    }
    let mut out: Vec<EventRecord> = Vec::new();
    while reversed.len() > 0
        invariant
            reversed@.len() + out@.len() == orig.len(),
            forall|j: int|
                0 <= j < reversed@.len() ==> #[trigger] reversed@[j]@ == record_of(
                    kind,
                    orig[orig.len() - 1 - j]@,
                    orig[orig.len() - 1 - j]@.asset,
                ),
            forall|j: int|
                0 <= j < out@.len() ==> #[trigger] out@[j]@ == record_of(
                    kind,
                    orig[j]@,
                    orig[j]@.asset,
                ),
        decreases reversed@.len(),
    {
        let rec = reversed.pop().unwrap();
        out.push(rec);
    }
    assert(record_views(out@) =~= batch_of(kind, listing_views(orig)));
    out
}

/// The emitter: it trusts one authority resource, fixed when it is created.
pub struct Event {
    emitter_badge_auth: ResourceId,
}

impl Event {
    /// The authority resource this emitter trusts.
    pub closed spec fn authority(&self) -> Seq<u8> {
        self.emitter_badge_auth@
    }

    /// Whether `proof` asserts the authority this emitter trusts.
    pub open spec fn accepts(&self, proof: Credential) -> bool {
        proof.resource@ == self.authority()
    }

    /// A new emitter that trusts `emitter_badge_auth`.
    pub fn create_event_listener(emitter_badge_auth: ResourceId) -> (r: Event)
        ensures
            r.authority() == emitter_badge_auth@,
    {
        Event { emitter_badge_auth }
    }

    /// The authority resource this emitter trusts.
    pub fn emitter_badge_auth(&self) -> (r: &ResourceId)
        ensures
            r@ == self.authority(),
    {
        &self.emitter_badge_auth
    }

    /// Checks the credential against the configured authority.
    pub fn verify(&self, proof: &Credential) -> (r: bool)
        ensures
            r == self.accepts(*proof),
    {
        proof.resource.same_as(&self.emitter_badge_auth)
    }

    /// Emits one record of `kind` for `listing` and `nft_id`, once the
    /// credential has been checked; a credential for another resource yields
    /// `AuthorizationFailure` and no record.
    pub fn emit(&self, kind: EventKind, listing: Listing, nft_id: AssetId, emitter_badge: Credential)
        -> (r: Result<EventRecord, EventError>)
        ensures
            self.accepts(emitter_badge) <==> r is Ok,
            r matches Ok(rec) ==> rec@ == record_of(kind, listing@, nft_id@),
            r matches Err(e) ==> e == EventError::AuthorizationFailure,
    {
        if !self.verify(&emitter_badge) {
            return Err(EventError::AuthorizationFailure);
        }
        Ok(make_record(kind, listing, nft_id))
    }

    /// Emits one record of `kind` per listing, in input order, each naming the
    /// asset embedded in its own listing. The credential is checked once for
    /// the whole batch: on failure no record at all is produced.
    pub fn emit_batch(&self, kind: EventKind, listings: Vec<Listing>, emitter_badge: Credential)
        -> (r: Result<Vec<EventRecord>, EventError>)
        ensures
            self.accepts(emitter_badge) <==> r is Ok,
            r matches Ok(recs) ==> record_views(recs@) == batch_of(kind, listing_views(listings@)),
            r matches Err(e) ==> e == EventError::AuthorizationFailure,
    {
        if !self.verify(&emitter_badge) {
            return Err(EventError::AuthorizationFailure);
        }
        Ok(make_batch(kind, listings))
    }

    /// Emits the creation record of `listing` for `nft_id`.
    pub fn listing_event(&self, listing: Listing, nft_id: AssetId, emitter_badge: Credential)
        -> (r: Result<EventRecord, EventError>)
        ensures
            self.accepts(emitter_badge) <==> r is Ok,
            r matches Ok(rec) ==> rec@ == record_of(EventKind::Created, listing@, nft_id@),
            r matches Err(e) ==> e == EventError::AuthorizationFailure,
    {
        self.emit(EventKind::Created, listing, nft_id, emitter_badge)
    }

    /// Emits the update record of `listing` for `nft_id`.
    pub fn update_listing_event(&self, listing: Listing, nft_id: AssetId, emitter_badge: Credential)
        -> (r: Result<EventRecord, EventError>)
        ensures
            self.accepts(emitter_badge) <==> r is Ok,
            r matches Ok(rec) ==> rec@ == record_of(EventKind::Updated, listing@, nft_id@),
            r matches Err(e) ==> e == EventError::AuthorizationFailure,
    {
        self.emit(EventKind::Updated, listing, nft_id, emitter_badge)
    }

    /// Emits the cancellation record of `listing` for `nft_id`.
    pub fn cancel_listing_event(&self, listing: Listing, nft_id: AssetId, emitter_badge: Credential)
        -> (r: Result<EventRecord, EventError>)
        ensures
            self.accepts(emitter_badge) <==> r is Ok,
            r matches Ok(rec) ==> rec@ == record_of(EventKind::Canceled, listing@, nft_id@),
            r matches Err(e) ==> e == EventError::AuthorizationFailure,
    {
        self.emit(EventKind::Canceled, listing, nft_id, emitter_badge)
    }

    /// Emits the purchase record of `listing` for `nft_id`.
    pub fn purchase_listing_event(&self, listing: Listing, nft_id: AssetId, emitter_badge: Credential)
        -> (r: Result<EventRecord, EventError>)
        ensures
            self.accepts(emitter_badge) <==> r is Ok,
            r matches Ok(rec) ==> rec@ == record_of(EventKind::Purchased, listing@, nft_id@),
            r matches Err(e) ==> e == EventError::AuthorizationFailure,
    {
        self.emit(EventKind::Purchased, listing, nft_id, emitter_badge)
    }

    /// Emits the creation records of `listings`, in input order.
    pub fn multi_listing_event(&self, listings: Vec<Listing>, emitter_badge: Credential)
        -> (r: Result<Vec<EventRecord>, EventError>)
        ensures
            self.accepts(emitter_badge) <==> r is Ok,
            r matches Ok(recs) ==> record_views(recs@) == batch_of(EventKind::Created, listing_views(listings@)),
            r matches Err(e) ==> e == EventError::AuthorizationFailure,
    {
        self.emit_batch(EventKind::Created, listings, emitter_badge)
    }

    /// Emits the purchase records of `listings`, in input order.
    pub fn multi_purchase_event(&self, listings: Vec<Listing>, emitter_badge: Credential)
        -> (r: Result<Vec<EventRecord>, EventError>)
        ensures
            self.accepts(emitter_badge) <==> r is Ok,
            r matches Ok(recs) ==> record_views(recs@) == batch_of(EventKind::Purchased, listing_views(listings@)),
            r matches Err(e) ==> e == EventError::AuthorizationFailure,
    {
        self.emit_batch(EventKind::Purchased, listings, emitter_badge)
    }
}

} // verus!
