use vstd::prelude::*;

use crate::event::{batch_of, record_of, Credential, Event, EventKind, RecordView};
use crate::ids::{AssetView, ListingView};

verus! {

/// A batch of N listings yields exactly N records, in input order; the record
/// at each position carries the batch's kind, that listing, its owning account
/// and the asset identifier embedded in that same listing.
pub proof fn lemma_batch_records_follow_listings(kind: EventKind, listings: Seq<ListingView>)
    ensures
        batch_of(kind, listings).len() == listings.len(),
        forall|i: int|
            0 <= i < listings.len() ==> {
                let rec = #[trigger] batch_of(kind, listings)[i];
                &&& rec.kind == kind
                &&& rec.listing == listings[i]
                &&& rec.account == listings[i].account
                &&& rec.asset == listings[i].asset
            },
{
}

/// An empty batch yields no records.
pub proof fn lemma_empty_batch(kind: EventKind)
    ensures
        batch_of(kind, Seq::<ListingView>::empty()) == Seq::<RecordView>::empty(),
{
    assert(batch_of(kind, Seq::<ListingView>::empty()) =~= Seq::<RecordView>::empty());
}

/// A batch takes no decision per listing: the records of two batches joined
/// are the records of each batch, joined. Together with the one verdict on the
/// credential that `Event::emit_batch` takes, authorization happens once per
/// call, whatever the batch's size.
pub proof fn lemma_batch_without_item_checks(
    kind: EventKind,
    first: Seq<ListingView>,
    second: Seq<ListingView>,
)
    ensures
        batch_of(kind, first + second) == batch_of(kind, first) + batch_of(kind, second),
{
    assert(batch_of(kind, first + second) =~= batch_of(kind, first) + batch_of(kind, second));
}

/// Two emitters that trust different authorities reject each other's
/// credentials: one accepted by the first is refused by the second.
pub proof fn lemma_distinct_authorities_disjoint(a: Event, b: Event, proof: Credential)
    requires
        a.authority() != b.authority(),
        a.accepts(proof),
    ensures
        !b.accepts(proof),
{
}

/// A single emission of any kind records the listing's own account next to
/// the supplied asset identifier.
pub proof fn lemma_single_record_fields(kind: EventKind, listing: ListingView, asset: AssetView)
    ensures
        record_of(kind, listing, asset).kind == kind,
        record_of(kind, listing, asset).listing == listing,
        record_of(kind, listing, asset).account == listing.account,
        record_of(kind, listing, asset).asset == asset,
{
}

} // verus!
