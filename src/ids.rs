use vstd::prelude::*;

verus! {

/// Returns a fresh vector holding the same bytes as `v`.
pub fn copy_bytes(v: &Vec<u8>) -> (r: Vec<u8>)
    ensures
        r@ == v@,
{
    let mut r: Vec<u8> = Vec::new();
    let mut i: usize = 0;
    while i < v.len()
        invariant
            i <= v@.len(),
            r@ == v@.subrange(0, i as int),
        decreases v@.len() - i,
    {
        r.push(v[i]);
        i = i + 1;
    }
    assert(r@ == v@);
    r
}

/// The address of a resource (a badge or an asset collection), as the bytes of its node id.
pub struct ResourceId {
    pub bytes: Vec<u8>,
}

impl View for ResourceId {
    type V = Seq<u8>;

    open spec fn view(&self) -> Seq<u8> {
        self.bytes@
    }
}

impl ResourceId {
    /// A second, independent copy of this address.
    pub fn duplicate(&self) -> (r: ResourceId)
        ensures
            r@ == self@,
    {
        ResourceId { bytes: copy_bytes(&self.bytes) }
    }

    /// Whether the two addresses are the same resource.
    pub fn same_as(&self, other: &ResourceId) -> (r: bool)
        ensures
            r == (self@ == other@),
    {
        if self.bytes.len() != other.bytes.len() {
            return false;
        }
        let mut i: usize = 0;
        while i < self.bytes.len()
            invariant
                i <= self@.len(),
                self@.len() == other@.len(),
                self@.subrange(0, i as int) == other@.subrange(0, i as int),
            decreases self@.len() - i,
        {
            if self.bytes[i] != other.bytes[i] {
                assert(self@[i as int] != other@[i as int]);
                return false;
            }
            assert(self@.subrange(0, i + 1) == self@.subrange(0, i as int).push(self@[i as int]));
            assert(other@.subrange(0, i + 1) == other@.subrange(0, i as int).push(other@[i as int]));
            i = i + 1;
        }
        assert(self@ == self@.subrange(0, i as int));
        assert(other@ == other@.subrange(0, i as int));
        true
    }
}

/// The address of the account component that owns a listing.
pub struct AccountId {
    pub bytes: Vec<u8>,
}

impl View for AccountId {
    type V = Seq<u8>;

    open spec fn view(&self) -> Seq<u8> {
        self.bytes@
    }
}

impl AccountId {
    /// A second, independent copy of this address.
    pub fn duplicate(&self) -> (r: AccountId)
        ensures
            r@ == self@,
    {
        AccountId { bytes: copy_bytes(&self.bytes) }
    }
}

/// The abstract value of an asset identifier.
pub struct AssetView {
    pub collection: Seq<u8>,
    pub item: Seq<char>,
}

/// A globally unique asset identifier: the collection it belongs to and the
/// item's own identifier within it, in its canonical text form.
pub struct AssetId {
    pub collection: ResourceId,
    pub item: String,
}

impl View for AssetId {
    type V = AssetView;

    open spec fn view(&self) -> AssetView {
        AssetView { collection: self.collection@, item: self.item@ }
    }
}

impl AssetId {
    /// A second, independent copy of this identifier.
    pub fn duplicate(&self) -> (r: AssetId)
        ensures
            r@ == self@,
    {
        AssetId { collection: self.collection.duplicate(), item: self.item.clone() }
    }
}

/// The abstract value of a listing.
pub struct ListingView {
    pub account: Seq<u8>,
    pub asset: AssetView,
    pub details: Seq<u8>,
}

/// A marketplace offer. Only the owning account and the embedded asset
/// identifier are read here; the rest of the offer (seller, price and so on)
/// is carried along in its encoded form.
pub struct Listing {
    pub outpost_account: AccountId,
    pub nfgid: AssetId,
    pub details: Vec<u8>,
}

impl View for Listing {
    type V = ListingView;

    open spec fn view(&self) -> ListingView {
        ListingView {
            account: self.outpost_account@,
            asset: self.nfgid@,
            details: self.details@,
        }
    }
}

} // verus!
