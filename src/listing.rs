//! One listing of the special-offer rental source, and the identity key by
//! which two snapshots of it are told apart.
use vstd::prelude::*;

verus! {

/// A rental unit as the listing source reports it.
pub struct Bukken {
    pub bukken_id: String,
    pub bukken_name: String,
    pub bukken_link: String,
    pub image: String,
    pub rent_normal: String,
    pub rent_waribiki: String,
    pub commonfee_normal: String,
    pub commonfee_waribiki: String,
    pub span: String,
    pub room_type: String,
    pub floorspace: String,
    pub floor: String,
    pub floor_max: String,
    pub access: String,
    pub tokubetsu_kbn_text: String,
    pub tokubetsu_kbn: String,
    pub rowspan: i32,
    pub shikutyoson_name: String,
}

/// The identity of a listing's state: its id, its normal rent and its
/// grouping weight. Two listings are the same state iff all three match.
pub type KeyView = (Seq<char>, Seq<char>, i32);

/// A persisted record: the identity key of one listing of the last snapshot.
pub struct BukkenKey {
    pub bukken_id: String,
    pub rent_normal: String,
    pub rowspan: i32,
}

impl View for BukkenKey {
    type V = KeyView;

    open spec fn view(&self) -> KeyView {
        (self.bukken_id@, self.rent_normal@, self.rowspan)
    }
}

impl Bukken {
    /// The identity key of this listing.
    pub open spec fn key(&self) -> KeyView {
        (self.bukken_id@, self.rent_normal@, self.rowspan)
    }

    /// The record that persists this listing's identity key.
    pub fn identity_key(&self) -> (r: BukkenKey)
        ensures
            r@ == self.key(),
    {
        BukkenKey {
            bukken_id: self.bukken_id.clone(),
            rent_normal: self.rent_normal.clone(),
            rowspan: self.rowspan,
        }
    }
}

impl BukkenKey {
    /// Whether `b` is in the state that this record remembers.
    pub fn matches(&self, b: &Bukken) -> (r: bool)
        ensures
            r == (self@ == b.key()),
    {
        self.rowspan == b.rowspan && self.bukken_id == b.bukken_id && self.rent_normal
            == b.rent_normal
    }
}

} // verus!
