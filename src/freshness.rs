//! The persisted snapshot and the diff against a newly fetched one.
//!
//! The persisted records mirror exactly the last snapshot: they are replaced
//! whole on every run. A listing is fresh when its identity key is absent
//! from the records as they stood before that replacement.
use crate::listing::{Bukken, BukkenKey, KeyView};
use vstd::prelude::*;

verus! {

/// The identity keys that a list of records holds.
pub open spec fn persisted_keys(records: Seq<BukkenKey>) -> Seq<KeyView> {
    records.map_values(|k: BukkenKey| k@)
}

/// The identity keys of a snapshot, in its order.
pub open spec fn snapshot_key_seq(snapshot: Seq<Bukken>) -> Seq<KeyView> {
    snapshot.map_values(|b: Bukken| b.key())
}

/// Whether `b` counts as new against the persisted keys.
pub open spec fn is_fresh(keys: Seq<KeyView>, b: Bukken) -> bool {
    !keys.contains(b.key())
}

/// The listings of `snapshot` that are new against `keys`, in snapshot order.
pub open spec fn fresh_of(keys: Seq<KeyView>, snapshot: Seq<Bukken>) -> Seq<Bukken> {
    snapshot.filter(|b: Bukken| is_fresh(keys, b))
}

/// Whether some record remembers the state of `b`.
pub fn is_persisted(persisted: &Vec<BukkenKey>, b: &Bukken) -> (r: bool)
    ensures
        r == persisted_keys(persisted@).contains(b.key()),
{
    let mut i: usize = 0;
    while i < persisted.len()
        invariant
            i <= persisted@.len(),
            forall|j: int| 0 <= j < i ==> persisted@[j]@ != b.key(),
        decreases persisted@.len() - i,
    {
        if persisted[i].matches(b) {
            assert(persisted_keys(persisted@)[i as int] == b.key());
            return true;
        }
        i += 1;
    }
    assert(!persisted_keys(persisted@).contains(b.key())) by {
        if persisted_keys(persisted@).contains(b.key()) {
            let j = choose|j: int|
                0 <= j < persisted_keys(persisted@).len() && persisted_keys(persisted@)[j]
                    == b.key();
            assert(persisted@[j]@ == b.key());
        }
    }
    false
}

/// The listings of `bukkens` whose identity key no persisted record holds,
/// in the order of `bukkens`.
pub fn filter_fresh<'a>(persisted: &Vec<BukkenKey>, bukkens: &'a Vec<Bukken>) -> (r: Vec<
    &'a Bukken,
>)
    ensures
        r@.map_values(|b: &Bukken| *b) == fresh_of(persisted_keys(persisted@), bukkens@),
{
    let ghost keys = persisted_keys(persisted@);
    let ghost pred = |b: Bukken| is_fresh(keys, b);
    let mut fresh_bukkens: Vec<&'a Bukken> = Vec::new();
    let mut i: usize = 0;
    while i < bukkens.len()
        invariant
            i <= bukkens@.len(),
            keys == persisted_keys(persisted@),
            pred == (|b: Bukken| is_fresh(keys, b)),
            fresh_bukkens@.map_values(|b: &Bukken| *b) == bukkens@.subrange(0, i as int).filter(
                pred,
            ),
        decreases bukkens@.len() - i,
    {
        let bukken = &bukkens[i];
        let seen = is_persisted(persisted, bukken);
        if !seen {
            fresh_bukkens.push(bukken);
        }
        proof {
            let prefix = bukkens@.subrange(0, i + 1);
            assert(prefix.drop_last() =~= bukkens@.subrange(0, i as int));
            assert(prefix.last() == bukkens@[i as int]);
            reveal_with_fuel(Seq::filter, 1);
            assert(fresh_bukkens@.map_values(|b: &Bukken| *b) =~= prefix.filter(pred));
        }
        i += 1;
    }
    assert(bukkens@.subrange(0, bukkens@.len() as int) =~= bukkens@);
    fresh_bukkens
}

/// The records that mirror `bukkens`: one identity key per listing, in order.
pub fn snapshot_keys(bukkens: &Vec<Bukken>) -> (r: Vec<BukkenKey>)
    ensures
        persisted_keys(r@) == snapshot_key_seq(bukkens@),
{
    let mut keys: Vec<BukkenKey> = Vec::new();
    let mut i: usize = 0;
    while i < bukkens.len()
        invariant
            i <= bukkens@.len(),
            keys@.len() == i,
            persisted_keys(keys@) =~= snapshot_key_seq(bukkens@.subrange(0, i as int)),
        decreases bukkens@.len() - i,
    {
        let key = bukkens[i].identity_key();
        let ghost before = keys@;
        keys.push(key);
        proof {
            let prefix = bukkens@.subrange(0, i + 1);
            assert(keys@ == before.push(key));
            assert(persisted_keys(keys@)[i as int] == prefix[i as int].key());
            assert(forall|j: int|
                0 <= j < i ==> #[trigger] persisted_keys(keys@)[j] == persisted_keys(before)[j]);
            assert(persisted_keys(keys@) =~= snapshot_key_seq(prefix));
        }
        i += 1;
    }
    assert(bukkens@.subrange(0, bukkens@.len() as int) =~= bukkens@);
    keys
}

/// A run right after another, on an unchanged snapshot, finds nothing
/// fresh: the first run committed every listing's identity key.
pub proof fn lemma_rerun_finds_nothing(snapshot: Seq<Bukken>)
    ensures
        fresh_of(snapshot_key_seq(snapshot), snapshot) == Seq::<Bukken>::empty(),
{
    let keys = snapshot_key_seq(snapshot);
    let pred = |b: Bukken| is_fresh(keys, b);
    let fresh = snapshot.filter(pred);
    if fresh.len() > 0 {
        snapshot.lemma_filter_pred(pred, 0);
        assert(fresh.contains(fresh[0]));
        snapshot.lemma_filter_contains_rev(pred, fresh[0]);
        let j = choose|j: int| 0 <= j < snapshot.len() && snapshot[j] == fresh[0];
        assert(keys[j] == fresh[0].key());
    }
    assert(fresh =~= Seq::<Bukken>::empty());
}

} // verus!
