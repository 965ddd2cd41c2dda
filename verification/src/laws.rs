use vstd::prelude::*;

use crate::accumulate::{
    fslot_assigns, fslot_at, fungible_added, fungible_wf, global_added, global_wf, gslot_at,
    gslot_values, has_fslot, has_gslot, is_first_fslot, is_first_gslot, lemma_first_fslot_unique,
    lemma_first_gslot_unique, slot_has_seal, FungibleEntry, GlobalEntry, MAX_SLOT_ENTRIES,
};
use crate::seal::{seal_eq, Outpoint};

verus! {

/// In a well-formed accumulator, the slot an identifier resolves to is the
/// first — and only — slot bearing it.
pub proof fn lemma_gslot_at_resolves(s: Seq<GlobalEntry>, id: u16)
    requires
        global_wf(s),
        has_gslot(s, id),
    ensures
        is_first_gslot(s, id, gslot_at(s, id)),
{
    let w = choose|i: int| 0 <= i < s.len() && s[i].id == id;
    assert(is_first_gslot(s, id, w));
}

/// In a well-formed accumulator, the slot an identifier resolves to is the
/// first — and only — slot bearing it.
pub proof fn lemma_fslot_at_resolves(s: Seq<FungibleEntry>, id: u16)
    requires
        fungible_wf(s),
        has_fslot(s, id),
    ensures
        is_first_fslot(s, id, fslot_at(s, id)),
{
    let w = choose|i: int| 0 <= i < s.len() && s[i].id == id;
    assert(is_first_fslot(s, id, w));
}

/// Global state is additive: accumulating `v1` and then `v2` under the same
/// slot leaves the slot holding both serialized values, in call order,
/// neither overwriting the other — whatever the slot already held.
pub proof fn lemma_global_additivity(
    s0: Seq<GlobalEntry>,
    s1: Seq<GlobalEntry>,
    s2: Seq<GlobalEntry>,
    id: u16,
    v1: Vec<u8>,
    v2: Vec<u8>,
)
    requires
        global_wf(s0),
        global_wf(s1),
        global_added(s0, id, v1, s1),
        global_added(s1, id, v2, s2),
    ensures
        gslot_values(s2, id) == gslot_values(s0, id).push(v1).push(v2),
{
    if has_gslot(s0, id) {
        lemma_gslot_at_resolves(s0, id);
        let k = gslot_at(s0, id);
        assert(is_first_gslot(s1, id, k));
        lemma_gslot_at_resolves(s1, id);
        lemma_first_gslot_unique(s1, id, gslot_at(s1, id), k);
        assert(s1[k].values@ == s0[k].values@.push(v1));
        assert(is_first_gslot(s2, id, k)) by {
            assert(forall|j: int| 0 <= j < k ==> s2[j] == s1[j]);
        }
        assert(has_gslot(s2, id));
        lemma_first_gslot_unique(s2, id, choose|i: int| is_first_gslot(s2, id, i), k);
        assert(gslot_values(s2, id) == s2[k].values@);
        assert(s2[k].values@ == s1[k].values@.push(v2));
    } else {
        let n0 = s0.len() as int;
        assert(s1.drop_last() == s0);
        assert(forall|j: int| 0 <= j < n0 ==> s1[j] == s0[j]);
        assert(is_first_gslot(s1, id, n0));
        lemma_gslot_at_resolves(s1, id);
        lemma_first_gslot_unique(s1, id, gslot_at(s1, id), n0);
        assert(s1[n0].values@ =~= seq![v1]);
        assert(is_first_gslot(s2, id, n0)) by {
            assert(forall|j: int| 0 <= j < n0 ==> s2[j] == s1[j]);
        }
        assert(has_gslot(s2, id));
        lemma_first_gslot_unique(s2, id, choose|i: int| is_first_gslot(s2, id, i), n0);
        assert(gslot_values(s2, id) == s2[n0].values@);
        assert(s2[n0].values@ == s1[n0].values@.push(v2));
        assert(gslot_values(s0, id) =~= Seq::<Vec<u8>>::empty());
        assert(gslot_values(s0, id).push(v1) =~= s1[n0].values@);
    }
}

/// Seals are unique per fungible slot: once an accumulation bound state to a
/// seal, that slot contains the seal, so by the accumulation contract a
/// repeated call with the same seal is refused with the duplicate-key error
/// and leaves the builder exactly as it was.
pub proof fn lemma_fungible_duplicate_refused(
    s0: Seq<FungibleEntry>,
    s1: Seq<FungibleEntry>,
    id: u16,
    seal: Outpoint,
    value: u64,
)
    requires
        fungible_wf(s0),
        fungible_wf(s1),
        fungible_added(s0, id, seal, value, s1),
    ensures
        slot_has_seal(fslot_assigns(s1, id), seal),
{
    if has_fslot(s0, id) {
        lemma_fslot_at_resolves(s0, id);
        let k = fslot_at(s0, id);
        assert(is_first_fslot(s1, id, k));
        lemma_fslot_at_resolves(s1, id);
        lemma_first_fslot_unique(s1, id, fslot_at(s1, id), k);
        let a = s1[k].assignments@;
        assert(seal_eq(a.last().seal, seal));
        assert(slot_has_seal(a, seal)) by {
            assert(0 <= a.len() - 1 < a.len() && seal_eq(a[a.len() - 1].seal, seal));
        }
    } else {
        let n0 = s0.len() as int;
        assert(s1.drop_last() == s0);
        assert(forall|j: int| 0 <= j < n0 ==> s1[j] == s0[j]);
        assert(is_first_fslot(s1, id, n0));
        lemma_fslot_at_resolves(s1, id);
        lemma_first_fslot_unique(s1, id, fslot_at(s1, id), n0);
        let a = s1[n0].assignments@;
        assert(seal_eq(a[0].seal, seal));
        assert(slot_has_seal(a, seal));
    }
}

/// A fungible slot, once created, never holds zero seal-to-value entries and
/// never exceeds the bound of [`MAX_SLOT_ENTRIES`] entries.
pub proof fn lemma_fungible_slot_bounds(s: Seq<FungibleEntry>, id: u16)
    requires
        fungible_wf(s),
        has_fslot(s, id),
    ensures
        1 <= fslot_assigns(s, id).len() <= MAX_SLOT_ENTRIES,
{
    lemma_fslot_at_resolves(s, id);
}

} // verus!
