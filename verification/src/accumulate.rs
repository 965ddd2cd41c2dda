use vstd::prelude::*;

use crate::seal::{seal_eq, Outpoint};
use crate::state::RevealedFungible;

verus! {

/// The largest number of seal-to-value entries one fungible slot may hold.
pub const MAX_SLOT_ENTRIES: usize = 255;

/// One global-state slot of the accumulator: the schema type-slot identifier
/// and the serialized values accumulated under it, in call order.
#[derive(Clone, Debug)]
pub struct GlobalEntry {
    pub id: u16,
    pub values: Vec<Vec<u8>>,
}

/// One revealed fungible assignment: the seal it is bound to and the revealed
/// value it carries.
#[derive(Clone, Debug)]
pub struct SealedAssign {
    pub seal: Outpoint,
    pub state: RevealedFungible,
}

/// One fungible owned-state slot of the accumulator: the schema type-slot
/// identifier and the assignments accumulated under it, in call order.
#[derive(Clone, Debug)]
pub struct FungibleEntry {
    pub id: u16,
    pub assignments: Vec<SealedAssign>,
}

/// Position `i` holds the first global slot of `s` with identifier `id`.
pub open spec fn is_first_gslot(s: Seq<GlobalEntry>, id: u16, i: int) -> bool {
    &&& 0 <= i < s.len()
    &&& s[i].id == id
    &&& forall|j: int| 0 <= j < i ==> s[j].id != id
}

/// The accumulator holds a global slot with identifier `id`.
pub open spec fn has_gslot(s: Seq<GlobalEntry>, id: u16) -> bool {
    exists|i: int| 0 <= i < s.len() && s[i].id == id
}

/// The position of the first global slot of `s` with identifier `id`.
pub open spec fn gslot_at(s: Seq<GlobalEntry>, id: u16) -> int {
    choose|i: int| is_first_gslot(s, id, i)
}

/// The serialized values a global slot holds; empty when the slot does not exist.
pub open spec fn gslot_values(s: Seq<GlobalEntry>, id: u16) -> Seq<Vec<u8>> {
    if has_gslot(s, id) {
        s[gslot_at(s, id)].values@
    } else {
        Seq::empty()
    }
}

/// Position `i` holds the first fungible slot of `s` with identifier `id`.
pub open spec fn is_first_fslot(s: Seq<FungibleEntry>, id: u16, i: int) -> bool {
    &&& 0 <= i < s.len()
    &&& s[i].id == id
    &&& forall|j: int| 0 <= j < i ==> s[j].id != id
}

/// The accumulator holds a fungible slot with identifier `id`.
pub open spec fn has_fslot(s: Seq<FungibleEntry>, id: u16) -> bool {
    exists|i: int| 0 <= i < s.len() && s[i].id == id
}

/// The position of the first fungible slot of `s` with identifier `id`.
pub open spec fn fslot_at(s: Seq<FungibleEntry>, id: u16) -> int {
    choose|i: int| is_first_fslot(s, id, i)
}

/// The assignments a fungible slot holds; empty when the slot does not exist.
pub open spec fn fslot_assigns(s: Seq<FungibleEntry>, id: u16) -> Seq<SealedAssign> {
    if has_fslot(s, id) {
        s[fslot_at(s, id)].assignments@
    } else {
        Seq::empty()
    }
}

/// Some assignment of `assigns` is bound to the transaction output `seal`.
pub open spec fn slot_has_seal(assigns: Seq<SealedAssign>, seal: Outpoint) -> bool {
    exists|i: int| 0 <= i < assigns.len() && seal_eq(assigns[i].seal, seal)
}

/// The global-state accumulator is well formed: slot identifiers are unique
/// and no slot, once created, is empty.
pub open spec fn global_wf(s: Seq<GlobalEntry>) -> bool {
    &&& forall|i: int, j: int| 0 <= i < j < s.len() ==> s[i].id != s[j].id
    &&& forall|i: int| 0 <= i < s.len() ==> s[i].values@.len() >= 1
}

/// The fungible accumulator is well formed: slot identifiers are unique and
/// every slot holds between one and [`MAX_SLOT_ENTRIES`] assignments, bound
/// to pairwise distinct seals, each with a full-length blinding factor.
pub open spec fn fungible_wf(s: Seq<FungibleEntry>) -> bool {
    &&& forall|i: int, j: int| 0 <= i < j < s.len() ==> s[i].id != s[j].id
    &&& forall|i: int|
        0 <= i < s.len() ==> 1 <= #[trigger] s[i].assignments@.len() <= MAX_SLOT_ENTRIES
    &&& forall|i: int, a: int, b: int|
        0 <= i < s.len() && 0 <= a < b < s[i].assignments@.len() ==> !seal_eq(
            #[trigger] s[i].assignments@[a].seal,
            #[trigger] s[i].assignments@[b].seal,
        )
    &&& forall|i: int, a: int|
        0 <= i < s.len() && 0 <= a < s[i].assignments@.len() ==> (#[trigger] s[i].assignments@[a].state).wf()
}

/// Assignment `a` reveals `value` at `seal` under some full-length blinding factor.
pub open spec fn assign_reveals(a: SealedAssign, seal: Outpoint, value: u64) -> bool {
    &&& seal_eq(a.seal, seal)
    &&& a.state.value == value
    &&& a.state.wf()
}

/// How a successful global accumulation changes the accumulator: the value is
/// appended under the resolved slot, existing slots are otherwise untouched,
/// and a missing slot is created with exactly this one value.
pub open spec fn global_added(s: Seq<GlobalEntry>, id: u16, value: Vec<u8>, t: Seq<
    GlobalEntry,
>) -> bool {
    if has_gslot(s, id) {
        let k = gslot_at(s, id);
        &&& t.len() == s.len()
        &&& forall|m: int| 0 <= m < s.len() && m != k ==> t[m] == s[m]
        &&& t[k].id == s[k].id
        &&& t[k].values@ == s[k].values@.push(value)
    } else {
        &&& t.len() == s.len() + 1
        &&& t.drop_last() == s
        &&& t.last().id == id
        &&& t.last().values@ =~= seq![value]
    }
}

/// How a successful fungible accumulation changes the accumulator: one
/// assignment revealing `value` at `seal` is appended under the resolved
/// slot, existing slots are otherwise untouched, and a missing slot is
/// created with exactly this one assignment.
pub open spec fn fungible_added(
    s: Seq<FungibleEntry>,
    id: u16,
    seal: Outpoint,
    value: u64,
    t: Seq<FungibleEntry>,
) -> bool {
    if has_fslot(s, id) {
        let k = fslot_at(s, id);
        &&& t.len() == s.len()
        &&& forall|m: int| 0 <= m < s.len() && m != k ==> t[m] == s[m]
        &&& t[k].id == s[k].id
        &&& t[k].assignments@.len() == s[k].assignments@.len() + 1
        &&& t[k].assignments@.drop_last() == s[k].assignments@
        &&& assign_reveals(t[k].assignments@.last(), seal, value)
    } else {
        &&& t.len() == s.len() + 1
        &&& t.drop_last() == s
        &&& t.last().id == id
        &&& t.last().assignments@.len() == 1
        &&& assign_reveals(t.last().assignments@[0], seal, value)
    }
}

/// Two distinct positions cannot both be the first global slot for `id`.
pub proof fn lemma_first_gslot_unique(s: Seq<GlobalEntry>, id: u16, i: int, j: int)
    requires
        is_first_gslot(s, id, i),
        is_first_gslot(s, id, j),
    ensures
        i == j,
{
    if i < j {
        assert(s[i].id != id);
    }
    if j < i {
        assert(s[j].id != id);
    }
}

/// Two distinct positions cannot both be the first fungible slot for `id`.
pub proof fn lemma_first_fslot_unique(s: Seq<FungibleEntry>, id: u16, i: int, j: int)
    requires
        is_first_fslot(s, id, i),
        is_first_fslot(s, id, j),
    ensures
        i == j,
{
    if i < j {
        assert(s[i].id != id);
    }
    if j < i {
        assert(s[j].id != id);
    }
}

/// Finds the global slot with identifier `id`, if any.
pub fn find_gslot(entries: &Vec<GlobalEntry>, id: u16) -> (r: Option<usize>)
    ensures
        r is Some <==> has_gslot(entries@, id),
        r matches Some(k) ==> is_first_gslot(entries@, id, k as int) && k as int == gslot_at(
            entries@,
            id,
        ),
{
    let n = entries.len();
    let mut i: usize = 0;
    while i < n
        invariant
            0 <= i <= n,
            n == entries@.len(),
            forall|j: int| 0 <= j < i ==> entries@[j].id != id,
        decreases n - i,
    {
        if entries[i].id == id {
            proof {
                assert(is_first_gslot(entries@, id, i as int));
                let k = choose|m: int| is_first_gslot(entries@, id, m);
                lemma_first_gslot_unique(entries@, id, k, i as int);
            }
            return Some(i);
        }
        i = i + 1;
    }
    None
}

/// Finds the fungible slot with identifier `id`, if any.
pub fn find_fslot(entries: &Vec<FungibleEntry>, id: u16) -> (r: Option<usize>)
    ensures
        r is Some <==> has_fslot(entries@, id),
        r matches Some(k) ==> is_first_fslot(entries@, id, k as int) && k as int == fslot_at(
            entries@,
            id,
        ),
{
    let n = entries.len();
    let mut i: usize = 0;
    while i < n
        invariant
            0 <= i <= n,
            n == entries@.len(),
            forall|j: int| 0 <= j < i ==> entries@[j].id != id,
        decreases n - i,
    {
        if entries[i].id == id {
            proof {
                assert(is_first_fslot(entries@, id, i as int));
                let k = choose|m: int| is_first_fslot(entries@, id, m);
                lemma_first_fslot_unique(entries@, id, k, i as int);
            }
            return Some(i);
        }
        i = i + 1;
    }
    None
}

/// Decides whether `assigns` already binds state to `seal`.
pub fn assigns_have_seal(assigns: &Vec<SealedAssign>, seal: &Outpoint) -> (r: bool)
    ensures
        r <==> slot_has_seal(assigns@, *seal),
{
    let n = assigns.len();
    let mut i: usize = 0;
    while i < n
        invariant
            0 <= i <= n,
            n == assigns@.len(),
            forall|j: int| 0 <= j < i ==> !seal_eq(assigns@[j].seal, *seal),
        decreases n - i,
    {
        if assigns[i].seal.same_output(seal) {
            return true;
        }
        i = i + 1;
    }
    false
}

} // verus!
