use vstd::prelude::*;

verus! {

/// The representation a fungible state slot stores its amounts in.
#[derive(Clone, Copy, Debug, PartialEq, Eq, Structural)]
pub enum FungibleType {
    Unsigned64Bit,
}

/// The state kind a schema declares for an owned-state type slot.
#[derive(Clone, Copy, Debug, PartialEq, Eq, Structural)]
pub enum StateSchema {
    Declarative,
    Fungible(FungibleType),
    Structured,
}

/// A permitted global-state type slot: its stable identifier and the
/// semantic type (by its 32-byte semantic identifier) every value accumulated
/// under it must conform to.
#[derive(Clone, Debug)]
pub struct GlobalTypeDef {
    pub id: u16,
    pub sem_id: Vec<u8>,
}

/// A permitted owned-state type slot: its stable identifier and the state
/// kind it stores.
#[derive(Clone, Copy, Debug)]
pub struct OwnedTypeDef {
    pub id: u16,
    pub state_schema: StateSchema,
}

/// A schema: the set of permitted global-state and owned-state type slots,
/// together with the type system that reifies semantic types.  Immutable once
/// loaded; identified by a content-derived identifier.  The accumulation
/// operations ask that the type system be of the basic form produced by
/// [`crate::reify::basic_type_system`].
#[derive(Debug)]
pub struct Schema {
    pub schema_id: Vec<u8>,
    pub global_types: Vec<GlobalTypeDef>,
    pub owned_types: Vec<OwnedTypeDef>,
    pub type_system: strict_types::TypeSystem,
}

/// Position `i` holds the first global-state slot of `defs` with identifier `id`.
pub open spec fn is_first_gtype(defs: Seq<GlobalTypeDef>, id: u16, i: int) -> bool {
    &&& 0 <= i < defs.len()
    &&& defs[i].id == id
    &&& forall|j: int| 0 <= j < i ==> defs[j].id != id
}

/// Some global-state slot of `defs` has identifier `id`.
pub open spec fn has_gtype(defs: Seq<GlobalTypeDef>, id: u16) -> bool {
    exists|i: int| 0 <= i < defs.len() && defs[i].id == id
}

/// The semantic identifier of the first global-state slot of `defs` with
/// identifier `id`.
pub open spec fn gtype_sem(defs: Seq<GlobalTypeDef>, id: u16) -> Seq<u8> {
    defs[choose|i: int| is_first_gtype(defs, id, i)].sem_id@
}

/// Position `i` holds the first owned-state slot of `defs` with identifier `id`.
pub open spec fn is_first_otype(defs: Seq<OwnedTypeDef>, id: u16, i: int) -> bool {
    &&& 0 <= i < defs.len()
    &&& defs[i].id == id
    &&& forall|j: int| 0 <= j < i ==> defs[j].id != id
}

/// Some owned-state slot of `defs` has identifier `id`.
pub open spec fn has_otype(defs: Seq<OwnedTypeDef>, id: u16) -> bool {
    exists|i: int| 0 <= i < defs.len() && defs[i].id == id
}

/// The state kind of the first owned-state slot of `defs` with identifier `id`.
pub open spec fn otype_kind(defs: Seq<OwnedTypeDef>, id: u16) -> StateSchema {
    defs[choose|i: int| is_first_otype(defs, id, i)].state_schema
}

/// Two distinct positions cannot both be the first global-state slot for `id`.
pub proof fn lemma_first_gtype_unique(defs: Seq<GlobalTypeDef>, id: u16, i: int, j: int)
    requires
        is_first_gtype(defs, id, i),
        is_first_gtype(defs, id, j),
    ensures
        i == j,
{
    if i < j {
        assert(defs[i].id != id);
    }
    if j < i {
        assert(defs[j].id != id);
    }
}

/// Two distinct positions cannot both be the first owned-state slot for `id`.
pub proof fn lemma_first_otype_unique(defs: Seq<OwnedTypeDef>, id: u16, i: int, j: int)
    requires
        is_first_otype(defs, id, i),
        is_first_otype(defs, id, j),
    ensures
        i == j,
{
    if i < j {
        assert(defs[i].id != id);
    }
    if j < i {
        assert(defs[j].id != id);
    }
}

impl Schema {
    /// Looks the slot `id` up among the schema's global-state type slots.
    pub fn find_global_type(&self, id: u16) -> (r: Option<&GlobalTypeDef>)
        ensures
            r is Some <==> has_gtype(self.global_types@, id),
            r matches Some(d) ==> d.id == id && d.sem_id@ == gtype_sem(self.global_types@, id),
    {
        let n = self.global_types.len();
        let mut i: usize = 0;
        while i < n
            invariant
                0 <= i <= n,
                n == self.global_types@.len(),
                forall|j: int| 0 <= j < i ==> self.global_types@[j].id != id,
            decreases n - i,
        {
            if self.global_types[i].id == id {
                proof {
                    assert(is_first_gtype(self.global_types@, id, i as int));
                    let k = choose|m: int| is_first_gtype(self.global_types@, id, m);
                    lemma_first_gtype_unique(self.global_types@, id, k, i as int);
                }
                return Some(&self.global_types[i]);
            }
            i = i + 1;
        }
        None
    }

    /// Looks the slot `id` up among the schema's owned-state type slots.
    pub fn find_owned_type(&self, id: u16) -> (r: Option<&OwnedTypeDef>)
        ensures
            r is Some <==> has_otype(self.owned_types@, id),
            r matches Some(d) ==> d.id == id && d.state_schema == otype_kind(
                self.owned_types@,
                id,
            ),
    {
        let n = self.owned_types.len();
        let mut i: usize = 0;
        while i < n
            invariant
                0 <= i <= n,
                n == self.owned_types@.len(),
                forall|j: int| 0 <= j < i ==> self.owned_types@[j].id != id,
            decreases n - i,
        {
            if self.owned_types[i].id == id {
                proof {
                    assert(is_first_otype(self.owned_types@, id, i as int));
                    let k = choose|m: int| is_first_otype(self.owned_types@, id, m);
                    lemma_first_otype_unique(self.owned_types@, id, k, i as int);
                }
                return Some(&self.owned_types[i]);
            }
            i = i + 1;
        }
        None
    }
}

} // verus!
