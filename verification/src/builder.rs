use vstd::prelude::*;

use crate::accumulate::{
    assigns_have_seal, find_fslot, find_gslot, fslot_assigns, fungible_added, fungible_wf,
    global_added, global_wf, slot_has_seal, FungibleEntry, GlobalEntry, SealedAssign,
    MAX_SLOT_ENTRIES,
};
use crate::chain::Chain;
use crate::contract::{
    entry_from_slot, AssignmentEntry, Contract, Genesis, IfacePair, TypedAssigns,
};
use crate::interface::{field_id, has_field, resolve_field, Iface, IfaceImpl};
use crate::reify::{reify_check, ts_accepts, ts_basic};
use crate::schema::{
    gtype_sem, has_gtype, has_otype, otype_kind, FungibleType, Schema, StateSchema,
};
use crate::seal::Outpoint;
use crate::state::RevealedFungible;

verus! {

/// The largest serialized size a global-state value may have.
pub const MAX_SERIALIZED_LEN: usize = 65535;

/// Why a builder could not be constructed.  The two mismatches are mutually
/// exclusive: the interface binding is checked first, and the schema binding
/// only once the interface binding holds.
#[derive(Clone, Copy, Debug, PartialEq, Eq, Structural)]
pub enum ForgeError {
    /// The implementation references a different interface than the one
    /// provided to the builder.
    InterfaceMismatch,
    /// The implementation references a different schema than the one provided
    /// to the builder.
    SchemaMismatch,
}

/// Why a bounded collection refused an insertion.
#[derive(Clone, Copy, Debug, PartialEq, Eq, Structural)]
pub enum ConfinementError {
    /// The key to insert under is already present.
    KeyAlreadyPresent,
    /// The insertion would grow the collection beyond its upper bound.
    Oversize { max: usize },
}

/// Why an accumulation call was refused.
#[derive(Clone, Debug, PartialEq, Eq)]
pub enum BuilderError {
    /// The field name is not known to the implementation.
    TypeNotFound(String),
    /// The field resolves, but the schema declares a state kind the provided
    /// state does not have.
    InvalidStateType(String),
    /// The serialized value exceeds the codec's size bound; `len` is the
    /// offending length.
    StrictEncode { len: usize },
    /// The type-system engine rejected the serialized bytes against the
    /// slot's semantic type; the payload is the engine's message.
    Reify(String),
    /// A bounded collection refused the insertion.
    Confinement(ConfinementError),
}

/// Why finalization failed.  Finalization currently cannot fail: its error
/// taxonomy is empty.  An uninhabited type cannot be declared here, so this
/// stands in as a carrier of no information: no value of it is ever
/// produced — `issue_contract` ensures success — and it exists only so that
/// callers already handle a result.
#[derive(Clone, Copy, Debug, PartialEq, Eq, Structural)]
pub struct IssueError;

/// An incremental builder of a contract's genesis state.  It owns a schema,
/// an interface and an implementation binding the two, and accumulators for
/// the chain selection, the global state and the fungible owned state.
///
/// The fields are public so that contracts, callers and tests can speak of
/// them; the stated well-formedness is an invariant of the operations below,
/// and code that edits the accumulators by hand is outside its protection.
#[derive(Debug)]
pub struct ContractBuilder {
    pub schema: Schema,
    pub iface: Iface,
    pub iimpl: IfaceImpl,
    pub chain: Chain,
    pub global: Vec<GlobalEntry>,
    pub fungible: Vec<FungibleEntry>,
}

impl ContractBuilder {
    /// The accumulators are well formed: unique slot identifiers, and every
    /// fungible slot non-empty, within bounds and free of duplicate seals.
    pub open spec fn wf(self) -> bool {
        &&& global_wf(self.global@)
        &&& fungible_wf(self.fungible@)
    }

    /// Every global field the implementation binds resolves, once `name` is
    /// accepted, to a slot the schema declares, with a full-length semantic
    /// identifier.  Construction defers this consistency check, so the
    /// accumulation calls assume it; its absence would be a programming
    /// error of the issuer, not a user-facing failure.
    pub open spec fn global_slot_known(self, name: Seq<char>) -> bool {
        has_field(self.iimpl.global_state@, name) ==> {
            let rid = field_id(self.iimpl.global_state@, name);
            &&& has_gtype(self.schema.global_types@, rid)
            &&& gtype_sem(self.schema.global_types@, rid).len() == 32
        }
    }

    /// Every owned field the implementation binds resolves, once `name` is
    /// accepted, to a slot the schema declares.
    pub open spec fn owned_slot_known(self, name: Seq<char>) -> bool {
        has_field(self.iimpl.owned_state@, name) ==> has_otype(
            self.schema.owned_types@,
            field_id(self.iimpl.owned_state@, name),
        )
    }

    /// Constructs a builder over `schema`, exposed through `iface` as bound
    /// by `iimpl`.  Succeeds exactly when the implementation references the
    /// identifiers of both: the interface binding is checked first, and on
    /// its failure the schema binding is not examined.  The inputs' internal
    /// well-formedness is deliberately not validated here.
    pub fn with(iface: Iface, schema: Schema, iimpl: IfaceImpl) -> (r: Result<
        ContractBuilder,
        ForgeError,
    >)
        ensures
            (r matches Err(ForgeError::InterfaceMismatch)) <==> iimpl.iface_id@
                != iface.iface_id@,
            (r matches Err(ForgeError::SchemaMismatch)) <==> (iimpl.iface_id@ == iface.iface_id@
                && iimpl.schema_id@ != schema.schema_id@),
            r is Ok <==> (iimpl.iface_id@ == iface.iface_id@ && iimpl.schema_id@
                == schema.schema_id@),
            r matches Ok(b) ==> {
                &&& b.schema == schema
                &&& b.iface == iface
                &&& b.iimpl == iimpl
                &&& b.chain == Chain::Testnet3
                &&& b.global@ =~= Seq::<GlobalEntry>::empty()
                &&& b.fungible@ =~= Seq::<FungibleEntry>::empty()
                &&& b.wf()
            },
    {
        let iface_ids_match = iimpl.iface_id == iface.iface_id;
        proof {
            if iface_ids_match {
                assert(iimpl.iface_id@ =~= iface.iface_id@);
            }
        }
        if !iface_ids_match {
            return Err(ForgeError::InterfaceMismatch);
        }
        let schema_ids_match = iimpl.schema_id == schema.schema_id;
        proof {
            if schema_ids_match {
                assert(iimpl.schema_id@ =~= schema.schema_id@);
            }
        }
        if !schema_ids_match {
            return Err(ForgeError::SchemaMismatch);
        }
        Ok(ContractBuilder {
            schema,
            iface,
            iimpl,
            chain: Chain::default(),
            global: Vec::new(),
            fungible: Vec::new(),
        })
    }

    /// Overwrites the chain selector; a pure value transform with no failure
    /// mode, safe to call any number of times — the last call wins.
    pub fn set_chain(self, chain: Chain) -> (r: Self)
        ensures
            r.schema == self.schema,
            r.iface == self.iface,
            r.iimpl == self.iimpl,
            r.chain == chain,
            r.global == self.global,
            r.fungible == self.fungible,
    {
        ContractBuilder { chain, ..self }
    }

    /// Accumulates one serialized global-state value under the field `name`.
    ///
    /// The serialized size is bounded first (as the codec bounds it), then
    /// the name is resolved through the implementation, then the bytes are
    /// reified against the slot's semantic type; only then is the value
    /// appended, additively, under the resolved slot.  On any failure the
    /// builder is left exactly as it was.
    ///
    /// The schema's type system must be of the basic form produced by
    /// [`crate::reify::basic_type_system`]: the engine's decoder does not
    /// return on every system a caller could assemble by hand.
    pub fn add_global_state(&mut self, name: String, value: Vec<u8>) -> (r: Result<
        (),
        BuilderError,
    >)
        requires
            old(self).wf(),
            old(self).global_slot_known(name@),
            ts_basic(old(self).schema.type_system),
        ensures
            value@.len() > MAX_SERIALIZED_LEN ==> (r matches Err(BuilderError::StrictEncode {
                len,
            }) && len == value@.len() && *final(self) == *old(self)),
            (value@.len() <= MAX_SERIALIZED_LEN && !has_field(
                old(self).iimpl.global_state@,
                name@,
            )) ==> (r matches Err(BuilderError::TypeNotFound(n)) && n@ == name@ && *final(self) == *old(
                self,
            )),
            (value@.len() <= MAX_SERIALIZED_LEN && has_field(old(self).iimpl.global_state@, name@)
                && !ts_accepts(
                old(self).schema.type_system,
                gtype_sem(
                    old(self).schema.global_types@,
                    field_id(old(self).iimpl.global_state@, name@),
                ),
                value@,
            )) ==> (r matches Err(BuilderError::Reify(_)) && *final(self) == *old(self)),
            r is Ok <==> (value@.len() <= MAX_SERIALIZED_LEN && has_field(
                old(self).iimpl.global_state@,
                name@,
            ) && ts_accepts(
                old(self).schema.type_system,
                gtype_sem(
                    old(self).schema.global_types@,
                    field_id(old(self).iimpl.global_state@, name@),
                ),
                value@,
            )),
            r is Ok ==> {
                &&& global_added(
                    old(self).global@,
                    field_id(old(self).iimpl.global_state@, name@),
                    value,
                    final(self).global@,
                )
                &&& final(self).schema == old(self).schema
                &&& final(self).iface == old(self).iface
                &&& final(self).iimpl == old(self).iimpl
                &&& final(self).chain == old(self).chain
                &&& final(self).fungible == old(self).fungible
                &&& final(self).wf()
            },
    {
        if value.len() > MAX_SERIALIZED_LEN {
            return Err(BuilderError::StrictEncode { len: value.len() });
        }
        let id = match resolve_field(&self.iimpl.global_state, &name) {
            Some(id) => id,
            None => {
                return Err(BuilderError::TypeNotFound(name));
            },
        };
        let sem_id = match self.schema.find_global_type(id) {
            Some(def) => &def.sem_id,
            None => {
                // Ruled out by the precondition: the slot the implementation
                // maps an accepted name to is declared by the schema.
                proof {
                    assert(false);
                }
                return Err(BuilderError::TypeNotFound(name));
            },
        };
        match reify_check(&self.schema.type_system, sem_id, &value) {
            Ok(()) => {},
            Err(msg) => {
                return Err(BuilderError::Reify(msg));
            },
        }
        match find_gslot(&self.global, id) {
            Some(k) => {
                let ghost before = self.global@;
                let mut entry = self.global.remove(k);
                entry.values.push(value);
                self.global.insert(k, entry);
                proof {
                    assert(self.global@ =~= before.update(
                        k as int,
                        GlobalEntry { id: before[k as int].id, values: entry.values },
                    ));
                }
            },
            None => {
                let ghost before = self.global@;
                let mut values: Vec<Vec<u8>> = Vec::new();
                values.push(value);
                self.global.push(GlobalEntry { id, values });
                proof {
                    assert(self.global@.drop_last() =~= before);
                }
            },
        }
        Ok(())
    }

    /// Accumulates one fungible owned-state assignment of `value` to the
    /// transaction output `seal`, under the field `name`.
    ///
    /// The name is resolved through the implementation, the slot's state kind
    /// is checked to be exactly 64-bit-unsigned fungible, and only then is a
    /// revealed value built under a fresh blinding factor and inserted: a
    /// duplicate seal or a slot already at its bound refuses the insertion.
    /// On any failure the builder is left exactly as it was.
    pub fn add_fungible_state(&mut self, name: String, seal: Outpoint, value: u64) -> (r: Result<
        (),
        BuilderError,
    >)
        requires
            old(self).wf(),
            old(self).owned_slot_known(name@),
        ensures
            !has_field(old(self).iimpl.owned_state@, name@) ==> (r matches Err(
                BuilderError::TypeNotFound(n),
            ) && n@ == name@ && *final(self) == *old(self)),
            (has_field(old(self).iimpl.owned_state@, name@) && otype_kind(
                old(self).schema.owned_types@,
                field_id(old(self).iimpl.owned_state@, name@),
            ) != StateSchema::Fungible(FungibleType::Unsigned64Bit)) ==> (r matches Err(
                BuilderError::InvalidStateType(n),
            ) && n@ == name@ && *final(self) == *old(self)),
            (has_field(old(self).iimpl.owned_state@, name@) && otype_kind(
                old(self).schema.owned_types@,
                field_id(old(self).iimpl.owned_state@, name@),
            ) == StateSchema::Fungible(FungibleType::Unsigned64Bit) && slot_has_seal(
                fslot_assigns(
                    old(self).fungible@,
                    field_id(old(self).iimpl.owned_state@, name@),
                ),
                seal,
            )) ==> (r matches Err(BuilderError::Confinement(ConfinementError::KeyAlreadyPresent))
                && *final(self) == *old(self)),
            (has_field(old(self).iimpl.owned_state@, name@) && otype_kind(
                old(self).schema.owned_types@,
                field_id(old(self).iimpl.owned_state@, name@),
            ) == StateSchema::Fungible(FungibleType::Unsigned64Bit) && !slot_has_seal(
                fslot_assigns(
                    old(self).fungible@,
                    field_id(old(self).iimpl.owned_state@, name@),
                ),
                seal,
            ) && fslot_assigns(
                old(self).fungible@,
                field_id(old(self).iimpl.owned_state@, name@),
            ).len() >= MAX_SLOT_ENTRIES) ==> (r matches Err(BuilderError::Confinement(
                ConfinementError::Oversize { max },
            )) && max == MAX_SLOT_ENTRIES && *final(self) == *old(self)),
            r is Ok <==> (has_field(old(self).iimpl.owned_state@, name@) && otype_kind(
                old(self).schema.owned_types@,
                field_id(old(self).iimpl.owned_state@, name@),
            ) == StateSchema::Fungible(FungibleType::Unsigned64Bit) && !slot_has_seal(
                fslot_assigns(
                    old(self).fungible@,
                    field_id(old(self).iimpl.owned_state@, name@),
                ),
                seal,
            ) && fslot_assigns(
                old(self).fungible@,
                field_id(old(self).iimpl.owned_state@, name@),
            ).len() < MAX_SLOT_ENTRIES),
            r is Ok ==> {
                &&& fungible_added(
                    old(self).fungible@,
                    field_id(old(self).iimpl.owned_state@, name@),
                    seal,
                    value,
                    final(self).fungible@,
                )
                &&& final(self).schema == old(self).schema
                &&& final(self).iface == old(self).iface
                &&& final(self).iimpl == old(self).iimpl
                &&& final(self).chain == old(self).chain
                &&& final(self).global == old(self).global
                &&& final(self).wf()
            },
    {
        let id = match resolve_field(&self.iimpl.owned_state, &name) {
            Some(id) => id,
            None => {
                return Err(BuilderError::TypeNotFound(name));
            },
        };
        let kind = match self.schema.find_owned_type(id) {
            Some(def) => def.state_schema,
            None => {
                // Ruled out by the precondition: the slot the implementation
                // maps an accepted name to is declared by the schema.
                proof {
                    assert(false);
                }
                return Err(BuilderError::TypeNotFound(name));
            },
        };
        if kind != StateSchema::Fungible(FungibleType::Unsigned64Bit) {
            return Err(BuilderError::InvalidStateType(name));
        }
        match find_fslot(&self.fungible, id) {
            Some(k) => {
                if assigns_have_seal(&self.fungible[k].assignments, &seal) {
                    return Err(BuilderError::Confinement(ConfinementError::KeyAlreadyPresent));
                }
                if self.fungible[k].assignments.len() >= MAX_SLOT_ENTRIES {
                    return Err(BuilderError::Confinement(ConfinementError::Oversize {
                        max: MAX_SLOT_ENTRIES,
                    }));
                }
                let state = RevealedFungible::new(value);
                let ghost before = self.fungible@;
                let mut entry = self.fungible.remove(k);
                entry.assignments.push(SealedAssign { seal, state });
                self.fungible.insert(k, entry);
                proof {
                    assert(entry.assignments@.drop_last() =~= before[k as int].assignments@);
                    assert(self.fungible@ =~= before.update(
                        k as int,
                        FungibleEntry { id: before[k as int].id, assignments: entry.assignments },
                    ));
                    assert(fungible_added(before, id, seal, value, self.fungible@));
                    assert(fungible_wf(self.fungible@));
                }
            },
            None => {
                let state = RevealedFungible::new(value);
                let ghost before = self.fungible@;
                let mut assignments: Vec<SealedAssign> = Vec::new();
                assignments.push(SealedAssign { seal, state });
                self.fungible.push(FungibleEntry { id, assignments });
                proof {
                    assert(self.fungible@.drop_last() =~= before);
                    assert(fungible_added(before, id, seal, value, self.fungible@));
                    assert(fungible_wf(self.fungible@));
                }
            },
        }
        Ok(())
    }

    /// Finalizes the accumulated state into an immutable contract document.
    ///
    /// Performs no further validation (deliberately deferred to a downstream
    /// validator): every fungible accumulator slot becomes a typed fungible
    /// assignment set, and the genesis is assembled with the default format
    /// version, the schema's identifier, the configured chain, the global
    /// state, no metadata and no valencies.  Finalization cannot fail.
    pub fn issue_contract(self) -> (r: Result<Contract, IssueError>)
        ensures
            r is Ok,
            r matches Ok(c) ==> {
                &&& c.schema == self.schema
                &&& c.ifaces.iface == self.iface
                &&& c.ifaces.iimpl == self.iimpl
                &&& c.genesis.ffv == 0
                &&& c.genesis.schema_id@ == self.schema.schema_id@
                &&& c.genesis.chain == self.chain
                &&& c.genesis.metadata is None
                &&& c.genesis.globals == self.global
                &&& c.genesis.valencies@.len() == 0
                &&& c.genesis.assignments@.len() == self.fungible@.len()
                &&& forall|i: int|
                    0 <= i < self.fungible@.len() ==> entry_from_slot(
                        #[trigger] c.genesis.assignments@[i],
                        self.fungible@[i],
                    )
            },
    {
        let ContractBuilder { schema, iface, iimpl, chain, global, fungible } = self;
        let ghost orig = fungible@;
        let mut remaining = fungible;
        let mut assignments: Vec<AssignmentEntry> = Vec::new();
        while remaining.len() > 0
            invariant
                assignments@.len() + remaining@.len() == orig.len(),
                remaining@ =~= orig.skip(assignments@.len() as int),
                forall|m: int|
                    0 <= m < assignments@.len() ==> entry_from_slot(
                        #[trigger] assignments@[m],
                        orig[m],
                    ),
            decreases remaining@.len(),
        {
            let ghost done = assignments@.len() as int;
            let slot = remaining.remove(0);
            assignments.push(
                AssignmentEntry { id: slot.id, state: TypedAssigns::Fungible(slot.assignments) },
            );
            proof {
                assert(orig.skip(done).remove(0) =~= orig.skip(done + 1));
                assert(slot == orig[done]);
            }
        }
        let genesis = Genesis {
            ffv: 0,
            schema_id: copy_bytes(&schema.schema_id),
            chain,
            metadata: None,
            globals: global,
            assignments,
            valencies: Vec::new(),
        };
        Ok(Contract { schema, ifaces: IfacePair { iface, iimpl }, genesis })
    }
}

/// Copies a byte string, so that the genesis can carry the schema's
/// identifier while the document also keeps the schema itself.
fn copy_bytes(src: &Vec<u8>) -> (r: Vec<u8>)
    ensures
        r@ == src@,
{
    let n = src.len();
    let mut out: Vec<u8> = Vec::new();
    let mut i: usize = 0;
    while i < n
        invariant
            0 <= i <= n,
            n == src@.len(),
            out@ =~= src@.take(i as int),
        decreases n - i,
    {
        out.push(src[i]);
        i = i + 1;
    }
    proof {
        assert(out@ =~= src@);
    }
    out
}

} // verus!
