use vstd::prelude::*;

use crate::accumulate::{FungibleEntry, GlobalEntry, SealedAssign};
use crate::chain::Chain;
use crate::interface::{Iface, IfaceImpl};
use crate::schema::Schema;

verus! {

/// The assignments of one owned-state type slot, tagged by their state kind.
/// Only fungible state is supported by this builder so far.
#[derive(Clone, Debug)]
pub enum TypedAssigns {
    Fungible(Vec<SealedAssign>),
}

/// The owned state of one type slot within a genesis.
#[derive(Clone, Debug)]
pub struct AssignmentEntry {
    pub id: u16,
    pub state: TypedAssigns,
}

/// The assignment entry carries, as fungible state, exactly the assignments
/// the accumulator slot held.
pub open spec fn entry_from_slot(a: AssignmentEntry, f: FungibleEntry) -> bool {
    &&& a.id == f.id
    &&& a.state matches TypedAssigns::Fungible(v) && v == f.assignments
}

/// The founding state document of a contract: format version, schema
/// identifier, chain, the accumulated global state and owned-state
/// assignments; no metadata and no valencies in this builder's scope.
#[derive(Debug)]
pub struct Genesis {
    pub ffv: u16,
    pub schema_id: Vec<u8>,
    pub chain: Chain,
    pub metadata: Option<Vec<u8>>,
    pub globals: Vec<GlobalEntry>,
    pub assignments: Vec<AssignmentEntry>,
    pub valencies: Vec<u16>,
}

/// An interface paired with the implementation that binds it to the schema.
#[derive(Debug)]
pub struct IfacePair {
    pub iface: Iface,
    pub iimpl: IfaceImpl,
}

/// The finalized, immutable contract document: the schema, the paired
/// interface and implementation, and the genesis assembled from the
/// accumulated state.
#[derive(Debug)]
pub struct Contract {
    pub schema: Schema,
    pub ifaces: IfacePair,
    pub genesis: Genesis,
}

} // verus!
