use vstd::prelude::*;

use std::collections::BTreeMap;

use amplify::confinement::Confined;
use strict_encoding::{Primitive, Sizing};
use strict_types::{SemId, Ty, TypeSystem};

verus! {

#[verifier::external_type_specification]
#[verifier::external_body]
pub struct ExTypeSystem(TypeSystem);

/// A plain description of a semantic type of the basic, non-recursive form
/// this library builds type systems from: a 64-bit unsigned number, or a
/// byte string of at most 255 bytes (what a small string serializes as).
#[derive(Clone, Copy, Debug, PartialEq, Eq, Structural)]
pub enum BasicType {
    Unsigned64,
    Bytes,
}

/// The type system consists only of basic entries: primitive number types
/// and short byte-string types (together with their byte item type).  The
/// engine decodes such entries without recursing into further entries and
/// without reaching any unimplemented branch, so querying such a system
/// neither panics nor diverges.
pub uninterp spec fn ts_basic(ts: TypeSystem) -> bool;

/// Whether `data` is accepted by the type-system engine as the canonical
/// strict encoding of a value of the semantic type identified by `sem_id`
/// within the type system `ts`.  The engine's verdict is a pure function of
/// the type system's contents and of the two byte strings.
pub uninterp spec fn ts_accepts(ts: TypeSystem, sem_id: Seq<u8>, data: Seq<u8>) -> bool;

/// Relies on strict_types' `Ty`, `SemId` and `TypeSystem` constructors: it
/// assembles one type system holding, for each description, the
/// corresponding basic type under its content-derived 32-byte semantic
/// identifier (byte strings also carry their byte item type, which the
/// engine looks up when decoding them), and returns those identifiers in
/// order.  Every entry is of the basic form, so the system satisfies
/// [`ts_basic`].
#[verifier::external_body]
pub fn basic_type_system(defs: &Vec<BasicType>) -> (r: (TypeSystem, Vec<Vec<u8>>))
    requires
        defs@.len() <= 0x7fffff,
    ensures
        ts_basic(r.0),
        r.1@.len() == defs@.len(),
        forall|i: int| 0 <= i < r.1@.len() ==> r.1@[i]@.len() == 32,
{
    let mut map: BTreeMap<SemId, Ty<SemId>> = BTreeMap::new();
    let mut ids: Vec<Vec<u8>> = Vec::new();
    for def in defs {
        let ty = match def {
            BasicType::Unsigned64 => Ty::Primitive(Primitive::U64),
            BasicType::Bytes => {
                map.insert(Ty::<SemId>::U8.sem_id_unnamed(), Ty::U8);
                Ty::List(Ty::<SemId>::U8.sem_id_unnamed(), Sizing::new(0, 255))
            },
        };
        let id = ty.sem_id_unnamed();
        ids.push(id.to_byte_array().to_vec());
        map.insert(id, ty);
    }
    (TypeSystem::from(Confined::from_checked(map)), ids)
}

/// Relies on strict_types' `TypeSystem::strict_deserialize_type`: it decodes
/// `data` against the semantic type `sem_id` declares within `ts`, succeeding
/// exactly when the bytes are one whole canonical encoding of such a value.
/// The engine's decoder is partial — a bare unicode-character entry reaches
/// an unimplemented branch and a cyclic reference recurses without bound —
/// so only systems of the basic form are admitted; on those every query
/// returns.  The error message comes from the engine and nothing is stated
/// of it.
#[verifier::external_body]
pub(crate) fn reify_check(ts: &TypeSystem, sem_id: &Vec<u8>, data: &Vec<u8>) -> (r: Result<
    (),
    String,
>)
    requires
        ts_basic(*ts),
        sem_id@.len() == 32,
    ensures
        r is Ok <==> ts_accepts(*ts, sem_id@, data@),
{
    let mut raw = [0u8; 32];
    raw.copy_from_slice(sem_id.as_slice());
    match ts.strict_deserialize_type(SemId::from(raw), data.as_slice()) {
        Ok(_) => Ok(()),
        Err(e) => Err(format!("{e}")),
    }
}

} // verus!
