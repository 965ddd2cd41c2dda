use vstd::prelude::*;

verus! {

/// An abstract, human-nameable contract surface, identified by a
/// content-derived identifier.  The builder reads nothing of an interface
/// but its identifier; the named fields an issuer populates are resolved
/// through the implementation binding.
#[derive(Clone, Debug)]
pub struct Iface {
    pub iface_id: Vec<u8>,
}

/// A binding of one named interface field to a concrete schema type-slot
/// identifier.
#[derive(Clone, Debug)]
pub struct NamedField {
    pub name: String,
    pub id: u16,
}

/// A binding that maps each named interface field to a schema type slot, and
/// carries the identifiers of the interface and schema it binds.
#[derive(Clone, Debug)]
pub struct IfaceImpl {
    pub iface_id: Vec<u8>,
    pub schema_id: Vec<u8>,
    pub global_state: Vec<NamedField>,
    pub owned_state: Vec<NamedField>,
}

/// Position `i` holds the first field of `fields` named `name`.
pub open spec fn is_first_field(fields: Seq<NamedField>, name: Seq<char>, i: int) -> bool {
    &&& 0 <= i < fields.len()
    &&& fields[i].name@ == name
    &&& forall|j: int| 0 <= j < i ==> fields[j].name@ != name
}

/// Some field of `fields` is named `name`.
pub open spec fn has_field(fields: Seq<NamedField>, name: Seq<char>) -> bool {
    exists|i: int| 0 <= i < fields.len() && fields[i].name@ == name
}

/// The schema type-slot identifier that `name` resolves to: the one of the
/// first field of `fields` so named.
pub open spec fn field_id(fields: Seq<NamedField>, name: Seq<char>) -> u16 {
    fields[choose|i: int| is_first_field(fields, name, i)].id
}

/// Two distinct positions cannot both be the first field named `name`.
pub proof fn lemma_first_field_unique(fields: Seq<NamedField>, name: Seq<char>, i: int, j: int)
    requires
        is_first_field(fields, name, i),
        is_first_field(fields, name, j),
    ensures
        i == j,
{
    if i < j {
        assert(fields[i].name@ != name);
    }
    if j < i {
        assert(fields[j].name@ != name);
    }
}

/// Resolves `name` through a field list to a schema type-slot identifier,
/// taking the first field so named, as the implementation's field lists are
/// searched in order.
pub fn resolve_field(fields: &Vec<NamedField>, name: &String) -> (r: Option<u16>)
    ensures
        r is Some <==> has_field(fields@, name@),
        r matches Some(id) ==> is_first_field(fields@, name@, choose|i: int| is_first_field(
            fields@,
            name@,
            i,
        )) && id == field_id(fields@, name@),
{
    let n = fields.len();
    let mut i: usize = 0;
    while i < n
        invariant
            0 <= i <= n,
            n == fields@.len(),
            forall|j: int| 0 <= j < i ==> fields@[j].name@ != name@,
        decreases n - i,
    {
        if fields[i].name == *name {
            proof {
                assert(is_first_field(fields@, name@, i as int));
                let k = choose|m: int| is_first_field(fields@, name@, m);
                lemma_first_field_unique(fields@, name@, k, i as int);
            }
            return Some(fields[i].id);
        }
        i = i + 1;
    }
    None
}

} // verus!
