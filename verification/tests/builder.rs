use contract_forge::accumulate::MAX_SLOT_ENTRIES;
use contract_forge::builder::{
    BuilderError, ConfinementError, ContractBuilder, ForgeError, MAX_SERIALIZED_LEN,
};
use contract_forge::chain::Chain;
use contract_forge::contract::TypedAssigns;
use contract_forge::interface::{Iface, IfaceImpl, NamedField};
use contract_forge::reify::{basic_type_system, BasicType};
use contract_forge::schema::{FungibleType, GlobalTypeDef, OwnedTypeDef, Schema, StateSchema};
use contract_forge::seal::Outpoint;

const NAME_SLOT: u16 = 2000;
const AMOUNT_SLOT: u16 = 2001;
const OWNER_SLOT: u16 = 4000;
const DETAILS_SLOT: u16 = 4001;

fn schema_id() -> Vec<u8> {
    vec![7u8; 32]
}

fn iface_id() -> Vec<u8> {
    vec![0xAAu8; 32]
}

fn test_schema() -> Schema {
    let (type_system, sem_ids) = basic_type_system(&vec![BasicType::Bytes, BasicType::Unsigned64]);
    Schema {
        schema_id: schema_id(),
        global_types: vec![
            GlobalTypeDef { id: NAME_SLOT, sem_id: sem_ids[0].clone() },
            GlobalTypeDef { id: AMOUNT_SLOT, sem_id: sem_ids[1].clone() },
        ],
        owned_types: vec![
            OwnedTypeDef {
                id: OWNER_SLOT,
                state_schema: StateSchema::Fungible(FungibleType::Unsigned64Bit),
            },
            OwnedTypeDef { id: DETAILS_SLOT, state_schema: StateSchema::Structured },
        ],
        type_system,
    }
}

fn test_iface() -> Iface {
    Iface { iface_id: iface_id() }
}

fn test_iimpl() -> IfaceImpl {
    IfaceImpl {
        iface_id: iface_id(),
        schema_id: schema_id(),
        global_state: vec![
            NamedField { name: "name".to_string(), id: NAME_SLOT },
            NamedField { name: "issuedSupply".to_string(), id: AMOUNT_SLOT },
        ],
        owned_state: vec![
            NamedField { name: "assetOwner".to_string(), id: OWNER_SLOT },
            NamedField { name: "details".to_string(), id: DETAILS_SLOT },
        ],
    }
}

fn test_builder() -> ContractBuilder {
    ContractBuilder::with(test_iface(), test_schema(), test_iimpl()).unwrap()
}

fn seal(vout: u32) -> Outpoint {
    Outpoint { txid: vec![0x11u8; 32], vout }
}

/// The strict serialization of the small string "X": length prefix, then the byte.
fn serialized_x() -> Vec<u8> {
    vec![1, b'X']
}

#[test]
fn basic_type_system_yields_one_id_per_description() {
    let (_, ids) = basic_type_system(&vec![
        BasicType::Bytes,
        BasicType::Unsigned64,
        BasicType::Unsigned64,
    ]);
    assert_eq!(ids.len(), 3);
    for id in &ids {
        assert_eq!(id.len(), 32);
    }
    // Semantic identifiers are content-derived: equal types share one id.
    assert_eq!(ids[1], ids[2]);
    assert_ne!(ids[0], ids[1]);
}

#[test]
fn create_accepts_matching_bindings() {
    let b = test_builder();
    assert_eq!(b.chain, Chain::Testnet3);
    assert!(b.global.is_empty());
    assert!(b.fungible.is_empty());
}

#[test]
fn create_interface_mismatch() {
    let mut iimpl = test_iimpl();
    iimpl.iface_id = vec![0xBBu8; 32];
    let r = ContractBuilder::with(test_iface(), test_schema(), iimpl);
    assert_eq!(r.err().unwrap(), ForgeError::InterfaceMismatch);
}

#[test]
fn create_schema_mismatch() {
    let mut iimpl = test_iimpl();
    iimpl.schema_id = vec![0u8; 32];
    let r = ContractBuilder::with(test_iface(), test_schema(), iimpl);
    assert_eq!(r.err().unwrap(), ForgeError::SchemaMismatch);
}

#[test]
fn create_reports_interface_mismatch_first() {
    let mut iimpl = test_iimpl();
    iimpl.iface_id = vec![0xBBu8; 32];
    iimpl.schema_id = vec![0u8; 32];
    let r = ContractBuilder::with(test_iface(), test_schema(), iimpl);
    assert_eq!(r.err().unwrap(), ForgeError::InterfaceMismatch);
}

#[test]
fn set_chain_last_call_wins() {
    let b = test_builder().set_chain(Chain::Bitcoin).set_chain(Chain::Signet);
    assert_eq!(b.chain, Chain::Signet);
}

#[test]
fn global_state_is_additive() {
    let mut b = test_builder();
    b.add_global_state("name".to_string(), vec![1, b'X']).unwrap();
    b.add_global_state("name".to_string(), vec![1, b'Y']).unwrap();
    assert_eq!(b.global.len(), 1);
    assert_eq!(b.global[0].id, NAME_SLOT);
    assert_eq!(b.global[0].values, vec![vec![1, b'X'], vec![1, b'Y']]);
}

#[test]
fn global_state_unknown_field() {
    let mut b = test_builder();
    let r = b.add_global_state("nonexistent".to_string(), serialized_x());
    assert_eq!(r.err().unwrap(), BuilderError::TypeNotFound("nonexistent".to_string()));
    assert!(b.global.is_empty());
}

#[test]
fn global_state_size_bound_checked_before_name() {
    let mut b = test_builder();
    let r = b.add_global_state("nonexistent".to_string(), vec![0u8; MAX_SERIALIZED_LEN + 1]);
    assert_eq!(r.err().unwrap(), BuilderError::StrictEncode { len: MAX_SERIALIZED_LEN + 1 });
    assert!(b.global.is_empty());
}

#[test]
fn global_state_reify_rejects_malformed_bytes() {
    let mut b = test_builder();
    // Claims two bytes of content but carries one: not a whole canonical encoding.
    let r = b.add_global_state("name".to_string(), vec![2, b'X']);
    assert!(matches!(r.err().unwrap(), BuilderError::Reify(_)));
    // A 64-bit amount must be exactly eight bytes.
    let r = b.add_global_state("issuedSupply".to_string(), vec![1, 2, 3]);
    assert!(matches!(r.err().unwrap(), BuilderError::Reify(_)));
    assert!(b.global.is_empty());
}

#[test]
fn global_state_accepts_conforming_u64() {
    let mut b = test_builder();
    b.add_global_state("issuedSupply".to_string(), 1000u64.to_le_bytes().to_vec()).unwrap();
    assert_eq!(b.global[0].values[0], 1000u64.to_le_bytes().to_vec());
}

#[test]
fn fungible_state_unknown_field() {
    let mut b = test_builder();
    let r = b.add_fungible_state("nonexistent".to_string(), seal(0), 10);
    assert_eq!(r.err().unwrap(), BuilderError::TypeNotFound("nonexistent".to_string()));
    assert!(b.fungible.is_empty());
}

#[test]
fn fungible_state_type_gating() {
    let mut b = test_builder();
    let r = b.add_fungible_state("details".to_string(), seal(0), 10);
    assert_eq!(r.err().unwrap(), BuilderError::InvalidStateType("details".to_string()));
    assert!(b.fungible.is_empty());
}

#[test]
fn fungible_state_duplicate_seal_refused_without_mutation() {
    let mut b = test_builder();
    b.add_fungible_state("assetOwner".to_string(), seal(3), 10).unwrap();
    let blinding_before = b.fungible[0].assignments[0].state.blinding.clone();
    let r = b.add_fungible_state("assetOwner".to_string(), seal(3), 20);
    assert_eq!(
        r.err().unwrap(),
        BuilderError::Confinement(ConfinementError::KeyAlreadyPresent)
    );
    assert_eq!(b.fungible.len(), 1);
    assert_eq!(b.fungible[0].assignments.len(), 1);
    assert_eq!(b.fungible[0].assignments[0].state.value, 10);
    assert_eq!(b.fungible[0].assignments[0].state.blinding, blinding_before);
}

#[test]
fn fungible_state_bound_enforced_at_255() {
    let mut b = test_builder();
    for vout in 0..MAX_SLOT_ENTRIES as u32 {
        b.add_fungible_state("assetOwner".to_string(), seal(vout), 1).unwrap();
    }
    assert_eq!(b.fungible[0].assignments.len(), MAX_SLOT_ENTRIES);
    let r = b.add_fungible_state("assetOwner".to_string(), seal(MAX_SLOT_ENTRIES as u32), 1);
    assert_eq!(
        r.err().unwrap(),
        BuilderError::Confinement(ConfinementError::Oversize { max: MAX_SLOT_ENTRIES })
    );
    assert_eq!(b.fungible[0].assignments.len(), MAX_SLOT_ENTRIES);
}

#[test]
fn issue_round_trip() {
    let mut b = test_builder();
    b.add_global_state("name".to_string(), serialized_x()).unwrap();
    b.add_fungible_state("assetOwner".to_string(), seal(9), 100).unwrap();
    let contract = b.set_chain(Chain::Bitcoin).issue_contract().unwrap();

    assert_eq!(contract.genesis.ffv, 0);
    assert_eq!(contract.genesis.schema_id, schema_id());
    assert_eq!(contract.genesis.chain, Chain::Bitcoin);
    assert!(contract.genesis.metadata.is_none());
    assert!(contract.genesis.valencies.is_empty());

    assert_eq!(contract.genesis.globals.len(), 1);
    assert_eq!(contract.genesis.globals[0].id, NAME_SLOT);
    assert_eq!(contract.genesis.globals[0].values, vec![serialized_x()]);

    assert_eq!(contract.genesis.assignments.len(), 1);
    assert_eq!(contract.genesis.assignments[0].id, OWNER_SLOT);
    let TypedAssigns::Fungible(assigns) = &contract.genesis.assignments[0].state;
    assert_eq!(assigns.len(), 1);
    assert_eq!(assigns[0].seal.txid, vec![0x11u8; 32]);
    assert_eq!(assigns[0].seal.vout, 9);
    assert_eq!(assigns[0].state.value, 100);
    assert_eq!(assigns[0].state.blinding.len(), 32);

    assert_eq!(contract.schema.schema_id, schema_id());
    assert_eq!(contract.ifaces.iface.iface_id, iface_id());
    assert_eq!(contract.ifaces.iimpl.schema_id, schema_id());
}

#[test]
fn issue_blinding_factors_are_independent() {
    let issue_once = || {
        let mut b = test_builder();
        b.add_fungible_state("assetOwner".to_string(), seal(9), 100).unwrap();
        let contract = b.issue_contract().unwrap();
        let TypedAssigns::Fungible(assigns) = &contract.genesis.assignments[0].state;
        assigns[0].state.blinding.clone()
    };
    let first = issue_once();
    let second = issue_once();
    assert_eq!(first.len(), 32);
    // Two independent draws of 32 random bytes never coincide in practice.
    assert_ne!(first, second);
}

#[test]
fn issue_empty_builder_yields_empty_genesis() {
    let contract = test_builder().issue_contract().unwrap();
    assert!(contract.genesis.globals.is_empty());
    assert!(contract.genesis.assignments.is_empty());
    assert_eq!(contract.genesis.chain, Chain::Testnet3);
}

#[test]
fn fungible_slots_are_kept_apart_from_global_slots() {
    let mut b = test_builder();
    b.add_global_state("name".to_string(), serialized_x()).unwrap();
    b.add_fungible_state("assetOwner".to_string(), seal(1), 5).unwrap();
    b.add_fungible_state("assetOwner".to_string(), seal(2), 6).unwrap();
    assert_eq!(b.global.len(), 1);
    assert_eq!(b.fungible.len(), 1);
    assert_eq!(b.fungible[0].id, OWNER_SLOT);
    assert_eq!(b.fungible[0].assignments.len(), 2);
    assert_eq!(b.fungible[0].assignments[0].state.value, 5);
    assert_eq!(b.fungible[0].assignments[1].state.value, 6);
}
