//! Tests of the transaction compiler, the locator and fee decisions, and
//! the canonical payload encoding.

use rust_client::{
    bytes_eq, capability_filter, check_identifier, clone_bytes, coin_module_bytes, compile,
    decode_u64_le, deny_add_function_bytes, deny_cap_type_bytes, deny_list_object_bytes,
    deny_remove_function_bytes, encode_call_graph, encode_payload, encode_u64_le,
    framework_package_bytes, locate_owned_capability, locate_shared, mint_function_bytes,
    select_fee, signing_message, treasury_cap_type_bytes, zero_bytes, Address, AppCommand,
    DenyListCommand,
    Argument, CallGraph, CallInput, CapabilityKind, CoinTypeDescriptor, Contract, ContractError,
    Digest, ErrorKind, FeePlan, GasCoin, ObjectArg, ObjectId, ObjectLookup, ObjectReference,
    Operation, OwnerKind, SharedObjectHandle, TransactionPayload, DEFAULT_FEE_BUDGET,
};

fn id_with_tail(tail: u8) -> ObjectId {
    let mut b = vec![0u8; 31];
    b.push(tail);
    ObjectId { bytes: b }
}

fn addr_with_tail(tail: u8) -> Address {
    let mut b = vec![0u8; 31];
    b.push(tail);
    Address { bytes: b }
}

fn digest_with_tail(tail: u8) -> Digest {
    let mut b = vec![0u8; 31];
    b.push(tail);
    Digest { bytes: b }
}

fn obj_ref(id_tail: u8, version: u64, digest_tail: u8) -> ObjectReference {
    ObjectReference { id: id_with_tail(id_tail), version, digest: digest_with_tail(digest_tail) }
}

fn coin_type() -> CoinTypeDescriptor {
    CoinTypeDescriptor {
        package: addr_with_tail(0xCC),
        module: b"regulated_coin".to_vec(),
        name: b"REGULATED_COIN".to_vec(),
    }
}

#[test]
fn well_known_names_are_ascii() {
    assert_eq!(coin_module_bytes(), b"coin".to_vec());
    assert_eq!(deny_add_function_bytes(), b"deny_list_add".to_vec());
    assert_eq!(deny_remove_function_bytes(), b"deny_list_remove".to_vec());
    assert_eq!(mint_function_bytes(), b"mint".to_vec());
    assert_eq!(deny_cap_type_bytes(), b"DenyCap".to_vec());
    assert_eq!(treasury_cap_type_bytes(), b"TreasuryCap".to_vec());
    let pkg = framework_package_bytes();
    assert_eq!(pkg.len(), 32);
    assert_eq!(pkg[31], 2);
    let dl = deny_list_object_bytes();
    assert_eq!(dl.len(), 32);
    assert_eq!(dl[30], 4);
    assert_eq!(dl[31], 3);
}

#[test]
fn identifier_validation() {
    assert!(check_identifier(&b"coin".to_vec()));
    assert!(check_identifier(&b"Coin_9".to_vec()));
    assert!(check_identifier(&b"_x".to_vec()));
    assert!(!check_identifier(&b"".to_vec()));
    assert!(!check_identifier(&b"_".to_vec()));
    assert!(!check_identifier(&b"9x".to_vec()));
    assert!(!check_identifier(&b"has space".to_vec()));
}

#[test]
fn contract_to_type_descriptor() {
    let c = Contract {
        package_id: id_with_tail(0xCC),
        module: b"regulated_coin".to_vec(),
        otw: b"REGULATED_COIN".to_vec(),
    };
    let d = c.type_descriptor().unwrap();
    assert_eq!(d.package.bytes, c.package_id.bytes);
    assert_eq!(d.module, b"regulated_coin".to_vec());
    assert_eq!(d.name, b"REGULATED_COIN".to_vec());

    let bad_module = Contract {
        package_id: id_with_tail(1),
        module: b"9bad".to_vec(),
        otw: b"GOOD".to_vec(),
    };
    assert!(matches!(bad_module.type_descriptor(), Err(ContractError::BadModuleName)));

    let bad_otw = Contract {
        package_id: id_with_tail(1),
        module: b"good".to_vec(),
        otw: b"_".to_vec(),
    };
    assert!(matches!(bad_otw.type_descriptor(), Err(ContractError::BadTypeName)));
}

#[test]
fn locate_shared_classifies_ownership() {
    let id = id_with_tail(0xDD);
    // missing object
    let r = locate_shared(&id, &ObjectLookup::Missing);
    assert!(matches!(r, Err(ErrorKind::NotFound { .. })));
    // shared object carries the reported initial version
    let lookup = ObjectLookup::Found {
        reference: obj_ref(0xDD, 12, 9),
        owner: OwnerKind::Shared { initial_shared_version: 7 },
    };
    let h = locate_shared(&id, &lookup).unwrap();
    assert_eq!(h.initial_shared_version, 7);
    assert!(h.mutable);
    assert_eq!(h.id.bytes, id.bytes);
    // address-owned object is invalid for a shared lookup
    let lookup = ObjectLookup::Found {
        reference: obj_ref(0xDD, 12, 9),
        owner: OwnerKind::AddressOwner { owner: addr_with_tail(1) },
    };
    assert!(matches!(locate_shared(&id, &lookup), Err(ErrorKind::InvalidOwnership { .. })));
}

#[test]
fn capability_selection_takes_first() {
    let owner = addr_with_tail(0x0A);
    let found = vec![obj_ref(1, 5, 1), obj_ref(2, 6, 2)];
    let cap = locate_owned_capability(&owner, &found).unwrap();
    assert_eq!(cap.id.bytes, id_with_tail(1).bytes);
    assert_eq!(cap.version, 5);
    let none: Vec<ObjectReference> = Vec::new();
    assert!(matches!(
        locate_owned_capability(&owner, &none),
        Err(ErrorKind::CapabilityMissing { .. })
    ));
}

#[test]
fn capability_filter_shapes() {
    let ct = coin_type();
    let f = capability_filter(CapabilityKind::DenyCapability, &ct);
    assert_eq!(f.package, framework_package_bytes());
    assert_eq!(f.module, b"coin".to_vec());
    assert_eq!(f.name, b"DenyCap".to_vec());
    assert_eq!(f.type_params.len(), 1);
    assert_eq!(f.type_params[0].module, ct.module);
    let f = capability_filter(CapabilityKind::TreasuryCapability, &ct);
    assert_eq!(f.name, b"TreasuryCap".to_vec());
}

#[test]
fn fee_selection_skips_excluded_objects() {
    let owner = addr_with_tail(0x0A);
    // first coin is an excluded transaction input, second is eligible
    let gas = vec![
        GasCoin { reference: obj_ref(1, 2, 1), balance: u64::MAX },
        GasCoin { reference: obj_ref(2, 3, 2), balance: DEFAULT_FEE_BUDGET },
    ];
    let excluded = vec![id_with_tail(1)];
    let plan = select_fee(&owner, &gas, &excluded, None, None, 750).unwrap();
    assert_eq!(plan.payment_object.id.bytes, id_with_tail(2).bytes);
    assert_eq!(plan.budget, DEFAULT_FEE_BUDGET);
    assert_eq!(plan.unit_price, 750);
}

#[test]
fn fee_selection_honors_hints() {
    let owner = addr_with_tail(0x0A);
    let gas = vec![GasCoin { reference: obj_ref(1, 2, 1), balance: 500 }];
    let excluded: Vec<ObjectId> = Vec::new();
    let plan = select_fee(&owner, &gas, &excluded, Some(33), Some(500), 750).unwrap();
    assert_eq!(plan.budget, 500);
    assert_eq!(plan.unit_price, 33);
}

#[test]
fn fee_selection_error_cases() {
    let owner = addr_with_tail(0x0A);
    let no_gas: Vec<GasCoin> = Vec::new();
    let excluded: Vec<ObjectId> = Vec::new();
    assert!(matches!(
        select_fee(&owner, &no_gas, &excluded, None, None, 1),
        Err(ErrorKind::NoGasObjects { .. })
    ));
    let poor = vec![GasCoin { reference: obj_ref(1, 2, 1), balance: DEFAULT_FEE_BUDGET - 1 }];
    match select_fee(&owner, &poor, &excluded, None, None, 1) {
        Err(ErrorKind::InsufficientFunds { budget }) => assert_eq!(budget, DEFAULT_FEE_BUDGET),
        _ => panic!("expected InsufficientFunds"),
    }
}

#[test]
fn compile_deny_add_argument_table() {
    let ct = coin_type();
    let dl = SharedObjectHandle { id: id_with_tail(0xDD), initial_shared_version: 7, mutable: true };
    let cap = obj_ref(0x0C, 4, 0x0C);
    let target = addr_with_tail(0xAA);
    let g = compile(
        &AppCommand::DenyListAdd(target),
        &ct,
        Some(&dl),
        Some(&cap),
        None,
    )
    .unwrap();
    assert_eq!(g.inputs.len(), 3);
    assert_eq!(g.operations.len(), 1);
    match &g.inputs[0] {
        CallInput::ObjectInput(ObjectArg::SharedObject { id, initial_shared_version, mutable }) => {
            assert_eq!(id.bytes, id_with_tail(0xDD).bytes);
            assert_eq!(*initial_shared_version, 7);
            assert!(*mutable);
        }
        _ => panic!("input 0 must be the shared deny-list handle"),
    }
    match &g.inputs[1] {
        CallInput::ObjectInput(ObjectArg::ImmOrOwnedObject(r)) => {
            assert_eq!(r.id.bytes, id_with_tail(0x0C).bytes);
            assert_eq!(r.version, 4);
        }
        _ => panic!("input 1 must be the owned deny capability"),
    }
    match &g.inputs[2] {
        CallInput::PureInput(b) => assert_eq!(*b, addr_with_tail(0xAA).bytes),
        _ => panic!("input 2 must be the pure target address"),
    }
    match &g.operations[0] {
        Operation::Call(mc) => {
            assert_eq!(mc.package.bytes, framework_package_bytes());
            assert_eq!(mc.module, b"coin".to_vec());
            assert_eq!(mc.function, b"deny_list_add".to_vec());
            assert_eq!(mc.type_args.len(), 1);
            assert_eq!(
                mc.args,
                vec![Argument::Input(0), Argument::Input(1), Argument::Input(2)]
            );
        }
        _ => panic!("the single operation must be the deny_list_add call"),
    }
}

#[test]
fn deny_list_entry_points_pick_their_function() {
    let ct = coin_type();
    let dl = SharedObjectHandle { id: id_with_tail(0xDD), initial_shared_version: 9, mutable: true };
    let cap = obj_ref(0x0C, 4, 0x0C);
    let g = rust_client::deny_list_add(&ct, &dl, &cap, &addr_with_tail(0xAA));
    match &g.operations[0] {
        Operation::Call(mc) => assert_eq!(mc.function, b"deny_list_add".to_vec()),
        _ => panic!("expected a call operation"),
    }
    let g = rust_client::deny_list_remove(&ct, &dl, &cap, &addr_with_tail(0xAA));
    match &g.operations[0] {
        Operation::Call(mc) => assert_eq!(mc.function, b"deny_list_remove".to_vec()),
        _ => panic!("expected a call operation"),
    }
}

#[test]
fn compile_deny_remove_uses_remove_function() {
    let ct = coin_type();
    let dl = SharedObjectHandle { id: id_with_tail(0xDD), initial_shared_version: 9, mutable: true };
    let cap = obj_ref(0x0C, 4, 0x0C);
    let g = compile(
        &AppCommand::DenyListRemove(addr_with_tail(0xAB)),
        &ct,
        Some(&dl),
        Some(&cap),
        None,
    )
    .unwrap();
    match &g.operations[0] {
        Operation::Call(mc) => assert_eq!(mc.function, b"deny_list_remove".to_vec()),
        _ => panic!("expected a call operation"),
    }
}

#[test]
fn compile_mint_chains_two_operations() {
    let ct = coin_type();
    let treasury = obj_ref(0x0B, 4, 0x0C);
    let g = compile(
        &AppCommand::MintAndTransfer(1000, addr_with_tail(0xBB)),
        &ct,
        None,
        Some(&treasury),
        None,
    )
    .unwrap();
    assert_eq!(g.inputs.len(), 3);
    assert_eq!(g.operations.len(), 2);
    match &g.inputs[1] {
        CallInput::PureInput(b) => assert_eq!(*b, encode_u64_le(1000)),
        _ => panic!("input 1 must be the pure amount"),
    }
    match &g.operations[0] {
        Operation::Call(mc) => {
            assert_eq!(mc.function, b"mint".to_vec());
            assert_eq!(mc.args, vec![Argument::Input(0), Argument::Input(1)]);
        }
        _ => panic!("operation 0 must be the mint call"),
    }
    match &g.operations[1] {
        Operation::TransferObjects { objects, recipient } => {
            assert_eq!(*objects, vec![Argument::Result(0)]);
            assert_eq!(*recipient, Argument::Input(2));
        }
        _ => panic!("operation 1 must transfer the minted result"),
    }
}

#[test]
fn compile_transfer_native_operation() {
    let ct = coin_type();
    let subject = obj_ref(0x05, 11, 0x06);
    let g = compile(
        &AppCommand::Transfer(id_with_tail(0x05), addr_with_tail(0xBB)),
        &ct,
        None,
        None,
        Some(&subject),
    )
    .unwrap();
    assert_eq!(g.inputs.len(), 2);
    assert_eq!(g.operations.len(), 1);
    match &g.operations[0] {
        Operation::TransferObjects { objects, recipient } => {
            assert_eq!(*objects, vec![Argument::Input(0)]);
            assert_eq!(*recipient, Argument::Input(1));
        }
        _ => panic!("expected the native transfer"),
    }
}

#[test]
fn compile_burn_is_unsupported() {
    let ct = coin_type();
    let r = compile(&AppCommand::Burn(id_with_tail(0x05)), &ct, None, None, None);
    assert!(matches!(r, Err(ErrorKind::UnsupportedCommand)));
}

#[test]
fn deny_list_command_accessors() {
    let add = DenyListCommand::Add(addr_with_tail(1));
    assert_eq!(add.address().bytes, addr_with_tail(1).bytes);
    assert_eq!(add.function_name(), b"deny_list_add".to_vec());
    let rem = DenyListCommand::Remove(addr_with_tail(2));
    assert_eq!(rem.address().bytes, addr_with_tail(2).bytes);
    assert_eq!(rem.function_name(), b"deny_list_remove".to_vec());
    assert!(matches!(
        DenyListCommand::of_app_command(&AppCommand::DenyListAdd(addr_with_tail(3))),
        Some(DenyListCommand::Add(_))
    ));
    assert!(matches!(
        DenyListCommand::of_app_command(&AppCommand::DenyListRemove(addr_with_tail(3))),
        Some(DenyListCommand::Remove(_))
    ));
    assert!(DenyListCommand::of_app_command(&AppCommand::Burn(id_with_tail(1))).is_none());
}

#[test]
fn u64_little_endian_round_trip() {
    let b = encode_u64_le(0x0102030405060708);
    assert_eq!(b, vec![8, 7, 6, 5, 4, 3, 2, 1]);
    assert_eq!(decode_u64_le(&b), 0x0102030405060708);
    assert_eq!(decode_u64_le(&encode_u64_le(0)), 0);
    assert_eq!(decode_u64_le(&encode_u64_le(u64::MAX)), u64::MAX);
}

#[test]
fn byte_helpers() {
    let a = vec![1u8, 2, 3];
    assert_eq!(clone_bytes(&a), a);
    assert!(bytes_eq(&a, &vec![1u8, 2, 3]));
    assert!(!bytes_eq(&a, &vec![1u8, 2, 4]));
    assert!(!bytes_eq(&a, &vec![1u8, 2]));
}

#[test]
fn signing_message_prepends_intent_marker() {
    let tx = vec![9u8, 8, 7];
    let m = signing_message(&tx);
    assert_eq!(m, vec![0u8, 0, 0, 9, 8, 7]);
}

#[test]
fn payload_encoding_is_deterministic_across_fetches() {
    // two independent fetch-then-compile rounds over the same object
    // states must produce byte-for-byte identical payloads
    let make_payload = || -> TransactionPayload {
        let ct = coin_type();
        let id = id_with_tail(0xDD);
        let lookup = ObjectLookup::Found {
            reference: obj_ref(0xDD, 12, 9),
            owner: OwnerKind::Shared { initial_shared_version: 7 },
        };
        let dl = locate_shared(&id, &lookup).unwrap();
        let caps = vec![obj_ref(0x0C, 4, 0x0C)];
        let cap = locate_owned_capability(&addr_with_tail(0x0A), &caps).unwrap();
        let g = compile(
            &AppCommand::DenyListAdd(addr_with_tail(0xAA)),
            &ct,
            Some(&dl),
            Some(&cap),
            None,
        )
        .unwrap();
        TransactionPayload {
            sender: addr_with_tail(0x0A),
            graph: g,
            fee: FeePlan { payment_object: obj_ref(0x0F, 2, 0x0F), budget: 100, unit_price: 3 },
        }
    };
    let p1 = encode_payload(&make_payload());
    let p2 = encode_payload(&make_payload());
    assert_eq!(p1, p2);
    assert_eq!(signing_message(&p1), signing_message(&p2));
}

#[test]
fn call_graph_encoding_separates_distinct_states() {
    // a different object version must change the encoded bytes
    let ct = coin_type();
    let cap1 = obj_ref(0x0C, 4, 0x0C);
    let cap2 = obj_ref(0x0C, 5, 0x0C);
    let dl = SharedObjectHandle { id: id_with_tail(0xDD), initial_shared_version: 7, mutable: true };
    let g1: CallGraph = compile(
        &AppCommand::DenyListAdd(addr_with_tail(0xAA)),
        &ct,
        Some(&dl),
        Some(&cap1),
        None,
    )
    .unwrap();
    let g2: CallGraph = compile(
        &AppCommand::DenyListAdd(addr_with_tail(0xAA)),
        &ct,
        Some(&dl),
        Some(&cap2),
        None,
    )
    .unwrap();
    assert_ne!(encode_call_graph(&g1), encode_call_graph(&g2));
}
