//! End-to-end tests of the Command Router state machine: one command,
//! one transaction, strictly forward stages, typed terminal failures.

use rust_client::{
    AppCommand, Address, CallInput, CoinTypeDescriptor, Digest, ErrorKind, GasCoin, ObjectArg,
    ObjectId, ObjectLookup, ObjectReference, OwnerKind, PipelineState, Router, Stage,
    SubmitOutcome, DEFAULT_FEE_BUDGET,
};

fn id_with_tail(tail: u8) -> ObjectId {
    let mut b = vec![0u8; 31];
    b.push(tail);
    ObjectId { bytes: b }
}

fn addr_with_tail(tail: u8) -> Address {
    let mut b = vec![0u8; 31];
    b.push(tail);
    Address { bytes: b }
}

fn obj_ref(id_tail: u8, version: u64, digest_tail: u8) -> ObjectReference {
    let mut d = vec![0u8; 31];
    d.push(digest_tail);
    ObjectReference { id: id_with_tail(id_tail), version, digest: Digest { bytes: d } }
}

fn coin_type() -> CoinTypeDescriptor {
    CoinTypeDescriptor {
        package: addr_with_tail(0xCC),
        module: b"regulated_coin".to_vec(),
        name: b"REGULATED_COIN".to_vec(),
    }
}

fn shared_deny_list_lookup(version: u64) -> ObjectLookup {
    ObjectLookup::Found {
        reference: obj_ref(0xDD, 40, 9),
        owner: OwnerKind::Shared { initial_shared_version: version },
    }
}

#[test]
fn deny_add_happy_path_reaches_done() {
    // deny-list at version 7, one deny capability, a sufficient fee
    // object: the compiled call is [shared(deny-list, v7, mutable),
    // owned(cap), pure(target)], and quorum success ends in Done
    let mut router = Router::start(
        AppCommand::DenyListAdd(addr_with_tail(0xAA)),
        coin_type(),
        addr_with_tail(0x0A),
    );
    let plan = router.needed_lookups();
    assert!(plan.shared_object.is_some());
    assert_eq!(plan.capability.as_ref().unwrap().name, b"DenyCap".to_vec());
    assert!(plan.subject.is_none());

    router.provide_resolution(
        Some(shared_deny_list_lookup(7)),
        Some(vec![obj_ref(0x0C, 4, 0x0C)]),
        None,
    );
    assert!(matches!(router.state, PipelineState::Funding { .. }));

    let gas = vec![GasCoin { reference: obj_ref(0x0F, 2, 0x0F), balance: u64::MAX }];
    router.fund(&gas, None, None, 750);
    assert!(matches!(router.state, PipelineState::Compiling { .. }));

    router.compile_tx();
    match &router.state {
        PipelineState::Signing { tx } => {
            assert_eq!(tx.graph.inputs.len(), 3);
            match &tx.graph.inputs[0] {
                CallInput::ObjectInput(ObjectArg::SharedObject {
                    initial_shared_version,
                    mutable,
                    ..
                }) => {
                    assert_eq!(*initial_shared_version, 7);
                    assert!(*mutable);
                }
                _ => panic!("input 0 must be the shared deny-list handle"),
            }
            match &tx.graph.inputs[1] {
                CallInput::ObjectInput(ObjectArg::ImmOrOwnedObject(r)) => {
                    assert_eq!(r.id.bytes, id_with_tail(0x0C).bytes)
                }
                _ => panic!("input 1 must be the owned capability"),
            }
            match &tx.graph.inputs[2] {
                CallInput::PureInput(b) => assert_eq!(*b, addr_with_tail(0xAA).bytes),
                _ => panic!("input 2 must be the pure target address"),
            }
        }
        _ => panic!("expected the Signing state"),
    }

    let to_sign = router.signing_payload();
    assert_eq!(&to_sign[..3], &[0u8, 0, 0]);
    router.provide_signature(Some(vec![0x55u8; 64]));
    assert!(matches!(router.state, PipelineState::Submitting { .. }));

    router.provide_outcome(SubmitOutcome::Executed {
        success: true,
        effects: vec![1u8],
        input_echo: vec![2u8],
    });
    match &router.state {
        PipelineState::Done { result } => {
            assert!(result.success);
            assert_eq!(result.effects, vec![1u8]);
            assert_eq!(result.input_echo, vec![2u8]);
        }
        _ => panic!("expected Done after quorum success"),
    }
}

#[test]
fn finished_pipeline_reads_off_as_a_result() {
    let mut done = Router::start(
        AppCommand::DenyListAdd(addr_with_tail(0xAA)),
        coin_type(),
        addr_with_tail(0x0A),
    );
    run_to_submitting(&mut done);
    done.provide_outcome(SubmitOutcome::Executed {
        success: true,
        effects: vec![1u8],
        input_echo: vec![2u8],
    });
    let outcome = done.into_outcome().unwrap();
    assert!(outcome.success);

    let mut failed = Router::start(
        AppCommand::DenyListAdd(addr_with_tail(0xAA)),
        coin_type(),
        addr_with_tail(0x0A),
    );
    failed.provide_resolution(Some(shared_deny_list_lookup(7)), Some(Vec::new()), None);
    let error = failed.into_outcome().unwrap_err();
    assert_eq!(error.stage, Stage::Resolving);
}

#[test]
fn missing_capability_fails_at_resolving() {
    // zero deny capabilities: the pipeline stops at Resolving with
    // CapabilityMissing; no fee selection or submission can follow
    let mut router = Router::start(
        AppCommand::DenyListAdd(addr_with_tail(0xAA)),
        coin_type(),
        addr_with_tail(0x0A),
    );
    router.provide_resolution(Some(shared_deny_list_lookup(7)), Some(Vec::new()), None);
    match &router.state {
        PipelineState::Failed { error } => {
            assert_eq!(error.stage, Stage::Resolving);
            match &error.kind {
                ErrorKind::CapabilityMissing { owner } => {
                    assert_eq!(owner.bytes, addr_with_tail(0x0A).bytes)
                }
                _ => panic!("expected CapabilityMissing"),
            }
        }
        _ => panic!("expected a Resolving failure"),
    }
}

#[test]
fn missing_deny_list_fails_not_found() {
    let mut router = Router::start(
        AppCommand::DenyListAdd(addr_with_tail(0xAA)),
        coin_type(),
        addr_with_tail(0x0A),
    );
    router.provide_resolution(
        Some(ObjectLookup::Missing),
        Some(vec![obj_ref(0x0C, 4, 0x0C)]),
        None,
    );
    match &router.state {
        PipelineState::Failed { error } => {
            assert_eq!(error.stage, Stage::Resolving);
            assert!(matches!(error.kind, ErrorKind::NotFound { .. }));
        }
        _ => panic!("expected a Resolving failure"),
    }
}

#[test]
fn wrongly_owned_deny_list_fails_invalid_ownership() {
    let mut router = Router::start(
        AppCommand::DenyListRemove(addr_with_tail(0xAA)),
        coin_type(),
        addr_with_tail(0x0A),
    );
    let lookup = ObjectLookup::Found {
        reference: obj_ref(0xDD, 40, 9),
        owner: OwnerKind::AddressOwner { owner: addr_with_tail(0x01) },
    };
    router.provide_resolution(Some(lookup), Some(vec![obj_ref(0x0C, 4, 0x0C)]), None);
    match &router.state {
        PipelineState::Failed { error } => {
            assert_eq!(error.stage, Stage::Resolving);
            assert!(matches!(error.kind, ErrorKind::InvalidOwnership { .. }));
        }
        _ => panic!("expected a Resolving failure"),
    }
}

#[test]
fn underfunded_fee_object_fails_at_funding() {
    // the only fee object is below the computed budget: the pipeline
    // fails at Funding with InsufficientFunds, before any signing
    let mut router = Router::start(
        AppCommand::DenyListAdd(addr_with_tail(0xAA)),
        coin_type(),
        addr_with_tail(0x0A),
    );
    router.provide_resolution(
        Some(shared_deny_list_lookup(7)),
        Some(vec![obj_ref(0x0C, 4, 0x0C)]),
        None,
    );
    let gas = vec![GasCoin {
        reference: obj_ref(0x0F, 2, 0x0F),
        balance: DEFAULT_FEE_BUDGET - 1,
    }];
    router.fund(&gas, None, None, 750);
    match &router.state {
        PipelineState::Failed { error } => {
            assert_eq!(error.stage, Stage::Funding);
            match error.kind {
                ErrorKind::InsufficientFunds { budget } => assert_eq!(budget, DEFAULT_FEE_BUDGET),
                _ => panic!("expected InsufficientFunds"),
            }
        }
        _ => panic!("expected a Funding failure"),
    }
}

#[test]
fn no_gas_objects_fails_at_funding() {
    let mut router = Router::start(
        AppCommand::DenyListAdd(addr_with_tail(0xAA)),
        coin_type(),
        addr_with_tail(0x0A),
    );
    router.provide_resolution(
        Some(shared_deny_list_lookup(7)),
        Some(vec![obj_ref(0x0C, 4, 0x0C)]),
        None,
    );
    let no_gas: Vec<GasCoin> = Vec::new();
    router.fund(&no_gas, None, None, 750);
    match &router.state {
        PipelineState::Failed { error } => {
            assert_eq!(error.stage, Stage::Funding);
            assert!(matches!(error.kind, ErrorKind::NoGasObjects { .. }));
        }
        _ => panic!("expected a Funding failure"),
    }
}

#[test]
fn fee_never_doubles_as_transaction_input() {
    // the capability object itself has plenty of balance, but it is an
    // input of the transaction and must not be picked as the fee payer
    let mut router = Router::start(
        AppCommand::DenyListAdd(addr_with_tail(0xAA)),
        coin_type(),
        addr_with_tail(0x0A),
    );
    router.provide_resolution(
        Some(shared_deny_list_lookup(7)),
        Some(vec![obj_ref(0x0C, 4, 0x0C)]),
        None,
    );
    let gas = vec![
        GasCoin { reference: obj_ref(0x0C, 4, 0x0C), balance: u64::MAX },
        GasCoin { reference: obj_ref(0x0F, 2, 0x0F), balance: u64::MAX },
    ];
    router.fund(&gas, None, None, 750);
    match &router.state {
        PipelineState::Compiling { fee, .. } => {
            assert_eq!(fee.payment_object.id.bytes, id_with_tail(0x0F).bytes);
        }
        _ => panic!("expected the Compiling state"),
    }
}

#[test]
fn signing_failure_is_terminal() {
    let mut router = Router::start(
        AppCommand::DenyListAdd(addr_with_tail(0xAA)),
        coin_type(),
        addr_with_tail(0x0A),
    );
    router.provide_resolution(
        Some(shared_deny_list_lookup(7)),
        Some(vec![obj_ref(0x0C, 4, 0x0C)]),
        None,
    );
    let gas = vec![GasCoin { reference: obj_ref(0x0F, 2, 0x0F), balance: u64::MAX }];
    router.fund(&gas, None, None, 750);
    router.compile_tx();
    router.provide_signature(None);
    match &router.state {
        PipelineState::Failed { error } => {
            assert_eq!(error.stage, Stage::Signing);
            assert!(matches!(error.kind, ErrorKind::SigningError));
        }
        _ => panic!("expected a Signing failure"),
    }
}

fn run_to_submitting(router: &mut Router) {
    router.provide_resolution(
        Some(shared_deny_list_lookup(7)),
        Some(vec![obj_ref(0x0C, 4, 0x0C)]),
        None,
    );
    let gas = vec![GasCoin { reference: obj_ref(0x0F, 2, 0x0F), balance: u64::MAX }];
    router.fund(&gas, None, None, 750);
    router.compile_tx();
    router.provide_signature(Some(vec![0x55u8; 64]));
    assert!(matches!(router.state, PipelineState::Submitting { .. }));
}

#[test]
fn transport_failure_maps_to_network_error() {
    let mut router = Router::start(
        AppCommand::DenyListAdd(addr_with_tail(0xAA)),
        coin_type(),
        addr_with_tail(0x0A),
    );
    run_to_submitting(&mut router);
    router.provide_outcome(SubmitOutcome::Transport);
    match &router.state {
        PipelineState::Failed { error } => {
            assert_eq!(error.stage, Stage::Submitting);
            assert!(matches!(error.kind, ErrorKind::NetworkError));
        }
        _ => panic!("expected a Submitting failure"),
    }
}

#[test]
fn refusal_maps_to_rejected() {
    let mut router = Router::start(
        AppCommand::DenyListAdd(addr_with_tail(0xAA)),
        coin_type(),
        addr_with_tail(0x0A),
    );
    run_to_submitting(&mut router);
    router.provide_outcome(SubmitOutcome::Refused);
    match &router.state {
        PipelineState::Failed { error } => {
            assert_eq!(error.stage, Stage::Submitting);
            assert!(matches!(error.kind, ErrorKind::Rejected));
        }
        _ => panic!("expected a Submitting failure"),
    }
}

#[test]
fn repeated_deny_abort_propagates_execution_failed() {
    // re-running DenyAdd against an already-denied address aborts in the
    // contract; the pipeline must surface ExecutionFailed, carrying the
    // result, and never report Done
    let mut router = Router::start(
        AppCommand::DenyListAdd(addr_with_tail(0xAA)),
        coin_type(),
        addr_with_tail(0x0A),
    );
    run_to_submitting(&mut router);
    router.provide_outcome(SubmitOutcome::Executed {
        success: false,
        effects: vec![0xEE],
        input_echo: vec![0xEC],
    });
    match &router.state {
        PipelineState::Failed { error } => {
            assert_eq!(error.stage, Stage::Submitting);
            match &error.kind {
                ErrorKind::ExecutionFailed { result } => {
                    assert!(!result.success);
                    assert_eq!(result.effects, vec![0xEE]);
                    assert_eq!(result.input_echo, vec![0xEC]);
                }
                _ => panic!("expected ExecutionFailed"),
            }
        }
        _ => panic!("an executed abort must end in Failed, not Done"),
    }
}

#[test]
fn mint_and_transfer_pipeline_compiles_two_chained_operations() {
    // MintAndTransfer(1000, ...) compiles to mint then transfer-of-result
    // inside one transaction
    let mut router = Router::start(
        AppCommand::MintAndTransfer(1000, addr_with_tail(0xBB)),
        coin_type(),
        addr_with_tail(0x0A),
    );
    let plan = router.needed_lookups();
    assert!(plan.shared_object.is_none());
    assert_eq!(plan.capability.as_ref().unwrap().name, b"TreasuryCap".to_vec());
    router.provide_resolution(None, Some(vec![obj_ref(0x0B, 4, 0x0C)]), None);
    let gas = vec![GasCoin { reference: obj_ref(0x0F, 2, 0x0F), balance: u64::MAX }];
    router.fund(&gas, None, None, 750);
    router.compile_tx();
    match &router.state {
        PipelineState::Signing { tx } => {
            assert_eq!(tx.graph.operations.len(), 2);
        }
        _ => panic!("expected the Signing state"),
    }
}

#[test]
fn burn_fails_at_compiling_as_unsupported() {
    let mut router = Router::start(
        AppCommand::Burn(id_with_tail(0x05)),
        coin_type(),
        addr_with_tail(0x0A),
    );
    router.provide_resolution(None, None, None);
    let gas = vec![GasCoin { reference: obj_ref(0x0F, 2, 0x0F), balance: u64::MAX }];
    router.fund(&gas, None, None, 750);
    router.compile_tx();
    match &router.state {
        PipelineState::Failed { error } => {
            assert_eq!(error.stage, Stage::Compiling);
            assert!(matches!(error.kind, ErrorKind::UnsupportedCommand));
        }
        _ => panic!("expected a Compiling failure"),
    }
}

#[test]
fn transfer_pipeline_fetches_and_moves_the_subject() {
    let mut router = Router::start(
        AppCommand::Transfer(id_with_tail(0x05), addr_with_tail(0xBB)),
        coin_type(),
        addr_with_tail(0x0A),
    );
    let plan = router.needed_lookups();
    assert_eq!(plan.subject.as_ref().unwrap().bytes, id_with_tail(0x05).bytes);
    let lookup = ObjectLookup::Found {
        reference: obj_ref(0x05, 11, 0x06),
        owner: OwnerKind::AddressOwner { owner: addr_with_tail(0x0A) },
    };
    router.provide_resolution(None, None, Some(lookup));
    let gas = vec![GasCoin { reference: obj_ref(0x0F, 2, 0x0F), balance: u64::MAX }];
    router.fund(&gas, None, None, 750);
    router.compile_tx();
    match &router.state {
        PipelineState::Signing { tx } => {
            assert_eq!(tx.graph.inputs.len(), 2);
            assert_eq!(tx.graph.operations.len(), 1);
        }
        _ => panic!("expected the Signing state"),
    }
}

#[test]
fn missing_transfer_subject_fails_not_found() {
    let mut router = Router::start(
        AppCommand::Transfer(id_with_tail(0x05), addr_with_tail(0xBB)),
        coin_type(),
        addr_with_tail(0x0A),
    );
    router.provide_resolution(None, None, Some(ObjectLookup::Missing));
    match &router.state {
        PipelineState::Failed { error } => {
            assert_eq!(error.stage, Stage::Resolving);
            match &error.kind {
                ErrorKind::NotFound { object } => {
                    assert_eq!(object.bytes, id_with_tail(0x05).bytes)
                }
                _ => panic!("expected NotFound"),
            }
        }
        _ => panic!("expected a Resolving failure"),
    }
}
