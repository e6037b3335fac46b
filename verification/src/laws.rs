//! The library's cross-cutting guarantees, stated and proved once.
//!
//! Each proof function here is a theorem about the contracts of the
//! compiler, the locator and the payload encoder: the argument tables of
//! the compiled call graphs, the preservation of the initial shared
//! version, and the determinism and injectivity of the canonical
//! encoding.

use vstd::prelude::*;
use crate::bytes::lemma_u64_le_injective;
use crate::bytes::u64_le_bytes;
use crate::compiler::call_arguments;
use crate::compiler::deny_graph_shape;
use crate::compiler::input_is_owned;
use crate::compiler::input_is_pure;
use crate::compiler::input_is_shared;
use crate::compiler::mint_graph_shape;
use crate::compiler::op_is_coin_call;
use crate::compiler::transfer_graph_shape;
use crate::compiler::Argument;
use crate::compiler::CallGraph;
use crate::compiler::CallInput;
use crate::compiler::ObjectArg;
use crate::compiler::Operation;
use crate::ident::CoinTypeModel;
use crate::locator::ObjectLookup;
use crate::names::mint_function_name;
use crate::payload::cat_arguments;
use crate::payload::cat_call_inputs;
use crate::payload::cat_coin_types;
use crate::payload::cat_operations;
use crate::payload::enc_call_graph;
use crate::payload::enc_call_input;
use crate::payload::enc_move_call;
use crate::payload::enc_object_ref;
use crate::payload::enc_operation;
use crate::payload::enc_payload;
use crate::payload::signing_message_of;
use crate::payload::TransactionPayload;
use crate::types::ObjectRefModel;
use crate::types::SharedHandleModel;

verus! {

/// The argument table of a compiled deny-list command: exactly three
/// inputs — the shared deny-list handle, the deny capability, the target
/// address, in that order — feeding one call whose argument list names
/// them in the same order.
pub proof fn lemma_deny_call_table(
    g: CallGraph,
    ct: CoinTypeModel,
    deny_list: SharedHandleModel,
    cap: ObjectRefModel,
    target: Seq<u8>,
    function: Seq<u8>,
)
    requires
        deny_graph_shape(g, ct, deny_list, cap, target, function),
    ensures
        g.inputs@.len() == 3,
        g.operations@.len() == 1,
        input_is_shared(g.inputs@[0], deny_list),
        input_is_owned(g.inputs@[1], cap),
        input_is_pure(g.inputs@[2], target),
        call_arguments(g.operations@[0]) =~= seq![
            Argument::Input(0),
            Argument::Input(1),
            Argument::Input(2),
        ],
        op_is_coin_call(g.operations@[0], function, ct),
{
}

/// The argument table of a compiled mint-and-transfer: two chained
/// operations in one transaction — the mint call over the treasury
/// capability and the amount, then a native transfer whose object is the
/// mint's result and whose recipient is the third input.
pub proof fn lemma_mint_call_table(
    g: CallGraph,
    ct: CoinTypeModel,
    treasury: ObjectRefModel,
    amount: u64,
    recipient: Seq<u8>,
)
    requires
        mint_graph_shape(g, ct, treasury, amount, recipient),
    ensures
        g.inputs@.len() == 3,
        g.operations@.len() == 2,
        input_is_owned(g.inputs@[0], treasury),
        input_is_pure(g.inputs@[1], u64_le_bytes(amount)),
        input_is_pure(g.inputs@[2], recipient),
        op_is_coin_call(g.operations@[0], mint_function_name(), ct),
        call_arguments(g.operations@[0]) =~= seq![Argument::Input(0), Argument::Input(1)],
        g.operations@[1] matches Operation::TransferObjects { objects, recipient: rec }
            && objects@ =~= seq![Argument::Result(0)] && rec == Argument::Input(2),
{
    assert(call_arguments(g.operations@[0]) =~= seq![Argument::Input(0), Argument::Input(1)]);
    match g.operations@[1] {
        Operation::TransferObjects { objects, recipient: rec } => {
            assert(objects@ =~= seq![Argument::Result(0)]);
        },
        _ => {
            assert(false);
        },
    }
}

/// The argument table of a compiled transfer: the existing object and
/// the recipient, feeding one native transfer and no contract call.
pub proof fn lemma_transfer_call_table(g: CallGraph, subject: ObjectRefModel, recipient: Seq<u8>)
    requires
        transfer_graph_shape(g, subject, recipient),
    ensures
        g.inputs@.len() == 2,
        g.operations@.len() == 1,
        input_is_owned(g.inputs@[0], subject),
        input_is_pure(g.inputs@[1], recipient),
        g.operations@[0] matches Operation::TransferObjects { objects, recipient: rec }
            && objects@ =~= seq![Argument::Input(0)] && rec == Argument::Input(1),
{
    match g.operations@[0] {
        Operation::TransferObjects { objects, recipient: rec } => {
            assert(objects@ =~= seq![Argument::Input(0)]);
        },
        _ => {
            assert(false);
        },
    }
}

/// A shared object looked up with `initial_shared_version = V` is
/// compiled into a shared input carrying exactly `V` — never a value
/// from any other source.
pub proof fn lemma_initial_version_preserved(
    lookup: ObjectLookup,
    handle: SharedHandleModel,
    g: CallGraph,
    ct: CoinTypeModel,
    cap: ObjectRefModel,
    target: Seq<u8>,
    function: Seq<u8>,
)
    requires
        lookup.found_shared(),
        handle.initial_shared_version == lookup.spec_initial_version(),
        deny_graph_shape(g, ct, handle, cap, target, function),
    ensures
        g.inputs@[0] matches CallInput::ObjectInput(a) && a matches ObjectArg::SharedObject {
            initial_shared_version, .. } && initial_shared_version
            == lookup.spec_initial_version(),
{
}

/// Argument lists with equal elements encode identically.
pub proof fn lemma_cat_arguments_pointwise(s1: Seq<Argument>, s2: Seq<Argument>)
    requires
        s1.len() == s2.len(),
        forall|i: int| 0 <= i < s1.len() ==> s1[i] == s2[i],
    ensures
        cat_arguments(s1) == cat_arguments(s2),
    decreases s1.len(),
{
    if s1.len() > 0 {
        lemma_cat_arguments_pointwise(s1.drop_last(), s2.drop_last());
    }
}

/// Type-argument lists with equal models encode identically.
pub proof fn lemma_cat_coin_types_pointwise(
    s1: Seq<crate::ident::CoinTypeDescriptor>,
    s2: Seq<crate::ident::CoinTypeDescriptor>,
)
    requires
        s1.len() == s2.len(),
        forall|i: int| 0 <= i < s1.len() ==> (#[trigger] s1[i]).model() == s2[i].model(),
    ensures
        cat_coin_types(s1) == cat_coin_types(s2),
    decreases s1.len(),
{
    if s1.len() > 0 {
        lemma_cat_coin_types_pointwise(s1.drop_last(), s2.drop_last());
    }
}

/// Input tables whose entries encode equally encode equally as wholes.
pub proof fn lemma_cat_call_inputs_pointwise(s1: Seq<CallInput>, s2: Seq<CallInput>)
    requires
        s1.len() == s2.len(),
        forall|i: int| 0 <= i < s1.len() ==> enc_call_input(#[trigger] s1[i]) == enc_call_input(
            s2[i],
        ),
    ensures
        cat_call_inputs(s1) == cat_call_inputs(s2),
    decreases s1.len(),
{
    if s1.len() > 0 {
        lemma_cat_call_inputs_pointwise(s1.drop_last(), s2.drop_last());
    }
}

/// Operation lists whose operations encode equally encode equally.
pub proof fn lemma_cat_operations_pointwise(s1: Seq<Operation>, s2: Seq<Operation>)
    requires
        s1.len() == s2.len(),
        forall|i: int| 0 <= i < s1.len() ==> enc_operation(#[trigger] s1[i]) == enc_operation(
            s2[i],
        ),
    ensures
        cat_operations(s1) == cat_operations(s2),
    decreases s1.len(),
{
    if s1.len() > 0 {
        lemma_cat_operations_pointwise(s1.drop_last(), s2.drop_last());
    }
}

/// Two calls into the coin module with the same function, the same type
/// model and the same argument list encode identically.
pub proof fn lemma_coin_call_encoding(
    op1: Operation,
    op2: Operation,
    function: Seq<u8>,
    ct: CoinTypeModel,
)
    requires
        op_is_coin_call(op1, function, ct),
        op_is_coin_call(op2, function, ct),
        call_arguments(op1) == call_arguments(op2),
    ensures
        enc_operation(op1) == enc_operation(op2),
{
    match (op1, op2) {
        (Operation::Call(m1), Operation::Call(m2)) => {
            lemma_cat_coin_types_pointwise(m1.type_args@, m2.type_args@);
            lemma_cat_arguments_pointwise(m1.args@, m2.args@);
            assert(enc_move_call(m1) == enc_move_call(m2));
        },
        _ => {
            assert(false);
        },
    }
}

/// Determinism of the compiled deny-list transaction: any two call
/// graphs with the deny shape over the same coin type, deny-list state,
/// capability state and target encode byte-for-byte identically.  A
/// second independent fetch of the same object states followed by a
/// second compilation therefore yields the same submitted bytes.
pub proof fn lemma_deny_graph_encoding_deterministic(
    g1: CallGraph,
    g2: CallGraph,
    ct: CoinTypeModel,
    deny_list: SharedHandleModel,
    cap: ObjectRefModel,
    target: Seq<u8>,
    function: Seq<u8>,
)
    requires
        deny_graph_shape(g1, ct, deny_list, cap, target, function),
        deny_graph_shape(g2, ct, deny_list, cap, target, function),
    ensures
        enc_call_graph(g1) == enc_call_graph(g2),
{
    assert forall|i: int| 0 <= i < 3 implies enc_call_input(#[trigger] g1.inputs@[i])
        == enc_call_input(g2.inputs@[i]) by {
        if i == 0 {
            lemma_shared_input_encoding(g1.inputs@[0], g2.inputs@[0], deny_list);
        } else if i == 1 {
            lemma_owned_input_encoding(g1.inputs@[1], g2.inputs@[1], cap);
        } else {
            lemma_pure_input_encoding(g1.inputs@[2], g2.inputs@[2], target);
        }
    };
    lemma_cat_call_inputs_pointwise(g1.inputs@, g2.inputs@);
    assert(call_arguments(g1.operations@[0]) =~= call_arguments(g2.operations@[0]));
    lemma_coin_call_encoding(g1.operations@[0], g2.operations@[0], function, ct);
    lemma_cat_operations_pointwise(g1.operations@, g2.operations@);
}

/// Two shared inputs over the same handle model encode identically.
pub proof fn lemma_shared_input_encoding(i1: CallInput, i2: CallInput, h: SharedHandleModel)
    requires
        input_is_shared(i1, h),
        input_is_shared(i2, h),
    ensures
        enc_call_input(i1) == enc_call_input(i2),
{
}

/// Two owned inputs over the same object state encode identically.
pub proof fn lemma_owned_input_encoding(i1: CallInput, i2: CallInput, m: ObjectRefModel)
    requires
        input_is_owned(i1, m),
        input_is_owned(i2, m),
    ensures
        enc_call_input(i1) == enc_call_input(i2),
{
}

/// Two pure inputs with the same bytes encode identically.
pub proof fn lemma_pure_input_encoding(i1: CallInput, i2: CallInput, b: Seq<u8>)
    requires
        input_is_pure(i1, b),
        input_is_pure(i2, b),
    ensures
        enc_call_input(i1) == enc_call_input(i2),
{
}

/// Two transfer operations with equal argument values encode
/// identically.
pub proof fn lemma_transfer_op_encoding(op1: Operation, op2: Operation)
    requires
        op1 matches Operation::TransferObjects { objects, recipient } ==> (op2 matches
            Operation::TransferObjects { objects: o2, recipient: r2 } && objects@ == o2@
            && recipient == r2),
        op1 is TransferObjects,
    ensures
        enc_operation(op1) == enc_operation(op2),
{
    match (op1, op2) {
        (
            Operation::TransferObjects { objects: o1, recipient: r1 },
            Operation::TransferObjects { objects: o2, recipient: r2 },
        ) => {
            lemma_cat_arguments_pointwise(o1@, o2@);
        },
        _ => {
            assert(false);
        },
    }
}

/// Determinism of the compiled mint-and-transfer transaction: any two
/// call graphs with the mint shape over the same coin type, treasury
/// state, amount and recipient encode byte-for-byte identically.
pub proof fn lemma_mint_graph_encoding_deterministic(
    g1: CallGraph,
    g2: CallGraph,
    ct: CoinTypeModel,
    treasury: ObjectRefModel,
    amount: u64,
    recipient: Seq<u8>,
)
    requires
        mint_graph_shape(g1, ct, treasury, amount, recipient),
        mint_graph_shape(g2, ct, treasury, amount, recipient),
    ensures
        enc_call_graph(g1) == enc_call_graph(g2),
{
    assert forall|i: int| 0 <= i < 3 implies enc_call_input(#[trigger] g1.inputs@[i])
        == enc_call_input(g2.inputs@[i]) by {
        if i == 0 {
            lemma_owned_input_encoding(g1.inputs@[0], g2.inputs@[0], treasury);
        } else if i == 1 {
            lemma_pure_input_encoding(g1.inputs@[1], g2.inputs@[1], u64_le_bytes(amount));
        } else {
            lemma_pure_input_encoding(g1.inputs@[2], g2.inputs@[2], recipient);
        }
    };
    lemma_cat_call_inputs_pointwise(g1.inputs@, g2.inputs@);
    assert(call_arguments(g1.operations@[0]) =~= call_arguments(g2.operations@[0]));
    lemma_coin_call_encoding(g1.operations@[0], g2.operations@[0], mint_function_name(), ct);
    match (g1.operations@[1], g2.operations@[1]) {
        (
            Operation::TransferObjects { objects: o1, recipient: r1 },
            Operation::TransferObjects { objects: o2, recipient: r2 },
        ) => {
            assert(o1@ =~= o2@);
            lemma_transfer_op_encoding(g1.operations@[1], g2.operations@[1]);
        },
        _ => {
            assert(false);
        },
    }
    lemma_cat_operations_pointwise(g1.operations@, g2.operations@);
}

/// Determinism of the compiled transfer transaction: any two call graphs
/// with the transfer shape over the same object state and recipient
/// encode byte-for-byte identically.
pub proof fn lemma_transfer_graph_encoding_deterministic(
    g1: CallGraph,
    g2: CallGraph,
    subject: ObjectRefModel,
    recipient: Seq<u8>,
)
    requires
        transfer_graph_shape(g1, subject, recipient),
        transfer_graph_shape(g2, subject, recipient),
    ensures
        enc_call_graph(g1) == enc_call_graph(g2),
{
    assert forall|i: int| 0 <= i < 2 implies enc_call_input(#[trigger] g1.inputs@[i])
        == enc_call_input(g2.inputs@[i]) by {
        if i == 0 {
            lemma_owned_input_encoding(g1.inputs@[0], g2.inputs@[0], subject);
        } else {
            lemma_pure_input_encoding(g1.inputs@[1], g2.inputs@[1], recipient);
        }
    };
    lemma_cat_call_inputs_pointwise(g1.inputs@, g2.inputs@);
    match (g1.operations@[0], g2.operations@[0]) {
        (
            Operation::TransferObjects { objects: o1, recipient: r1 },
            Operation::TransferObjects { objects: o2, recipient: r2 },
        ) => {
            assert(o1@ =~= o2@);
            lemma_transfer_op_encoding(g1.operations@[0], g2.operations@[0]);
        },
        _ => {
            assert(false);
        },
    }
    lemma_cat_operations_pointwise(g1.operations@, g2.operations@);
}

/// Determinism of the whole signable message: equal senders, equal call
/// graph encodings and equal fee plans give byte-for-byte equal signing
/// messages.
pub proof fn lemma_signing_message_deterministic(p1: TransactionPayload, p2: TransactionPayload)
    requires
        p1.sender.bytes@ == p2.sender.bytes@,
        enc_call_graph(p1.graph) == enc_call_graph(p2.graph),
        p1.fee.payment_object.model() == p2.fee.payment_object.model(),
        p1.fee.budget == p2.fee.budget,
        p1.fee.unit_price == p2.fee.unit_price,
    ensures
        signing_message_of(enc_payload(p1)) == signing_message_of(enc_payload(p2)),
{
}

/// The canonical encoding of an object reference is injective: equal
/// bytes can only come from the same object state.
pub proof fn lemma_object_ref_encoding_injective(m1: ObjectRefModel, m2: ObjectRefModel)
    requires
        m1.id.len() == 32,
        m1.digest.len() == 32,
        m2.id.len() == 32,
        m2.digest.len() == 32,
        enc_object_ref(m1) == enc_object_ref(m2),
    ensures
        m1 == m2,
{
    let e1 = enc_object_ref(m1);
    let e2 = enc_object_ref(m2);
    assert(e1.len() == 72);
    assert(m1.id =~= e1.subrange(0, 32));
    assert(m2.id =~= e2.subrange(0, 32));
    assert(u64_le_bytes(m1.version) =~= e1.subrange(32, 40));
    assert(u64_le_bytes(m2.version) =~= e2.subrange(32, 40));
    lemma_u64_le_injective(m1.version, m2.version);
    assert(m1.digest =~= e1.subrange(40, 72));
    assert(m2.digest =~= e2.subrange(40, 72));
}

} // verus!
