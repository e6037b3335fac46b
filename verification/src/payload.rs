//! The canonical byte encoding of a compiled transaction.
//!
//! The pipeline signs and submits bytes, not structures.  Every encoder
//! here is a pure function of the mathematical value of its argument, so
//! the encoding of a transaction is decided by the object states and
//! plain values that went into it — fetching the same state twice and
//! compiling twice yields byte-for-byte the same payload.  The signing
//! message prepends a fixed intent marker that separates transaction
//! payloads from every other signable message kind.

use vstd::prelude::*;
use crate::bytes::clone_bytes;
use crate::bytes::encode_u64_le;
use crate::bytes::u64_le_bytes;
use crate::compiler::Argument;
use crate::compiler::CallGraph;
use crate::compiler::CallInput;
use crate::compiler::MoveCall;
use crate::compiler::ObjectArg;
use crate::compiler::Operation;
use crate::ident::CoinTypeDescriptor;
use crate::ident::CoinTypeModel;
use crate::types::Address;
use crate::types::FeePlan;
use crate::types::ObjectReference;
use crate::types::ObjectRefModel;

verus! {

/// A length-prefixed byte string: eight little-endian length bytes, then
/// the bytes themselves.
pub open spec fn length_prefixed(s: Seq<u8>) -> Seq<u8> {
    u64_le_bytes(s.len() as u64) + s
}

/// Encoding of an operation argument: a tag byte and the position.
pub open spec fn enc_argument(a: Argument) -> Seq<u8> {
    match a {
        Argument::Input(i) => seq![0u8, (i & 0xff) as u8, ((i >> 8) & 0xff) as u8],
        Argument::Result(i) => seq![1u8, (i & 0xff) as u8, ((i >> 8) & 0xff) as u8],
    }
}

/// Encodings of a list of arguments, in order.
pub open spec fn cat_arguments(s: Seq<Argument>) -> Seq<u8>
    decreases s.len(),
{
    if s.len() == 0 {
        Seq::empty()
    } else {
        cat_arguments(s.drop_last()) + enc_argument(s.last())
    }
}

/// Encoding of an exact object state: identity, version, digest.
pub open spec fn enc_object_ref(m: ObjectRefModel) -> Seq<u8> {
    m.id + u64_le_bytes(m.version) + m.digest
}

/// Encoding of an object input with its ownership kind.
pub open spec fn enc_object_arg(a: ObjectArg) -> Seq<u8> {
    match a {
        ObjectArg::ImmOrOwnedObject(r) => seq![0u8] + enc_object_ref(r.model()),
        ObjectArg::SharedObject { id, initial_shared_version, mutable } => seq![1u8] + id.bytes@
            + u64_le_bytes(initial_shared_version) + seq![if mutable { 1u8 } else { 0u8 }],
    }
}

/// Encoding of one input-table entry.
pub open spec fn enc_call_input(i: CallInput) -> Seq<u8> {
    match i {
        CallInput::ObjectInput(a) => seq![0u8] + enc_object_arg(a),
        CallInput::PureInput(b) => seq![1u8] + length_prefixed(b@),
    }
}

/// Encodings of the input table, in order.
pub open spec fn cat_call_inputs(s: Seq<CallInput>) -> Seq<u8>
    decreases s.len(),
{
    if s.len() == 0 {
        Seq::empty()
    } else {
        cat_call_inputs(s.drop_last()) + enc_call_input(s.last())
    }
}

/// Encoding of a coin type identity.
pub open spec fn enc_coin_type(m: CoinTypeModel) -> Seq<u8> {
    m.package + length_prefixed(m.module) + length_prefixed(m.name)
}

/// Encodings of a list of type arguments, in order.
pub open spec fn cat_coin_types(s: Seq<CoinTypeDescriptor>) -> Seq<u8>
    decreases s.len(),
{
    if s.len() == 0 {
        Seq::empty()
    } else {
        cat_coin_types(s.drop_last()) + enc_coin_type(s.last().model())
    }
}

/// Encoding of a contract call.
pub open spec fn enc_move_call(mc: MoveCall) -> Seq<u8> {
    mc.package.bytes@ + length_prefixed(mc.module@) + length_prefixed(mc.function@) + u64_le_bytes(
        mc.type_args@.len() as u64,
    ) + cat_coin_types(mc.type_args@) + u64_le_bytes(mc.args@.len() as u64) + cat_arguments(
        mc.args@,
    )
}

/// Encoding of one operation.
pub open spec fn enc_operation(op: Operation) -> Seq<u8> {
    match op {
        Operation::Call(mc) => seq![0u8] + enc_move_call(mc),
        Operation::TransferObjects { objects, recipient } => seq![1u8] + u64_le_bytes(
            objects@.len() as u64,
        ) + cat_arguments(objects@) + enc_argument(recipient),
    }
}

/// Encodings of the operation list, in order.
pub open spec fn cat_operations(s: Seq<Operation>) -> Seq<u8>
    decreases s.len(),
{
    if s.len() == 0 {
        Seq::empty()
    } else {
        cat_operations(s.drop_last()) + enc_operation(s.last())
    }
}

/// Encoding of a whole call graph: the input table, then the operations.
pub open spec fn enc_call_graph(g: CallGraph) -> Seq<u8> {
    u64_le_bytes(g.inputs@.len() as u64) + cat_call_inputs(g.inputs@) + u64_le_bytes(
        g.operations@.len() as u64,
    ) + cat_operations(g.operations@)
}

/// The signable transaction: sender, call graph and fee plan.
pub struct TransactionPayload {
    pub sender: Address,
    pub graph: CallGraph,
    pub fee: FeePlan,
}

impl TransactionPayload {
    pub open spec fn wf(&self) -> bool {
        self.sender.wf() && self.fee.wf()
    }
}

/// Encoding of the signable transaction.
pub open spec fn enc_payload(p: TransactionPayload) -> Seq<u8> {
    p.sender.bytes@ + enc_call_graph(p.graph) + enc_object_ref(p.fee.payment_object.model())
        + u64_le_bytes(p.fee.budget) + u64_le_bytes(p.fee.unit_price)
}

/// The intent marker for transaction payloads: scope, version and
/// application, all zero.
pub open spec fn intent_prefix() -> Seq<u8> {
    seq![0u8, 0u8, 0u8]
}

/// The message the signer actually signs: the intent marker, then the
/// encoded transaction.
pub open spec fn signing_message_of(tx: Seq<u8>) -> Seq<u8> {
    intent_prefix() + tx
}

/// Append a copy of `src` to `dst`.
pub fn append_bytes(dst: &mut Vec<u8>, src: &Vec<u8>)
    ensures
        final(dst)@ == old(dst)@ + src@,
{
    let mut i: usize = 0;
    while i < src.len()
        invariant
            i <= src@.len(),
            dst@ == old(dst)@ + src@.subrange(0, i as int),
        decreases src.len() - i,
    {
        dst.push(src[i]);
        i = i + 1;
        proof {
            assert(dst@ =~= old(dst)@ + src@.subrange(0, i as int));
        }
    }
    proof {
        assert(dst@ =~= old(dst)@ + src@);
    }
}

/// Serialize an operation argument.
pub fn encode_argument(a: &Argument, out: &mut Vec<u8>)
    ensures
        final(out)@ == old(out)@ + enc_argument(*a),
{
    match a {
        Argument::Input(i) => {
            out.push(0u8);
            out.push((*i & 0xff) as u8);
            out.push(((*i >> 8) & 0xff) as u8);
        },
        Argument::Result(i) => {
            out.push(1u8);
            out.push((*i & 0xff) as u8);
            out.push(((*i >> 8) & 0xff) as u8);
        },
    }
    proof {
        assert(out@ =~= old(out)@ + enc_argument(*a));
    }
}

/// Serialize a list of operation arguments: a length, then each one.
pub fn encode_argument_list(list: &Vec<Argument>, out: &mut Vec<u8>)
    ensures
        final(out)@ == old(out)@ + u64_le_bytes(list@.len() as u64) + cat_arguments(list@),
{
    let n = encode_u64_le(list.len() as u64);
    append_bytes(out, &n);
    let ghost mid = out@;
    let mut i: usize = 0;
    while i < list.len()
        invariant
            i <= list@.len(),
            out@ == mid + cat_arguments(list@.subrange(0, i as int)),
        decreases list.len() - i,
    {
        let ghost before = out@;
        encode_argument(&list[i], out);
        i = i + 1;
        proof {
            let s_i = list@.subrange(0, i as int);
            assert(s_i.len() == i);
            assert(s_i.drop_last() =~= list@.subrange(0, i as int - 1));
            assert(s_i.last() == list@[i as int - 1]);
            assert(cat_arguments(s_i) == cat_arguments(s_i.drop_last()) + enc_argument(s_i.last()));
            assert(out@ == before + enc_argument(list@[i as int - 1]));
            assert(out@ =~= mid + cat_arguments(s_i));
        }
    }
    proof {
        assert(list@.subrange(0, list@.len() as int) =~= list@);
    }
}

/// Serialize an exact object state.
pub fn encode_object_ref(r: &ObjectReference, out: &mut Vec<u8>)
    ensures
        final(out)@ == old(out)@ + enc_object_ref(r.model()),
{
    append_bytes(out, &r.id.bytes);
    let version = encode_u64_le(r.version);
    append_bytes(out, &version);
    append_bytes(out, &r.digest.bytes);
    proof {
        assert(out@ =~= old(out)@ + enc_object_ref(r.model()));
    }
}

/// Serialize an object input.
pub fn encode_object_arg(a: &ObjectArg, out: &mut Vec<u8>)
    ensures
        final(out)@ == old(out)@ + enc_object_arg(*a),
{
    match a {
        ObjectArg::ImmOrOwnedObject(r) => {
            out.push(0u8);
            encode_object_ref(r, out);
        },
        ObjectArg::SharedObject { id, initial_shared_version, mutable } => {
            out.push(1u8);
            append_bytes(out, &id.bytes);
            let version = encode_u64_le(*initial_shared_version);
            append_bytes(out, &version);
            out.push(if *mutable { 1u8 } else { 0u8 });
        },
    }
    proof {
        assert(out@ =~= old(out)@ + enc_object_arg(*a));
    }
}

/// Serialize a byte string with its length prefix.
pub fn encode_length_prefixed(b: &Vec<u8>, out: &mut Vec<u8>)
    ensures
        final(out)@ == old(out)@ + length_prefixed(b@),
{
    let len = encode_u64_le(b.len() as u64);
    append_bytes(out, &len);
    append_bytes(out, b);
    proof {
        assert(out@ =~= old(out)@ + length_prefixed(b@));
    }
}

/// Serialize one input-table entry.
pub fn encode_call_input(i: &CallInput, out: &mut Vec<u8>)
    ensures
        final(out)@ == old(out)@ + enc_call_input(*i),
{
    match i {
        CallInput::ObjectInput(a) => {
            out.push(0u8);
            encode_object_arg(a, out);
        },
        CallInput::PureInput(b) => {
            out.push(1u8);
            encode_length_prefixed(b, out);
        },
    }
    proof {
        assert(out@ =~= old(out)@ + enc_call_input(*i));
    }
}

/// Serialize a coin type identity.
pub fn encode_coin_type(d: &CoinTypeDescriptor, out: &mut Vec<u8>)
    ensures
        final(out)@ == old(out)@ + enc_coin_type(d.model()),
{
    append_bytes(out, &d.package.bytes);
    encode_length_prefixed(&d.module, out);
    encode_length_prefixed(&d.name, out);
    proof {
        assert(out@ =~= old(out)@ + enc_coin_type(d.model()));
    }
}

/// Serialize a contract call.
pub fn encode_move_call(mc: &MoveCall, out: &mut Vec<u8>)
    ensures
        final(out)@ == old(out)@ + enc_move_call(*mc),
{
    append_bytes(out, &mc.package.bytes);
    encode_length_prefixed(&mc.module, out);
    encode_length_prefixed(&mc.function, out);
    let n_types = encode_u64_le(mc.type_args.len() as u64);
    append_bytes(out, &n_types);
    let ghost mid = out@;
    let mut i: usize = 0;
    while i < mc.type_args.len()
        invariant
            i <= mc.type_args@.len(),
            out@ == mid + cat_coin_types(mc.type_args@.subrange(0, i as int)),
        decreases mc.type_args.len() - i,
    {
        let ghost before = out@;
        encode_coin_type(&mc.type_args[i], out);
        i = i + 1;
        proof {
            let s_i = mc.type_args@.subrange(0, i as int);
            assert(s_i.len() == i);
            assert(s_i.drop_last() =~= mc.type_args@.subrange(0, i as int - 1));
            assert(s_i.last() == mc.type_args@[i as int - 1]);
            assert(cat_coin_types(s_i) == cat_coin_types(s_i.drop_last()) + enc_coin_type(
                s_i.last().model(),
            ));
            assert(out@ == before + enc_coin_type(mc.type_args@[i as int - 1].model()));
            assert(out@ =~= mid + cat_coin_types(s_i));
        }
    }
    proof {
        assert(mc.type_args@.subrange(0, mc.type_args@.len() as int) =~= mc.type_args@);
    }
    encode_argument_list(&mc.args, out);
    proof {
        assert(out@ =~= old(out)@ + enc_move_call(*mc));
    }
}

/// Serialize one operation.
pub fn encode_operation(op: &Operation, out: &mut Vec<u8>)
    ensures
        final(out)@ == old(out)@ + enc_operation(*op),
{
    match op {
        Operation::Call(mc) => {
            out.push(0u8);
            encode_move_call(mc, out);
        },
        Operation::TransferObjects { objects, recipient } => {
            out.push(1u8);
            encode_argument_list(objects, out);
            encode_argument(recipient, out);
        },
    }
    proof {
        assert(out@ =~= old(out)@ + enc_operation(*op));
    }
}

/// Serialize a whole call graph.
pub fn encode_call_graph(g: &CallGraph) -> (r: Vec<u8>)
    ensures
        r@ == enc_call_graph(*g),
{
    let mut out: Vec<u8> = Vec::new();
    let n_inputs = encode_u64_le(g.inputs.len() as u64);
    append_bytes(&mut out, &n_inputs);
    let ghost mid0 = out@;
    let mut i: usize = 0;
    while i < g.inputs.len()
        invariant
            i <= g.inputs@.len(),
            out@ == mid0 + cat_call_inputs(g.inputs@.subrange(0, i as int)),
        decreases g.inputs.len() - i,
    {
        let ghost before = out@;
        encode_call_input(&g.inputs[i], &mut out);
        i = i + 1;
        proof {
            let s_i = g.inputs@.subrange(0, i as int);
            assert(s_i.len() == i);
            assert(s_i.drop_last() =~= g.inputs@.subrange(0, i as int - 1));
            assert(s_i.last() == g.inputs@[i as int - 1]);
            assert(cat_call_inputs(s_i) == cat_call_inputs(s_i.drop_last()) + enc_call_input(
                s_i.last(),
            ));
            assert(out@ == before + enc_call_input(g.inputs@[i as int - 1]));
            assert(out@ =~= mid0 + cat_call_inputs(s_i));
        }
    }
    proof {
        assert(g.inputs@.subrange(0, g.inputs@.len() as int) =~= g.inputs@);
    }
    let n_ops = encode_u64_le(g.operations.len() as u64);
    append_bytes(&mut out, &n_ops);
    let ghost mid1 = out@;
    let mut j: usize = 0;
    while j < g.operations.len()
        invariant
            j <= g.operations@.len(),
            out@ == mid1 + cat_operations(g.operations@.subrange(0, j as int)),
        decreases g.operations.len() - j,
    {
        let ghost before = out@;
        encode_operation(&g.operations[j], &mut out);
        j = j + 1;
        proof {
            let s_j = g.operations@.subrange(0, j as int);
            assert(s_j.len() == j);
            assert(s_j.drop_last() =~= g.operations@.subrange(0, j as int - 1));
            assert(s_j.last() == g.operations@[j as int - 1]);
            assert(cat_operations(s_j) == cat_operations(s_j.drop_last()) + enc_operation(
                s_j.last(),
            ));
            assert(out@ == before + enc_operation(g.operations@[j as int - 1]));
            assert(out@ =~= mid1 + cat_operations(s_j));
        }
    }
    proof {
        assert(g.operations@.subrange(0, g.operations@.len() as int) =~= g.operations@);
        assert(out@ =~= enc_call_graph(*g));
    }
    out
}

/// Serialize the signable transaction.
pub fn encode_payload(p: &TransactionPayload) -> (r: Vec<u8>)
    ensures
        r@ == enc_payload(*p),
{
    let mut out = clone_bytes(&p.sender.bytes);
    let graph = encode_call_graph(&p.graph);
    append_bytes(&mut out, &graph);
    encode_object_ref(&p.fee.payment_object, &mut out);
    let budget = encode_u64_le(p.fee.budget);
    append_bytes(&mut out, &budget);
    let price = encode_u64_le(p.fee.unit_price);
    append_bytes(&mut out, &price);
    proof {
        assert(out@ =~= enc_payload(*p));
    }
    out
}

/// Build the message to sign: the intent marker, then the transaction
/// bytes.
pub fn signing_message(tx: &Vec<u8>) -> (r: Vec<u8>)
    ensures
        r@ == signing_message_of(tx@),
{
    let mut out: Vec<u8> = Vec::new();
    out.push(0u8);
    out.push(0u8);
    out.push(0u8);
    append_bytes(&mut out, tx);
    proof {
        assert(out@ =~= signing_message_of(tx@));
    }
    out
}

} // verus!
