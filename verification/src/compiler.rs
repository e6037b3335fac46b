//! Transaction Compiler: translate one administrative command into a
//! programmable-transaction call graph.
//!
//! A call graph is an input table (object references, shared-object
//! handles, serialized pure values) and an ordered list of operations
//! whose arguments point into that table or at earlier results.  The
//! compiler hardcodes the known contract interface: argument order is
//! exactly what the target entry function expects, and is pinned by the
//! contracts below.

use vstd::prelude::*;
use crate::bytes::clone_bytes;
use crate::bytes::encode_u64_le;
use crate::bytes::u64_le_bytes;
use crate::command::AppCommand;
use crate::command::DenyListCommand;
use crate::error::ErrorKind;
use crate::ident::CoinTypeDescriptor;
use crate::ident::CoinTypeModel;
use crate::names::coin_module_name;
use crate::names::coin_module_bytes;
use crate::names::framework_package_id;
use crate::names::framework_package_bytes;
use crate::names::mint_function_name;
use crate::names::mint_function_bytes;
use crate::types::ObjectId;
use crate::types::ObjectReference;
use crate::types::ObjectRefModel;
use crate::types::SharedObjectHandle;
use crate::types::SharedHandleModel;

verus! {

/// An argument of an operation: an entry of the input table, or the
/// result of an earlier operation in the same transaction.
#[derive(Clone, Copy, Debug, PartialEq, Eq, Structural)]
pub enum Argument {
    /// The input-table entry at this position.
    Input(u16),
    /// The result of the operation at this position.
    Result(u16),
}

/// An object input, with its ownership kind.
pub enum ObjectArg {
    /// An owned (or immutable) object at an exact state.
    ImmOrOwnedObject(ObjectReference),
    /// A shared object, referenced by identity and initial shared
    /// version, with the requested access.
    SharedObject { id: ObjectId, initial_shared_version: u64, mutable: bool },
}

/// One entry of the input table.
pub enum CallInput {
    /// Passed by reference, with ownership kind.
    ObjectInput(ObjectArg),
    /// Passed by value, already serialized.
    PureInput(Vec<u8>),
}

/// A call to an entry function of an on-chain module.
pub struct MoveCall {
    pub package: ObjectId,
    pub module: Vec<u8>,
    pub function: Vec<u8>,
    pub type_args: Vec<CoinTypeDescriptor>,
    pub args: Vec<Argument>,
}

/// One operation of the call graph.
pub enum Operation {
    /// A smart-contract call.
    Call(MoveCall),
    /// The native transfer of objects to a recipient address.
    TransferObjects { objects: Vec<Argument>, recipient: Argument },
}

/// The compiled transaction body: input table plus ordered operations.
pub struct CallGraph {
    pub inputs: Vec<CallInput>,
    pub operations: Vec<Operation>,
}

/// Is this input the given shared-object handle?
pub open spec fn input_is_shared(inp: CallInput, h: SharedHandleModel) -> bool {
    &&& inp matches CallInput::ObjectInput(a)
    &&& a matches ObjectArg::SharedObject { id, initial_shared_version, mutable }
    &&& id.bytes@ == h.id
    &&& initial_shared_version == h.initial_shared_version
    &&& mutable == h.mutable
}

/// Is this input the given owned object at its exact state?
pub open spec fn input_is_owned(inp: CallInput, m: ObjectRefModel) -> bool {
    &&& inp matches CallInput::ObjectInput(a)
    &&& a matches ObjectArg::ImmOrOwnedObject(r)
    &&& r.model() == m
}

/// Is this input the given pure value?
pub open spec fn input_is_pure(inp: CallInput, bytes: Seq<u8>) -> bool {
    &&& inp matches CallInput::PureInput(b)
    &&& b@ == bytes
}

/// Is this operation a call into the framework's coin module with the
/// given function name, type-parameterized by the coin type alone?
pub open spec fn op_is_coin_call(op: Operation, function: Seq<u8>, ct: CoinTypeModel) -> bool {
    &&& op matches Operation::Call(mc)
    &&& mc.package.bytes@ == framework_package_id()
    &&& mc.module@ == coin_module_name()
    &&& mc.function@ == function
    &&& mc.type_args@.len() == 1
    &&& mc.type_args@[0].model() == ct
}

/// The argument list of a call operation.
pub open spec fn call_arguments(op: Operation) -> Seq<Argument> {
    match op {
        Operation::Call(mc) => mc.args@,
        Operation::TransferObjects { .. } => Seq::empty(),
    }
}

/// Shape of a compiled deny-list command: the shared deny-list handle
/// (mutable), the deny capability and the target address, in that order,
/// feeding one coin-module call.
pub open spec fn deny_graph_shape(
    g: CallGraph,
    ct: CoinTypeModel,
    deny_list: SharedHandleModel,
    cap: ObjectRefModel,
    target: Seq<u8>,
    function: Seq<u8>,
) -> bool {
    &&& g.inputs@.len() == 3
    &&& input_is_shared(g.inputs@[0], deny_list)
    &&& input_is_owned(g.inputs@[1], cap)
    &&& input_is_pure(g.inputs@[2], target)
    &&& g.operations@.len() == 1
    &&& op_is_coin_call(g.operations@[0], function, ct)
    &&& call_arguments(g.operations@[0]).len() == 3
    &&& call_arguments(g.operations@[0])[0] == Argument::Input(0)
    &&& call_arguments(g.operations@[0])[1] == Argument::Input(1)
    &&& call_arguments(g.operations@[0])[2] == Argument::Input(2)
}

/// Shape of a compiled mint-and-transfer: the treasury capability and
/// the amount feed the mint call, and a second, chained operation
/// transfers the minted result to the recipient — two operations in one
/// transaction.
pub open spec fn mint_graph_shape(
    g: CallGraph,
    ct: CoinTypeModel,
    treasury: ObjectRefModel,
    amount: u64,
    recipient: Seq<u8>,
) -> bool {
    &&& g.inputs@.len() == 3
    &&& input_is_owned(g.inputs@[0], treasury)
    &&& input_is_pure(g.inputs@[1], u64_le_bytes(amount))
    &&& input_is_pure(g.inputs@[2], recipient)
    &&& g.operations@.len() == 2
    &&& op_is_coin_call(g.operations@[0], mint_function_name(), ct)
    &&& call_arguments(g.operations@[0]).len() == 2
    &&& call_arguments(g.operations@[0])[0] == Argument::Input(0)
    &&& call_arguments(g.operations@[0])[1] == Argument::Input(1)
    &&& (g.operations@[1] matches Operation::TransferObjects { objects, recipient: rec }
        && objects@.len() == 1 && objects@[0] == Argument::Result(0) && rec == Argument::Input(2))
}

/// Shape of a compiled transfer of an existing object: the object and
/// the recipient feed one native transfer, no contract call.
pub open spec fn transfer_graph_shape(
    g: CallGraph,
    subject: ObjectRefModel,
    recipient: Seq<u8>,
) -> bool {
    &&& g.inputs@.len() == 2
    &&& input_is_owned(g.inputs@[0], subject)
    &&& input_is_pure(g.inputs@[1], recipient)
    &&& g.operations@.len() == 1
    &&& (g.operations@[0] matches Operation::TransferObjects { objects, recipient: rec }
        && objects@.len() == 1 && objects@[0] == Argument::Input(0) && rec == Argument::Input(1))
}

/// Compile a deny-list operation against the resolved deny-list handle
/// and deny capability.
pub fn compile_deny_list(
    cmd: &DenyListCommand,
    coin_type: &CoinTypeDescriptor,
    deny_list: &SharedObjectHandle,
    deny_cap: &ObjectReference,
) -> (g: CallGraph)
    ensures
        deny_graph_shape(
            g,
            coin_type.model(),
            deny_list.model(),
            deny_cap.model(),
            cmd.spec_address(),
            cmd.spec_function_name(),
        ),
{
    let mut inputs: Vec<CallInput> = Vec::new();
    inputs.push(
        CallInput::ObjectInput(
            ObjectArg::SharedObject {
                id: deny_list.id.dup(),
                initial_shared_version: deny_list.initial_shared_version,
                mutable: deny_list.mutable,
            },
        ),
    );
    inputs.push(CallInput::ObjectInput(ObjectArg::ImmOrOwnedObject(deny_cap.dup())));
    inputs.push(CallInput::PureInput(cmd.address().bytes));
    let mut args: Vec<Argument> = Vec::new();
    args.push(Argument::Input(0));
    args.push(Argument::Input(1));
    args.push(Argument::Input(2));
    let mut type_args: Vec<CoinTypeDescriptor> = Vec::new();
    type_args.push(coin_type.dup());
    let call = MoveCall {
        package: ObjectId { bytes: framework_package_bytes() },
        module: coin_module_bytes(),
        function: cmd.function_name(),
        type_args,
        args,
    };
    let mut operations: Vec<Operation> = Vec::new();
    operations.push(Operation::Call(call));
    CallGraph { inputs, operations }
}

/// Compile the call graph that denies `addr`: the deny-list entry
/// points compiled with the add operation.
pub fn deny_list_add(
    coin_type: &CoinTypeDescriptor,
    deny_list: &SharedObjectHandle,
    deny_cap: &ObjectReference,
    addr: &crate::types::Address,
) -> (g: CallGraph)
    ensures
        deny_graph_shape(
            g,
            coin_type.model(),
            deny_list.model(),
            deny_cap.model(),
            addr.bytes@,
            crate::names::deny_add_function_name(),
        ),
{
    compile_deny_list(&DenyListCommand::Add(addr.dup()), coin_type, deny_list, deny_cap)
}

/// Compile the call graph that un-denies `addr`: the deny-list entry
/// points compiled with the remove operation.
pub fn deny_list_remove(
    coin_type: &CoinTypeDescriptor,
    deny_list: &SharedObjectHandle,
    deny_cap: &ObjectReference,
    addr: &crate::types::Address,
) -> (g: CallGraph)
    ensures
        deny_graph_shape(
            g,
            coin_type.model(),
            deny_list.model(),
            deny_cap.model(),
            addr.bytes@,
            crate::names::deny_remove_function_name(),
        ),
{
    compile_deny_list(&DenyListCommand::Remove(addr.dup()), coin_type, deny_list, deny_cap)
}

/// Compile a mint of `amount` with a chained transfer of the minted
/// object to `recipient`.
pub fn compile_mint_and_transfer(
    coin_type: &CoinTypeDescriptor,
    treasury_cap: &ObjectReference,
    amount: u64,
    recipient: &crate::types::Address,
) -> (g: CallGraph)
    ensures
        mint_graph_shape(
            g,
            coin_type.model(),
            treasury_cap.model(),
            amount,
            recipient.bytes@,
        ),
{
    let mut inputs: Vec<CallInput> = Vec::new();
    inputs.push(CallInput::ObjectInput(ObjectArg::ImmOrOwnedObject(treasury_cap.dup())));
    inputs.push(CallInput::PureInput(encode_u64_le(amount)));
    inputs.push(CallInput::PureInput(clone_bytes(&recipient.bytes)));
    let mut args: Vec<Argument> = Vec::new();
    args.push(Argument::Input(0));
    args.push(Argument::Input(1));
    let mut type_args: Vec<CoinTypeDescriptor> = Vec::new();
    type_args.push(coin_type.dup());
    let call = MoveCall {
        package: ObjectId { bytes: framework_package_bytes() },
        module: coin_module_bytes(),
        function: mint_function_bytes(),
        type_args,
        args,
    };
    let mut operations: Vec<Operation> = Vec::new();
    operations.push(Operation::Call(call));
    let mut transferred: Vec<Argument> = Vec::new();
    transferred.push(Argument::Result(0));
    operations.push(
        Operation::TransferObjects { objects: transferred, recipient: Argument::Input(2) },
    );
    CallGraph { inputs, operations }
}

/// Compile the native transfer of an existing object to a recipient.
pub fn compile_transfer(subject: &ObjectReference, recipient: &crate::types::Address) -> (g:
    CallGraph)
    ensures
        transfer_graph_shape(g, subject.model(), recipient.bytes@),
{
    let mut inputs: Vec<CallInput> = Vec::new();
    inputs.push(CallInput::ObjectInput(ObjectArg::ImmOrOwnedObject(subject.dup())));
    inputs.push(CallInput::PureInput(clone_bytes(&recipient.bytes)));
    let mut transferred: Vec<Argument> = Vec::new();
    transferred.push(Argument::Input(0));
    let mut operations: Vec<Operation> = Vec::new();
    operations.push(
        Operation::TransferObjects { objects: transferred, recipient: Argument::Input(1) },
    );
    CallGraph { inputs, operations }
}

/// Translate one command into its call graph, given whatever resolved
/// state the variant needs.  Exactly one call graph per supported
/// variant, as the fixed interface table prescribes; `Burn` has no call
/// graph defined and fails as unsupported.  No other local validation
/// happens here: type and argument correctness beyond the table are the
/// ledger's to enforce at execution time.
pub fn compile(
    command: &AppCommand,
    coin_type: &CoinTypeDescriptor,
    shared_state: Option<&SharedObjectHandle>,
    capability: Option<&ObjectReference>,
    subject: Option<&ObjectReference>,
) -> (r: Result<CallGraph, ErrorKind>)
    requires
        command is DenyListAdd || command is DenyListRemove ==> shared_state is Some && capability
            is Some,
        command is MintAndTransfer ==> capability is Some,
        command is Transfer ==> subject is Some,
    ensures
        command matches AppCommand::DenyListAdd(a) ==> (r matches Ok(g) && deny_graph_shape(
            g,
            coin_type.model(),
            shared_state->Some_0.model(),
            capability->Some_0.model(),
            a.bytes@,
            crate::names::deny_add_function_name(),
        )),
        command matches AppCommand::DenyListRemove(a) ==> (r matches Ok(g) && deny_graph_shape(
            g,
            coin_type.model(),
            shared_state->Some_0.model(),
            capability->Some_0.model(),
            a.bytes@,
            crate::names::deny_remove_function_name(),
        )),
        command matches AppCommand::MintAndTransfer(amount, to) ==> (r matches Ok(g)
            && mint_graph_shape(
            g,
            coin_type.model(),
            capability->Some_0.model(),
            *amount,
            to.bytes@,
        )),
        command matches AppCommand::Transfer(_, to) ==> (r matches Ok(g) && transfer_graph_shape(
            g,
            subject->Some_0.model(),
            to.bytes@,
        )),
        command is Burn ==> (r matches Err(e) && e is UnsupportedCommand),
{
    match command {
        AppCommand::DenyListAdd(a) => {
            let cmd = DenyListCommand::Add(a.dup());
            match (shared_state, capability) {
                (Some(dl), Some(cap)) => Ok(compile_deny_list(&cmd, coin_type, dl, cap)),
                _ => {
                    proof {
                        assert(false);
                    }
                    Err(ErrorKind::UnsupportedCommand)
                },
            }
        },
        AppCommand::DenyListRemove(a) => {
            let cmd = DenyListCommand::Remove(a.dup());
            match (shared_state, capability) {
                (Some(dl), Some(cap)) => Ok(compile_deny_list(&cmd, coin_type, dl, cap)),
                _ => {
                    proof {
                        assert(false);
                    }
                    Err(ErrorKind::UnsupportedCommand)
                },
            }
        },
        AppCommand::MintAndTransfer(amount, to) => {
            match capability {
                Some(cap) => Ok(compile_mint_and_transfer(coin_type, cap, *amount, to)),
                None => {
                    proof {
                        assert(false);
                    }
                    Err(ErrorKind::UnsupportedCommand)
                },
            }
        },
        AppCommand::Transfer(_, to) => {
            match subject {
                Some(s) => Ok(compile_transfer(s, to)),
                None => {
                    proof {
                        assert(false);
                    }
                    Err(ErrorKind::UnsupportedCommand)
                },
            }
        },
        AppCommand::Burn(_) => Err(ErrorKind::UnsupportedCommand),
    }
}

} // verus!
