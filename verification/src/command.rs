//! The administrative commands the client executes, and the deny-list
//! sub-command with its mapping to an entry-function name.

use vstd::prelude::*;
use crate::names::deny_add_function_name;
use crate::names::deny_add_function_bytes;
use crate::names::deny_remove_function_name;
use crate::names::deny_remove_function_bytes;
use crate::types::Address;
use crate::types::ObjectId;

verus! {

/// One administrative intent.  Each variant carries exactly the data its
/// call graph needs; no variant owns network state.
pub enum AppCommand {
    /// Put an address on the deny-list.
    DenyListAdd(Address),
    /// Take an address off the deny-list.
    DenyListRemove(Address),
    /// Mint the given amount and transfer the minted object.
    MintAndTransfer(u64, Address),
    /// Transfer an existing coin object.
    Transfer(ObjectId, Address),
    /// Destroy an existing coin object.  No call graph is defined for it
    /// yet; compiling it fails as unsupported.
    Burn(ObjectId),
}

impl AppCommand {
    pub open spec fn wf(&self) -> bool {
        match self {
            AppCommand::DenyListAdd(a) => a.wf(),
            AppCommand::DenyListRemove(a) => a.wf(),
            AppCommand::MintAndTransfer(_, a) => a.wf(),
            AppCommand::Transfer(o, a) => o.wf() && a.wf(),
            AppCommand::Burn(o) => o.wf(),
        }
    }
}

/// The two deny-list operations, each carrying the target address.
pub enum DenyListCommand {
    Add(Address),
    Remove(Address),
}

impl DenyListCommand {
    pub open spec fn wf(&self) -> bool {
        match self {
            DenyListCommand::Add(a) => a.wf(),
            DenyListCommand::Remove(a) => a.wf(),
        }
    }

    /// The target address, as a byte string.
    pub open spec fn spec_address(&self) -> Seq<u8> {
        match self {
            DenyListCommand::Add(a) => a.bytes@,
            DenyListCommand::Remove(a) => a.bytes@,
        }
    }

    /// The target address of either operation.
    pub fn address(&self) -> (r: Address)
        ensures
            r.bytes@ == self.spec_address(),
    {
        match self {
            DenyListCommand::Add(a) => a.dup(),
            DenyListCommand::Remove(a) => a.dup(),
        }
    }

    /// The entry-function name the operation compiles to.
    pub open spec fn spec_function_name(&self) -> Seq<u8> {
        match self {
            DenyListCommand::Add(_) => deny_add_function_name(),
            DenyListCommand::Remove(_) => deny_remove_function_name(),
        }
    }

    /// The entry-function name the operation compiles to, as bytes.
    pub fn function_name(&self) -> (r: Vec<u8>)
        ensures
            r@ == self.spec_function_name(),
    {
        match self {
            DenyListCommand::Add(_) => deny_add_function_bytes(),
            DenyListCommand::Remove(_) => deny_remove_function_bytes(),
        }
    }

    /// The deny-list view of a general command: defined exactly for the
    /// two deny-list variants.
    pub fn of_app_command(cmd: &AppCommand) -> (r: Option<DenyListCommand>)
        ensures
            cmd matches AppCommand::DenyListAdd(a) ==> (r matches Some(c) && c matches
                DenyListCommand::Add(b) && b.bytes@ == a.bytes@),
            cmd matches AppCommand::DenyListRemove(a) ==> (r matches Some(c) && c matches
                DenyListCommand::Remove(b) && b.bytes@ == a.bytes@),
            !(cmd is DenyListAdd || cmd is DenyListRemove) ==> r is None,
    {
        match cmd {
            AppCommand::DenyListAdd(a) => Some(DenyListCommand::Add(a.dup())),
            AppCommand::DenyListRemove(a) => Some(DenyListCommand::Remove(a.dup())),
            _ => None,
        }
    }
}

} // verus!
