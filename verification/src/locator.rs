//! Object Locator: the decisions taken over what the ledger reports.
//!
//! The network round-trips themselves happen outside the library; they
//! hand back an [`ObjectLookup`] or a list of matching references, and
//! the functions here classify those answers: build the shared-object
//! handle, or pick the capability object, or fail with the precise error
//! the pipeline surfaces.

use vstd::prelude::*;
use crate::ident::CoinTypeDescriptor;
use crate::error::ErrorKind;
use crate::names::coin_module_name;
use crate::names::coin_module_bytes;
use crate::names::deny_cap_type_name;
use crate::names::deny_cap_type_bytes;
use crate::names::framework_package_id;
use crate::names::framework_package_bytes;
use crate::names::treasury_cap_type_name;
use crate::names::treasury_cap_type_bytes;
use crate::types::Address;
use crate::types::ObjectId;
use crate::types::ObjectReference;
use crate::types::SharedObjectHandle;
use crate::types::SharedHandleModel;

verus! {

/// Ownership metadata of an object, as the ledger reports it.
pub enum OwnerKind {
    /// Owned by a single address.
    AddressOwner { owner: Address },
    /// Shared: multi-writer, serialized by the network; the version at
    /// which the object became shared is fixed for its lifetime.
    Shared { initial_shared_version: u64 },
    /// Immutable: frozen, never written again.
    Immutable,
}

/// The answer of an object-by-identity lookup.
pub enum ObjectLookup {
    /// The ledger knows no such object.
    Missing,
    /// The object exists, at this exact state and with this ownership.
    Found { reference: ObjectReference, owner: OwnerKind },
}

impl ObjectLookup {
    /// Did the lookup find an object with shared ownership?
    pub open spec fn found_shared(&self) -> bool {
        match self {
            ObjectLookup::Found { owner: OwnerKind::Shared { .. }, .. } => true,
            _ => false,
        }
    }

    /// The version at which the found object became shared.
    pub open spec fn spec_initial_version(&self) -> u64
        recommends
            self.found_shared(),
    {
        match self {
            ObjectLookup::Found { owner: OwnerKind::Shared { initial_shared_version }, .. } => {
                *initial_shared_version
            },
            _ => 0u64,
        }
    }
}

/// Build the handle for a well-known shared object from a fresh lookup.
/// Fails with `NotFound` when the object is absent and with
/// `InvalidOwnership` when its ownership is not shared; otherwise the
/// handle carries the requested identity and exactly the
/// `initial_shared_version` the ledger reported, marked mutable.
pub fn locate_shared(id: &ObjectId, lookup: &ObjectLookup) -> (r: Result<
    SharedObjectHandle,
    ErrorKind,
>)
    ensures
        lookup is Missing ==> (r matches Err(e) && e matches ErrorKind::NotFound { object }
            && object.bytes@ == id.bytes@),
        lookup.found_shared() ==> (r matches Ok(h) && h.model() == (SharedHandleModel {
            id: id.bytes@,
            initial_shared_version: lookup.spec_initial_version(),
            mutable: true,
        })),
        lookup is Found && !lookup.found_shared() ==> (r matches Err(e) && e matches
            ErrorKind::InvalidOwnership { object } && object.bytes@ == id.bytes@),
        r matches Ok(h) ==> h.wf() == id.wf(),
{
    match lookup {
        ObjectLookup::Missing => Err(ErrorKind::NotFound { object: id.dup() }),
        ObjectLookup::Found { owner: OwnerKind::Shared { initial_shared_version }, .. } => Ok(
            SharedObjectHandle {
                id: id.dup(),
                initial_shared_version: *initial_shared_version,
                mutable: true,
            },
        ),
        ObjectLookup::Found { .. } => Err(ErrorKind::InvalidOwnership { object: id.dup() }),
    }
}

/// Pick the capability object out of the answer of a type-filtered
/// ownership query.  With no match the command cannot proceed:
/// `CapabilityMissing`.  With one or more matches the first reported
/// reference is taken, deterministically in the query's order.
pub fn locate_owned_capability(owner: &Address, found: &Vec<ObjectReference>) -> (r: Result<
    ObjectReference,
    ErrorKind,
>)
    ensures
        found@.len() == 0 ==> (r matches Err(e) && e matches ErrorKind::CapabilityMissing {
            owner: o } && o.bytes@ == owner.bytes@),
        found@.len() > 0 ==> (r matches Ok(c) && c.model() == found@[0].model() && c.wf()
            == found@[0].wf()),
{
    if found.len() == 0 {
        Err(ErrorKind::CapabilityMissing { owner: owner.dup() })
    } else {
        Ok(found[0].dup())
    }
}

/// The two capability types the pipeline may need.
#[derive(Clone, Copy, PartialEq, Eq, Structural)]
pub enum CapabilityKind {
    /// Authorizes deny-list administration.
    DenyCapability,
    /// Authorizes minting.
    TreasuryCapability,
}

/// A type filter for an object-by-owner-and-type query: a fully
/// qualified struct type with its type parameters.
pub struct TypeFilter {
    pub package: Vec<u8>,
    pub module: Vec<u8>,
    pub name: Vec<u8>,
    pub type_params: Vec<CoinTypeDescriptor>,
}

/// The filter that finds the operator's capability of the given kind for
/// the given coin: the framework package's coin module, the capability's
/// type name, parameterized by the coin type alone.
pub fn capability_filter(kind: CapabilityKind, coin_type: &CoinTypeDescriptor) -> (r: TypeFilter)
    ensures
        r.package@ == framework_package_id(),
        r.module@ == coin_module_name(),
        kind is DenyCapability ==> r.name@ == deny_cap_type_name(),
        kind is TreasuryCapability ==> r.name@ == treasury_cap_type_name(),
        r.type_params@.len() == 1,
        r.type_params@[0].model() == coin_type.model(),
{
    let name = match kind {
        CapabilityKind::DenyCapability => deny_cap_type_bytes(),
        CapabilityKind::TreasuryCapability => treasury_cap_type_bytes(),
    };
    let mut type_params: Vec<CoinTypeDescriptor> = Vec::new();
    type_params.push(coin_type.dup());
    TypeFilter { package: framework_package_bytes(), module: coin_module_bytes(), name, type_params }
}

} // verus!
