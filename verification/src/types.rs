//! Data model of the on-chain state the client manipulates: object
//! identities, object references, shared-object handles, fee plans and
//! execution results, all held as plain values so that every rule about
//! them can be verified.

use vstd::prelude::*;
use crate::bytes::clone_bytes;
use crate::bytes::bytes_eq;

verus! {

/// Number of bytes in an object identity, an account address and a digest.
pub const ID_LENGTH: usize = 32;

/// Identity of an on-chain object: a fixed-width byte string.
#[derive(Debug)]
pub struct ObjectId {
    pub bytes: Vec<u8>,
}

impl ObjectId {
    /// An object identity is exactly `ID_LENGTH` bytes.
    pub open spec fn wf(&self) -> bool {
        self.bytes@.len() == ID_LENGTH
    }

    pub fn new(bytes: Vec<u8>) -> (r: ObjectId)
        requires
            bytes@.len() == ID_LENGTH,
        ensures
            r.wf(),
            r.bytes@ == bytes@,
    {
        ObjectId { bytes }
    }

    pub fn dup(&self) -> (r: ObjectId)
        ensures
            r.bytes@ == self.bytes@,
            r.wf() == self.wf(),
    {
        ObjectId { bytes: clone_bytes(&self.bytes) }
    }

    pub fn same_id(&self, other: &ObjectId) -> (r: bool)
        ensures
            r == (self.bytes@ == other.bytes@),
    {
        bytes_eq(&self.bytes, &other.bytes)
    }
}

/// Address of an account on the ledger: a fixed-width byte string.
#[derive(Debug)]
pub struct Address {
    pub bytes: Vec<u8>,
}

impl Address {
    pub open spec fn wf(&self) -> bool {
        self.bytes@.len() == ID_LENGTH
    }

    pub fn new(bytes: Vec<u8>) -> (r: Address)
        requires
            bytes@.len() == ID_LENGTH,
        ensures
            r.wf(),
            r.bytes@ == bytes@,
    {
        Address { bytes }
    }

    pub fn dup(&self) -> (r: Address)
        ensures
            r.bytes@ == self.bytes@,
            r.wf() == self.wf(),
    {
        Address { bytes: clone_bytes(&self.bytes) }
    }
}

/// Content digest of an exact object state.
#[derive(Debug)]
pub struct Digest {
    pub bytes: Vec<u8>,
}

impl Digest {
    pub open spec fn wf(&self) -> bool {
        self.bytes@.len() == ID_LENGTH
    }

    pub fn new(bytes: Vec<u8>) -> (r: Digest)
        requires
            bytes@.len() == ID_LENGTH,
        ensures
            r.wf(),
            r.bytes@ == bytes@,
    {
        Digest { bytes }
    }

    pub fn dup(&self) -> (r: Digest)
        ensures
            r.bytes@ == self.bytes@,
            r.wf() == self.wf(),
    {
        Digest { bytes: clone_bytes(&self.bytes) }
    }
}

/// Reference to an exact historical state of an object:
/// `(identity, version, digest)`.  A transaction input built from it is
/// only accepted by the network while the reference is current.
#[derive(Debug)]
pub struct ObjectReference {
    pub id: ObjectId,
    pub version: u64,
    pub digest: Digest,
}

/// Mathematical value of an [`ObjectReference`].
pub struct ObjectRefModel {
    pub id: Seq<u8>,
    pub version: u64,
    pub digest: Seq<u8>,
}

impl ObjectReference {
    pub open spec fn wf(&self) -> bool {
        self.id.wf() && self.digest.wf()
    }

    pub open spec fn model(&self) -> ObjectRefModel {
        ObjectRefModel { id: self.id.bytes@, version: self.version, digest: self.digest.bytes@ }
    }

    pub fn new(id: ObjectId, version: u64, digest: Digest) -> (r: ObjectReference)
        ensures
            r.model() == (ObjectRefModel { id: id.bytes@, version: version, digest: digest.bytes@ }),
            r.wf() == (id.wf() && digest.wf()),
    {
        ObjectReference { id, version, digest }
    }

    pub fn dup(&self) -> (r: ObjectReference)
        ensures
            r.model() == self.model(),
            r.wf() == self.wf(),
    {
        ObjectReference { id: self.id.dup(), version: self.version, digest: self.digest.dup() }
    }
}

/// Handle on an object with shared (multi-writer) ownership.  The
/// `initial_shared_version` is fixed for the object's lifetime and is
/// always fetched from the ledger, never guessed.
#[derive(Debug)]
pub struct SharedObjectHandle {
    pub id: ObjectId,
    pub initial_shared_version: u64,
    pub mutable: bool,
}

/// Mathematical value of a [`SharedObjectHandle`].
pub struct SharedHandleModel {
    pub id: Seq<u8>,
    pub initial_shared_version: u64,
    pub mutable: bool,
}

impl SharedObjectHandle {
    pub open spec fn wf(&self) -> bool {
        self.id.wf()
    }

    pub open spec fn model(&self) -> SharedHandleModel {
        SharedHandleModel {
            id: self.id.bytes@,
            initial_shared_version: self.initial_shared_version,
            mutable: self.mutable,
        }
    }

    pub fn dup(&self) -> (r: SharedObjectHandle)
        ensures
            r.model() == self.model(),
            r.wf() == self.wf(),
    {
        SharedObjectHandle {
            id: self.id.dup(),
            initial_shared_version: self.initial_shared_version,
            mutable: self.mutable,
        }
    }
}

/// A fee-payable object among the operator's holdings, as reported by the
/// ledger: its exact reference together with its balance.
#[derive(Debug)]
pub struct GasCoin {
    pub reference: ObjectReference,
    pub balance: u64,
}

impl GasCoin {
    pub open spec fn wf(&self) -> bool {
        self.reference.wf()
    }
}

/// The payment decision for one transaction: the chosen payment object,
/// the fee budget and the unit price.  Computed fresh for every
/// transaction, never reused.
#[derive(Debug)]
pub struct FeePlan {
    pub payment_object: ObjectReference,
    pub budget: u64,
    pub unit_price: u64,
}

impl FeePlan {
    pub open spec fn wf(&self) -> bool {
        self.payment_object.wf()
    }

    pub fn dup(&self) -> (r: FeePlan)
        ensures
            r.payment_object.model() == self.payment_object.model(),
            r.budget == self.budget,
            r.unit_price == self.unit_price,
            r.wf() == self.wf(),
    {
        FeePlan {
            payment_object: self.payment_object.dup(),
            budget: self.budget,
            unit_price: self.unit_price,
        }
    }
}

/// Quorum-confirmed result of an executed transaction.  Beyond the
/// success flag its contents are opaque to the core: effects and the
/// echoed inputs pass through to the caller for display.
#[derive(Debug)]
pub struct ExecutionResult {
    pub success: bool,
    pub effects: Vec<u8>,
    pub input_echo: Vec<u8>,
}

} // verus!
