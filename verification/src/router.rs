//! Command Router: the sequential pipeline that drives one command to
//! one transaction.
//!
//! The states run strictly forward — `Resolving`, `Funding`,
//! `Compiling`, `Signing`, `Submitting` — ending in `Done` or `Failed`;
//! a failure at any stage is terminal for the invocation and no retry
//! happens at this layer.  The router owns every decision; the caller
//! performs the network round-trips and signing it asks for and hands
//! the answers back as plain values.

use vstd::prelude::*;
use crate::command::AppCommand;
use crate::compiler::compile;
use crate::compiler::deny_graph_shape;
use crate::compiler::mint_graph_shape;
use crate::compiler::transfer_graph_shape;
use crate::error::ErrorKind;
use crate::error::PipelineError;
use crate::error::Stage;
use crate::fee::chosen_budget;
use crate::fee::chosen_price;
use crate::fee::excludes;
use crate::fee::fee_eligible;
use crate::fee::select_fee;
use crate::ident::CoinTypeDescriptor;
use crate::locator::capability_filter;
use crate::locator::locate_owned_capability;
use crate::locator::locate_shared;
use crate::locator::CapabilityKind;
use crate::locator::ObjectLookup;
use crate::locator::TypeFilter;
use crate::names::deny_add_function_name;
use crate::names::deny_remove_function_name;
use crate::names::deny_list_object_bytes;
use crate::names::deny_list_object_id;
use crate::payload::encode_payload;
use crate::payload::enc_payload;
use crate::payload::signing_message;
use crate::payload::signing_message_of;
use crate::payload::TransactionPayload;
use crate::types::Address;
use crate::types::ExecutionResult;
use crate::types::FeePlan;
use crate::types::GasCoin;
use crate::types::ObjectId;
use crate::types::ObjectReference;
use crate::types::SharedObjectHandle;
use crate::types::SharedHandleModel;

verus! {

/// Does the command touch the shared deny-list object?
pub open spec fn needs_shared(c: AppCommand) -> bool {
    c is DenyListAdd || c is DenyListRemove
}

/// Does the command need an authorizing capability object?
pub open spec fn needs_capability(c: AppCommand) -> bool {
    needs_shared(c) || c is MintAndTransfer
}

/// Does the command act on an existing object that must be fetched?
pub open spec fn needs_subject(c: AppCommand) -> bool {
    c is Transfer
}

/// Which capability type authorizes the command.
pub open spec fn capability_kind_of(c: AppCommand) -> CapabilityKind {
    if c is MintAndTransfer {
        CapabilityKind::TreasuryCapability
    } else {
        CapabilityKind::DenyCapability
    }
}

/// The object the subject lookup must fetch.
pub open spec fn subject_id_of(c: AppCommand) -> Seq<u8>
    recommends
        needs_subject(c),
{
    match c {
        AppCommand::Transfer(o, _) => o.bytes@,
        _ => Seq::empty(),
    }
}

/// Everything the Resolving stage discovered.
pub struct ResolvedObjects {
    /// The shared deny-list handle, for deny-list commands.
    pub shared: Option<SharedObjectHandle>,
    /// The authorizing capability, freshly queried.
    pub capability: Option<ObjectReference>,
    /// The existing object a transfer acts on, freshly fetched.
    pub subject: Option<ObjectReference>,
}

impl ResolvedObjects {
    /// The resolution carries exactly what the command needs, and every
    /// carried reference is well formed.
    pub open spec fn wf_for(&self, c: AppCommand) -> bool {
        &&& (self.shared is Some <==> needs_shared(c))
        &&& (self.capability is Some <==> needs_capability(c))
        &&& (self.subject is Some <==> needs_subject(c))
        &&& (self.shared matches Some(h) ==> h.wf())
        &&& (self.capability matches Some(r) ==> r.wf())
        &&& (self.subject matches Some(r) ==> r.wf())
    }

    /// Is this identity one of the resolved objects' identities — the
    /// objects the transaction already consumes as inputs?
    pub open spec fn holds_id(&self, id: Seq<u8>) -> bool {
        ||| (self.shared matches Some(h) && h.id.bytes@ == id)
        ||| (self.capability matches Some(c) && c.id.bytes@ == id)
        ||| (self.subject matches Some(s) && s.id.bytes@ == id)
    }

    /// The identities of the resolved objects, as the exclusion list for
    /// fee selection.
    pub fn excluded_ids(&self) -> (r: Vec<ObjectId>)
        ensures
            self.shared matches Some(h) ==> excludes(r@, h.id.bytes@),
            self.capability matches Some(c) ==> excludes(r@, c.id.bytes@),
            self.subject matches Some(s) ==> excludes(r@, s.id.bytes@),
            forall|i: int| 0 <= i < r@.len() ==> self.holds_id(#[trigger] r@[i].bytes@),
    {
        let mut out: Vec<ObjectId> = Vec::new();
        if let Some(h) = &self.shared {
            let ghost pre = out@;
            out.push(h.id.dup());
            proof {
                assert(out@[pre.len() as int].bytes@ == h.id.bytes@);
                assert(excludes(out@, h.id.bytes@));
            }
        }
        if let Some(c) = &self.capability {
            let ghost pre = out@;
            out.push(c.id.dup());
            proof {
                assert(out@[pre.len() as int].bytes@ == c.id.bytes@);
                assert(excludes(out@, c.id.bytes@));
                match &self.shared {
                    Some(h) => {
                        if excludes(pre, h.id.bytes@) {
                            lemma_excludes_grow(pre, out@, h.id.bytes@);
                        }
                    },
                    None => {},
                }
            }
        }
        if let Some(s) = &self.subject {
            let ghost pre = out@;
            out.push(s.id.dup());
            proof {
                assert(out@[pre.len() as int].bytes@ == s.id.bytes@);
                assert(excludes(out@, s.id.bytes@));
                match &self.shared {
                    Some(h) => {
                        if excludes(pre, h.id.bytes@) {
                            lemma_excludes_grow(pre, out@, h.id.bytes@);
                        }
                    },
                    None => {},
                }
                match &self.capability {
                    Some(c2) => {
                        if excludes(pre, c2.id.bytes@) {
                            lemma_excludes_grow(pre, out@, c2.id.bytes@);
                        }
                    },
                    None => {},
                }
            }
        }
        out
    }
}

/// An identity excluded by a list is still excluded by any extension of
/// that list.
pub proof fn lemma_excludes_grow(pre: Seq<ObjectId>, post: Seq<ObjectId>, id: Seq<u8>)
    requires
        pre.len() <= post.len(),
        forall|i: int| 0 <= i < pre.len() ==> post[i] == pre[i],
        excludes(pre, id),
    ensures
        excludes(post, id),
{
    let i = choose|i: int| 0 <= i < pre.len() && #[trigger] pre[i].bytes@ == id;
    assert(post[i].bytes@ == id);
}

/// The exclusion list built from a resolution excludes exactly the
/// identities the resolution holds.
pub proof fn lemma_excluded_matches_resolved(resolved: ResolvedObjects, excluded: Seq<ObjectId>)
    requires
        resolved.shared matches Some(h) ==> excludes(excluded, h.id.bytes@),
        resolved.capability matches Some(c) ==> excludes(excluded, c.id.bytes@),
        resolved.subject matches Some(s) ==> excludes(excluded, s.id.bytes@),
        forall|i: int| 0 <= i < excluded.len() ==> resolved.holds_id(#[trigger] excluded[i].bytes@),
    ensures
        forall|id: Seq<u8>| #[trigger] excludes(excluded, id) == resolved.holds_id(id),
{
    assert forall|id: Seq<u8>| #[trigger] excludes(excluded, id) implies resolved.holds_id(id) by {
        let i = choose|i: int| 0 <= i < excluded.len() && #[trigger] excluded[i].bytes@ == id;
        assert(resolved.holds_id(excluded[i].bytes@));
    };
    assert forall|id: Seq<u8>| resolved.holds_id(id) implies #[trigger] excludes(excluded, id) by {
        match resolved.shared {
            Some(h) => {
                if h.id.bytes@ == id {
                    assert(excludes(excluded, h.id.bytes@));
                }
            },
            None => {},
        }
        match resolved.capability {
            Some(c) => {
                if c.id.bytes@ == id {
                    assert(excludes(excluded, c.id.bytes@));
                }
            },
            None => {},
        }
        match resolved.subject {
            Some(s) => {
                if s.id.bytes@ == id {
                    assert(excludes(excluded, s.id.bytes@));
                }
            },
            None => {},
        }
    };
}

/// Could a fee plan be funded from these holdings, given what the
/// transaction already consumes?
pub open spec fn fundable(gas: Seq<GasCoin>, resolved: ResolvedObjects, budget: u64) -> bool {
    exists|k: int|
        0 <= k < gas.len() && #[trigger] gas[k].balance >= budget && !resolved.holds_id(
            gas[k].reference.id.bytes@,
        )
}

/// The network's answer to a submission.
pub enum SubmitOutcome {
    /// The transport failed; nothing is known to have reached the
    /// network.
    Transport,
    /// The network refused the transaction before executing it (a stale
    /// object version, an insufficient budget).
    Refused,
    /// The transaction executed under quorum; `success` tells whether
    /// the contract calls completed or aborted.
    Executed { success: bool, effects: Vec<u8>, input_echo: Vec<u8> },
}

impl SubmitOutcome {
    /// Did the executed transaction's contract calls complete?
    pub open spec fn spec_success(&self) -> bool
        recommends
            self is Executed,
    {
        match self {
            SubmitOutcome::Executed { success, .. } => *success,
            _ => false,
        }
    }

    /// The effects reported for an executed transaction.
    pub open spec fn spec_effects(&self) -> Seq<u8>
        recommends
            self is Executed,
    {
        match self {
            SubmitOutcome::Executed { effects, .. } => effects@,
            _ => Seq::empty(),
        }
    }

    /// The echoed inputs reported for an executed transaction.
    pub open spec fn spec_input_echo(&self) -> Seq<u8>
        recommends
            self is Executed,
    {
        match self {
            SubmitOutcome::Executed { input_echo, .. } => input_echo@,
            _ => Seq::empty(),
        }
    }
}

/// The pipeline's state: strictly forward, two terminal states.
pub enum PipelineState {
    /// Waiting for the object and capability lookups.
    Resolving,
    /// Objects resolved; waiting for the holdings and the fee price.
    Funding { resolved: ResolvedObjects },
    /// Fee plan fixed; the call graph can be compiled locally.
    Compiling { resolved: ResolvedObjects, fee: FeePlan },
    /// Transaction assembled; waiting for the signature.
    Signing { tx: TransactionPayload },
    /// Signed; waiting for the network's answer.
    Submitting { tx: TransactionPayload, signature: Vec<u8> },
    /// Quorum-confirmed success.
    Done { result: ExecutionResult },
    /// A typed failure; terminal for this invocation.
    Failed { error: PipelineError },
}

/// Is the state a failure raised at the given stage with the given kind
/// of error?  (The kind is examined by the caller; this checks the
/// stage.)
pub open spec fn failed_at(s: PipelineState, stage: Stage) -> bool {
    s matches PipelineState::Failed { error } && error.stage == stage
}

/// The error kind of a failed state.
pub open spec fn failure_kind(s: PipelineState) -> ErrorKind
    recommends
        s is Failed,
{
    match s {
        PipelineState::Failed { error } => error.kind,
        _ => ErrorKind::UnsupportedCommand,
    }
}

/// What the caller must fetch while the pipeline is resolving.
pub struct LookupPlan {
    /// Fetch this shared object by identity, if present.
    pub shared_object: Option<ObjectId>,
    /// Query the operator's objects with this type filter, if present.
    pub capability: Option<TypeFilter>,
    /// Fetch this object by identity, if present.
    pub subject: Option<ObjectId>,
}

/// The Command Router: one command, one transaction, one result.
pub struct Router {
    pub command: AppCommand,
    pub coin_type: CoinTypeDescriptor,
    pub operator: Address,
    pub state: PipelineState,
}

impl Router {
    /// The router's invariant: its fixed data is well formed and the
    /// current state carries well-formed data fitting the command.
    pub open spec fn wf(&self) -> bool {
        &&& self.command.wf()
        &&& self.coin_type.wf()
        &&& self.operator.wf()
        &&& match self.state {
            PipelineState::Resolving => true,
            PipelineState::Funding { resolved } => resolved.wf_for(self.command),
            PipelineState::Compiling { resolved, fee } => resolved.wf_for(self.command)
                && fee.wf(),
            PipelineState::Signing { tx } => tx.wf(),
            PipelineState::Submitting { tx, .. } => tx.wf(),
            PipelineState::Done { .. } => true,
            PipelineState::Failed { .. } => true,
        }
    }

    /// Begin a pipeline run for one command.
    pub fn start(command: AppCommand, coin_type: CoinTypeDescriptor, operator: Address) -> (r:
        Router)
        requires
            command.wf(),
            coin_type.wf(),
            operator.wf(),
        ensures
            r.wf(),
            r.command == command,
            r.coin_type == coin_type,
            r.operator == operator,
            r.state is Resolving,
    {
        Router { command, coin_type, operator, state: PipelineState::Resolving }
    }

    /// What the caller must fetch for the Resolving stage: the shared
    /// deny-list object for deny-list commands, the capability of the
    /// kind the command needs, and the acted-on object for transfers.
    pub fn needed_lookups(&self) -> (r: LookupPlan)
        requires
            self.wf(),
            self.state is Resolving,
        ensures
            r.shared_object is Some <==> needs_shared(self.command),
            r.shared_object matches Some(o) ==> o.bytes@ == deny_list_object_id(),
            r.capability is Some <==> needs_capability(self.command),
            r.capability matches Some(f) ==> {
                &&& f.package@ == crate::names::framework_package_id()
                &&& f.module@ == crate::names::coin_module_name()
                &&& (capability_kind_of(self.command) is DenyCapability ==> f.name@
                    == crate::names::deny_cap_type_name())
                &&& (capability_kind_of(self.command) is TreasuryCapability ==> f.name@
                    == crate::names::treasury_cap_type_name())
                &&& f.type_params@.len() == 1
                &&& f.type_params@[0].model() == self.coin_type.model()
            },
            r.subject is Some <==> needs_subject(self.command),
            r.subject matches Some(o) ==> o.bytes@ == subject_id_of(self.command),
    {
        let shared_object = match &self.command {
            AppCommand::DenyListAdd(_) | AppCommand::DenyListRemove(_) => Some(
                ObjectId { bytes: deny_list_object_bytes() },
            ),
            _ => None,
        };
        let capability = match &self.command {
            AppCommand::DenyListAdd(_) | AppCommand::DenyListRemove(_) => Some(
                capability_filter(CapabilityKind::DenyCapability, &self.coin_type),
            ),
            AppCommand::MintAndTransfer(_, _) => Some(
                capability_filter(CapabilityKind::TreasuryCapability, &self.coin_type),
            ),
            _ => None,
        };
        let subject = match &self.command {
            AppCommand::Transfer(o, _) => Some(o.dup()),
            _ => None,
        };
        LookupPlan { shared_object, capability, subject }
    }

    /// Consume the answers of the Resolving lookups.
    ///
    /// Failures are checked in the order the lookups are made: the
    /// shared deny-list first (`NotFound`, `InvalidOwnership`), then the
    /// capability (`CapabilityMissing` when the operator holds none —
    /// the pipeline then stops before any fee selection or submission),
    /// then the acted-on object.  On success the pipeline advances to
    /// Funding carrying exactly what was found: the deny-list handle
    /// with the reported initial shared version, the first reported
    /// capability, the fetched subject.
    pub fn provide_resolution(
        &mut self,
        shared_lookup: Option<ObjectLookup>,
        capability_matches: Option<Vec<ObjectReference>>,
        subject_lookup: Option<ObjectLookup>,
    )
        requires
            old(self).wf(),
            old(self).state is Resolving,
            shared_lookup is Some <==> needs_shared(old(self).command),
            capability_matches is Some <==> needs_capability(old(self).command),
            subject_lookup is Some <==> needs_subject(old(self).command),
            shared_lookup matches Some(l) ==> lookup_wf(l),
            subject_lookup matches Some(l) ==> lookup_wf(l),
            capability_matches matches Some(v) ==> forall|i: int|
                0 <= i < v@.len() ==> (#[trigger] v@[i]).wf(),
        ensures
            final(self).command == old(self).command,
            final(self).coin_type == old(self).coin_type,
            final(self).operator == old(self).operator,
            final(self).wf(),
            needs_shared(old(self).command) && (shared_lookup matches Some(l) && l is Missing)
                ==> (failed_at(final(self).state, Stage::Resolving) && (failure_kind(
                final(self).state,
            ) matches ErrorKind::NotFound { object } && object.bytes@ == deny_list_object_id())),
            needs_shared(old(self).command) && (shared_lookup matches Some(l) && l is Found
                && !l.found_shared()) ==> (failed_at(final(self).state, Stage::Resolving)
                && (failure_kind(final(self).state) matches ErrorKind::InvalidOwnership { object }
                && object.bytes@ == deny_list_object_id())),
            resolution_shared_ok(old(self).command, shared_lookup) && (capability_matches matches
                Some(v) && v@.len() == 0) ==> (failed_at(final(self).state, Stage::Resolving)
                && (failure_kind(final(self).state) matches ErrorKind::CapabilityMissing { owner }
                && owner.bytes@ == old(self).operator.bytes@)),
            resolution_shared_ok(old(self).command, shared_lookup) && resolution_capability_ok(
                old(self).command,
                capability_matches,
            ) && (subject_lookup matches Some(l) && l is Missing) ==> (failed_at(
                final(self).state,
                Stage::Resolving,
            ) && (failure_kind(final(self).state) matches ErrorKind::NotFound { object }
                && object.bytes@ == subject_id_of(old(self).command))),
            resolution_shared_ok(old(self).command, shared_lookup) && resolution_capability_ok(
                old(self).command,
                capability_matches,
            ) && resolution_subject_ok(old(self).command, subject_lookup) ==> (final(self).state matches PipelineState::Funding { resolved } && {
                &&& (needs_shared(old(self).command) ==> (resolved.shared matches Some(h)
                    && h.model() == (SharedHandleModel {
                    id: deny_list_object_id(),
                    initial_shared_version: shared_lookup->Some_0.spec_initial_version(),
                    mutable: true,
                })))
                &&& (!needs_shared(old(self).command) ==> resolved.shared is None)
                &&& (needs_capability(old(self).command) ==> (resolved.capability matches Some(r)
                    && r.model() == capability_matches->Some_0@[0].model()))
                &&& (!needs_capability(old(self).command) ==> resolved.capability is None)
                &&& (needs_subject(old(self).command) ==> (resolved.subject matches Some(r)
                    && r.model() == subject_lookup->Some_0->Found_reference.model()))
                &&& (!needs_subject(old(self).command) ==> resolved.subject is None)
            }),
    {
        let want_shared = match &self.command {
            AppCommand::DenyListAdd(_) | AppCommand::DenyListRemove(_) => true,
            _ => false,
        };
        let mut resolved_shared: Option<SharedObjectHandle> = None;
        if want_shared {
            match &shared_lookup {
                Some(lk) => {
                    let dl = ObjectId { bytes: deny_list_object_bytes() };
                    match locate_shared(&dl, lk) {
                        Ok(h) => {
                            resolved_shared = Some(h);
                        },
                        Err(e) => {
                            self.state = PipelineState::Failed {
                                error: PipelineError { stage: Stage::Resolving, kind: e },
                            };
                            return;
                        },
                    }
                },
                None => {
                    proof {
                        assert(false);
                    }
                },
            }
        }
        let want_capability = match &self.command {
            AppCommand::DenyListAdd(_) | AppCommand::DenyListRemove(_)
            | AppCommand::MintAndTransfer(_, _) => true,
            _ => false,
        };
        let mut resolved_capability: Option<ObjectReference> = None;
        if want_capability {
            match &capability_matches {
                Some(v) => {
                    match locate_owned_capability(&self.operator, v) {
                        Ok(c) => {
                            resolved_capability = Some(c);
                        },
                        Err(e) => {
                            self.state = PipelineState::Failed {
                                error: PipelineError { stage: Stage::Resolving, kind: e },
                            };
                            return;
                        },
                    }
                },
                None => {
                    proof {
                        assert(false);
                    }
                },
            }
        }
        let want_subject = match &self.command {
            AppCommand::Transfer(_, _) => true,
            _ => false,
        };
        let mut resolved_subject: Option<ObjectReference> = None;
        if want_subject {
            match subject_lookup {
                Some(ObjectLookup::Found { reference, .. }) => {
                    resolved_subject = Some(reference);
                },
                Some(ObjectLookup::Missing) => {
                    let sid = match &self.command {
                        AppCommand::Transfer(o, _) => o.dup(),
                        _ => {
                            proof {
                                assert(false);
                            }
                            ObjectId { bytes: Vec::new() }
                        },
                    };
                    self.state = PipelineState::Failed {
                        error: PipelineError {
                            stage: Stage::Resolving,
                            kind: ErrorKind::NotFound { object: sid },
                        },
                    };
                    return;
                },
                None => {
                    proof {
                        assert(false);
                    }
                },
            }
        }
        self.state = PipelineState::Funding {
            resolved: ResolvedObjects {
                shared: resolved_shared,
                capability: resolved_capability,
                subject: resolved_subject,
            },
        };
    }

    /// Consume the operator's reported holdings and the reference fee
    /// price, and fix the fee plan.
    ///
    /// `NoGasObjects` when the operator holds nothing fee-payable;
    /// `InsufficientFunds` when nothing eligible covers the budget —
    /// both terminal at Funding, before anything is compiled or signed.
    /// On success the payment object is never one of the objects the
    /// transaction already consumes as inputs.
    #[verifier::rlimit(100)]
    pub fn fund(
        &mut self,
        gas_objects: &Vec<GasCoin>,
        price_hint: Option<u64>,
        budget_hint: Option<u64>,
        reference_price: u64,
    )
        requires
            old(self).wf(),
            old(self).state is Funding,
            forall|i: int| 0 <= i < gas_objects@.len() ==> (#[trigger] gas_objects@[i]).wf(),
        ensures
            final(self).command == old(self).command,
            final(self).coin_type == old(self).coin_type,
            final(self).operator == old(self).operator,
            final(self).wf(),
            gas_objects@.len() == 0 ==> (failed_at(final(self).state, Stage::Funding)
                && (failure_kind(final(self).state) matches ErrorKind::NoGasObjects { owner }
                && owner.bytes@ == old(self).operator.bytes@)),
            gas_objects@.len() > 0 && !fundable(
                gas_objects@,
                old(self).state->Funding_resolved,
                chosen_budget(budget_hint),
            ) ==> (failed_at(final(self).state, Stage::Funding) && (failure_kind(
                final(self).state,
            ) matches ErrorKind::InsufficientFunds { budget } && budget == chosen_budget(
                budget_hint,
            ))),
            fundable(gas_objects@, old(self).state->Funding_resolved, chosen_budget(budget_hint))
                ==> (final(self).state matches PipelineState::Compiling { resolved, fee } && {
                &&& resolved == old(self).state->Funding_resolved
                &&& fee.budget == chosen_budget(budget_hint)
                &&& fee.unit_price == chosen_price(price_hint, reference_price)
                &&& !resolved.holds_id(fee.payment_object.id.bytes@)
                &&& exists|k: int|
                    0 <= k < gas_objects@.len() && (#[trigger] gas_objects@[k]).reference.model()
                        == fee.payment_object.model() && gas_objects@[k].balance >= fee.budget
            }),
    {
        let mut st = PipelineState::Resolving;
        core::mem::swap(&mut st, &mut self.state);
        match st {
            PipelineState::Funding { resolved } => {
                let excluded = resolved.excluded_ids();
                proof {
                    lemma_excluded_matches_resolved(resolved, excluded@);
                }
                let ghost b = chosen_budget(budget_hint);
                match select_fee(
                    &self.operator,
                    gas_objects,
                    &excluded,
                    price_hint,
                    budget_hint,
                    reference_price,
                ) {
                    Ok(fee) => {
                        proof {
                            assert(gas_objects@.len() > 0);
                            if forall|i: int|
                                0 <= i < gas_objects@.len() ==> !fee_eligible(
                                    #[trigger] gas_objects@[i],
                                    excluded@,
                                    b,
                                ) {
                                assert(false);
                            }
                            let k = crate::fee::first_eligible(gas_objects@, excluded@, b);
                            assert(fee_eligible(gas_objects@[k], excluded@, b));
                            assert(excludes(excluded@, gas_objects@[k].reference.id.bytes@)
                                == resolved.holds_id(gas_objects@[k].reference.id.bytes@));
                            assert(!resolved.holds_id(gas_objects@[k].reference.id.bytes@));
                            assert(gas_objects@[k].reference.model()
                                == fee.payment_object.model());
                            assert(fundable(gas_objects@, resolved, b));
                            assert(gas_objects@[k].wf());
                            assert(excludes(excluded@, fee.payment_object.id.bytes@)
                                == resolved.holds_id(fee.payment_object.id.bytes@));
                        }
                        self.state = PipelineState::Compiling { resolved, fee };
                    },
                    Err(e) => {
                        proof {
                            if fundable(gas_objects@, resolved, b) {
                                let k = choose|k: int|
                                    0 <= k < gas_objects@.len() && (#[trigger] gas_objects@[k]).balance
                                        >= b && !resolved.holds_id(
                                        gas_objects@[k].reference.id.bytes@,
                                    );
                                assert(excludes(excluded@, gas_objects@[k].reference.id.bytes@)
                                    == resolved.holds_id(gas_objects@[k].reference.id.bytes@));
                                assert(fee_eligible(gas_objects@[k], excluded@, b));
                                assert(false);
                            }
                            if gas_objects@.len() > 0 {
                                assert forall|i: int| 0 <= i < gas_objects@.len() implies
                                    !fee_eligible(#[trigger] gas_objects@[i], excluded@, b) by {
                                    if fee_eligible(gas_objects@[i], excluded@, b) {
                                        assert(excludes(
                                            excluded@,
                                            gas_objects@[i].reference.id.bytes@,
                                        ) == resolved.holds_id(
                                            gas_objects@[i].reference.id.bytes@,
                                        ));
                                        assert(fundable(gas_objects@, resolved, b));
                                    }
                                };
                            }
                        }
                        self.state = PipelineState::Failed {
                            error: PipelineError { stage: Stage::Funding, kind: e },
                        };
                    },
                }
            },
            other => {
                proof {
                    assert(false);
                }
                self.state = other;
            },
        }
    }

    /// Compile the transaction locally: translate the command and the
    /// resolved objects into the call graph, and assemble the signable
    /// payload with the operator as sender and the fixed fee plan.
    /// `Burn` has no call graph defined and fails here as unsupported.
    pub fn compile_tx(&mut self)
        requires
            old(self).wf(),
            old(self).state is Compiling,
        ensures
            final(self).command == old(self).command,
            final(self).coin_type == old(self).coin_type,
            final(self).operator == old(self).operator,
            final(self).wf(),
            old(self).command is Burn ==> (failed_at(final(self).state, Stage::Compiling)
                && failure_kind(final(self).state) is UnsupportedCommand),
            old(self).command matches AppCommand::DenyListAdd(a) ==> (final(self).state matches PipelineState::Signing { tx } && tx.sender.bytes@
                == old(self).operator.bytes@ && tx.fee == old(self).state->Compiling_fee
                && deny_graph_shape(
                tx.graph,
                old(self).coin_type.model(),
                old(self).state->Compiling_resolved.shared->Some_0.model(),
                old(self).state->Compiling_resolved.capability->Some_0.model(),
                a.bytes@,
                deny_add_function_name(),
            )),
            old(self).command matches AppCommand::DenyListRemove(a) ==> (final(self).state matches PipelineState::Signing { tx } && tx.sender.bytes@
                == old(self).operator.bytes@ && tx.fee == old(self).state->Compiling_fee
                && deny_graph_shape(
                tx.graph,
                old(self).coin_type.model(),
                old(self).state->Compiling_resolved.shared->Some_0.model(),
                old(self).state->Compiling_resolved.capability->Some_0.model(),
                a.bytes@,
                deny_remove_function_name(),
            )),
            old(self).command matches AppCommand::MintAndTransfer(amount, to) ==> (final(self).state matches PipelineState::Signing { tx } && tx.sender.bytes@
                == old(self).operator.bytes@ && tx.fee == old(self).state->Compiling_fee
                && mint_graph_shape(
                tx.graph,
                old(self).coin_type.model(),
                old(self).state->Compiling_resolved.capability->Some_0.model(),
                amount,
                to.bytes@,
            )),
            old(self).command matches AppCommand::Transfer(_, to) ==> (final(self).state matches PipelineState::Signing { tx } && tx.sender.bytes@
                == old(self).operator.bytes@ && tx.fee == old(self).state->Compiling_fee
                && transfer_graph_shape(
                tx.graph,
                old(self).state->Compiling_resolved.subject->Some_0.model(),
                to.bytes@,
            )),
    {
        let mut st = PipelineState::Resolving;
        core::mem::swap(&mut st, &mut self.state);
        match st {
            PipelineState::Compiling { resolved, fee } => {
                let shared_ref: Option<&SharedObjectHandle> = match &resolved.shared {
                    Some(h) => Some(h),
                    None => None,
                };
                let capability_ref: Option<&ObjectReference> = match &resolved.capability {
                    Some(c) => Some(c),
                    None => None,
                };
                let subject_ref: Option<&ObjectReference> = match &resolved.subject {
                    Some(s) => Some(s),
                    None => None,
                };
                match compile(&self.command, &self.coin_type, shared_ref, capability_ref, subject_ref) {
                    Ok(graph) => {
                        let tx = TransactionPayload { sender: self.operator.dup(), graph, fee };
                        self.state = PipelineState::Signing { tx };
                    },
                    Err(e) => {
                        self.state = PipelineState::Failed {
                            error: PipelineError { stage: Stage::Compiling, kind: e },
                        };
                    },
                }
            },
            other => {
                proof {
                    assert(false);
                }
                self.state = other;
            },
        }
    }

    /// The exact bytes the signer must sign: the intent marker, then the
    /// canonical encoding of the assembled transaction.
    pub fn signing_payload(&self) -> (r: Vec<u8>)
        requires
            self.wf(),
            self.state is Signing,
        ensures
            r@ == signing_message_of(enc_payload(self.state->Signing_tx)),
    {
        match &self.state {
            PipelineState::Signing { tx } => {
                let encoded = encode_payload(tx);
                signing_message(&encoded)
            },
            _ => {
                proof {
                    assert(false);
                }
                Vec::new()
            },
        }
    }

    /// Consume the signer's answer: a signature over the signing
    /// payload, or nothing when the key material failed.
    pub fn provide_signature(&mut self, signature: Option<Vec<u8>>)
        requires
            old(self).wf(),
            old(self).state is Signing,
        ensures
            final(self).command == old(self).command,
            final(self).coin_type == old(self).coin_type,
            final(self).operator == old(self).operator,
            final(self).wf(),
            signature is None ==> (failed_at(final(self).state, Stage::Signing) && failure_kind(
                final(self).state,
            ) is SigningError),
            signature matches Some(sig) ==> (final(self).state matches PipelineState::Submitting {
                tx, signature: s } && tx == old(self).state->Signing_tx && s@ == sig@),
    {
        let mut st = PipelineState::Resolving;
        core::mem::swap(&mut st, &mut self.state);
        match st {
            PipelineState::Signing { tx } => {
                match signature {
                    Some(sig) => {
                        self.state = PipelineState::Submitting { tx, signature: sig };
                    },
                    None => {
                        self.state = PipelineState::Failed {
                            error: PipelineError {
                                stage: Stage::Signing,
                                kind: ErrorKind::SigningError,
                            },
                        };
                    },
                }
            },
            other => {
                proof {
                    assert(false);
                }
                self.state = other;
            },
        }
    }

    /// Consume the network's answer to the submission and classify it.
    ///
    /// A transport failure is `NetworkError` (nothing was executed; the
    /// whole invocation is safe to retry).  A pre-execution refusal is
    /// `Rejected`.  An execution under quorum ends the pipeline: `Done`
    /// on success; on a contract abort, `ExecutionFailed` carrying the
    /// result — the abort is propagated, never suppressed and never
    /// retried here, so re-running a denial of an already-denied address
    /// surfaces the abort to the caller.
    pub fn provide_outcome(&mut self, outcome: SubmitOutcome)
        requires
            old(self).wf(),
            old(self).state is Submitting,
        ensures
            final(self).command == old(self).command,
            final(self).coin_type == old(self).coin_type,
            final(self).operator == old(self).operator,
            final(self).wf(),
            outcome is Transport ==> (failed_at(final(self).state, Stage::Submitting)
                && failure_kind(final(self).state) is NetworkError),
            outcome is Refused ==> (failed_at(final(self).state, Stage::Submitting)
                && failure_kind(final(self).state) is Rejected),
            outcome is Executed && outcome.spec_success() ==> (final(self).state matches
                PipelineState::Done { result } && result.success && result.effects@
                == outcome.spec_effects() && result.input_echo@ == outcome.spec_input_echo()),
            outcome is Executed && !outcome.spec_success() ==> (failed_at(
                final(self).state,
                Stage::Submitting,
            ) && (failure_kind(final(self).state) matches ErrorKind::ExecutionFailed { result }
                && !result.success && result.effects@ == outcome.spec_effects()
                && result.input_echo@ == outcome.spec_input_echo())),
    {
        match outcome {
            SubmitOutcome::Transport => {
                self.state = PipelineState::Failed {
                    error: PipelineError { stage: Stage::Submitting, kind: ErrorKind::NetworkError },
                };
            },
            SubmitOutcome::Refused => {
                self.state = PipelineState::Failed {
                    error: PipelineError { stage: Stage::Submitting, kind: ErrorKind::Rejected },
                };
            },
            SubmitOutcome::Executed { success, effects, input_echo } => {
                let result = ExecutionResult { success, effects, input_echo };
                if success {
                    self.state = PipelineState::Done { result };
                } else {
                    self.state = PipelineState::Failed {
                        error: PipelineError {
                            stage: Stage::Submitting,
                            kind: ErrorKind::ExecutionFailed { result },
                        },
                    };
                }
            },
        }
    }
}

impl Router {
    /// Read a finished pipeline off as the caller-facing result: the
    /// execution result on success, the typed error — stage and kind —
    /// on failure.
    pub fn into_outcome(self) -> (r: Result<ExecutionResult, PipelineError>)
        requires
            self.state is Done || self.state is Failed,
        ensures
            self.state matches PipelineState::Done { result } ==> (r matches Ok(res) && res
                == result),
            self.state matches PipelineState::Failed { error } ==> (r matches Err(e) && e
                == error),
    {
        match self.state {
            PipelineState::Done { result } => Ok(result),
            PipelineState::Failed { error } => Err(error),
            _ => {
                proof {
                    assert(false);
                }
                Err(
                    PipelineError {
                        stage: Stage::Submitting,
                        kind: ErrorKind::UnsupportedCommand,
                    },
                )
            },
        }
    }
}

/// Is a found-or-missing answer well formed?
pub open spec fn lookup_wf(l: ObjectLookup) -> bool {
    l matches ObjectLookup::Found { reference, .. } ==> reference.wf()
}

/// The shared lookup succeeded, where one was needed.
pub open spec fn resolution_shared_ok(c: AppCommand, sl: Option<ObjectLookup>) -> bool {
    needs_shared(c) ==> (sl matches Some(l) && l.found_shared())
}

/// The capability query found at least one object, where one was needed.
pub open spec fn resolution_capability_ok(c: AppCommand, cm: Option<Vec<ObjectReference>>) -> bool {
    needs_capability(c) ==> (cm matches Some(v) && v@.len() > 0)
}

/// The subject fetch found the object, where one was needed.
pub open spec fn resolution_subject_ok(c: AppCommand, sj: Option<ObjectLookup>) -> bool {
    needs_subject(c) ==> (sj matches Some(l) && l is Found)
}

} // verus!
