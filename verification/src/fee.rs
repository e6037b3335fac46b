//! Fee Selector: choose the payment object and fix the budget and price
//! for one pending transaction.
//!
//! A payment object must not double as any other input of the
//! transaction, and must hold at least the budget.  The first object in
//! the holder's reported order that satisfies both is taken.

use vstd::prelude::*;
use crate::error::ErrorKind;
use crate::types::Address;
use crate::types::FeePlan;
use crate::types::GasCoin;
use crate::types::ObjectId;

verus! {

/// Default budget for a transaction with a single call, used when the
/// caller gives no budget hint.
pub const DEFAULT_FEE_BUDGET: u64 = 10_000_000;

/// The budget the plan uses: the hint when present, otherwise the
/// single-call default.
pub open spec fn chosen_budget(budget_hint: Option<u64>) -> u64 {
    match budget_hint {
        Some(b) => b,
        None => DEFAULT_FEE_BUDGET,
    }
}

/// The unit price the plan uses: the hint when present, otherwise the
/// network's reference price.
pub open spec fn chosen_price(price_hint: Option<u64>, reference_price: u64) -> u64 {
    match price_hint {
        Some(p) => p,
        None => reference_price,
    }
}

/// Does the list of excluded identities contain this identity?
pub open spec fn excludes(excluded: Seq<ObjectId>, id: Seq<u8>) -> bool {
    exists|i: int| 0 <= i < excluded.len() && #[trigger] excluded[i].bytes@ == id
}

/// May this coin pay the fee: enough balance, and not among the
/// transaction's other object inputs?
pub open spec fn fee_eligible(c: GasCoin, excluded: Seq<ObjectId>, budget: u64) -> bool {
    c.balance >= budget && !excludes(excluded, c.reference.id.bytes@)
}

/// Decide [`excludes`] executably.
pub fn id_excluded(excluded: &Vec<ObjectId>, id: &ObjectId) -> (r: bool)
    ensures
        r == excludes(excluded@, id.bytes@),
{
    let mut i: usize = 0;
    while i < excluded.len()
        invariant
            i <= excluded@.len(),
            forall|j: int| 0 <= j < i ==> #[trigger] excluded@[j].bytes@ != id.bytes@,
        decreases excluded.len() - i,
    {
        if excluded[i].same_id(id) {
            return true;
        }
        i = i + 1;
    }
    false
}

/// Choose the payment object and compute the fee plan.
///
/// Fails with `NoGasObjects` when the owner holds no fee-payable object
/// at all, and with `InsufficientFunds` when none of the held objects is
/// eligible.  Otherwise the plan takes the first eligible object in the
/// reported order, the chosen budget and the chosen price; the payment
/// object is never one of the excluded identities.
pub fn select_fee(
    owner: &Address,
    gas_objects: &Vec<GasCoin>,
    excluded: &Vec<ObjectId>,
    price_hint: Option<u64>,
    budget_hint: Option<u64>,
    reference_price: u64,
) -> (r: Result<FeePlan, ErrorKind>)
    ensures
        gas_objects@.len() == 0 ==> (r matches Err(e) && e matches ErrorKind::NoGasObjects {
            owner: o } && o.bytes@ == owner.bytes@),
        gas_objects@.len() > 0 && (forall|i: int|
            0 <= i < gas_objects@.len() ==> !fee_eligible(
                #[trigger] gas_objects@[i],
                excluded@,
                chosen_budget(budget_hint),
            )) ==> (r matches Err(e) && e matches ErrorKind::InsufficientFunds { budget }
            && budget == chosen_budget(budget_hint)),
        (exists|i: int|
            0 <= i < gas_objects@.len() && fee_eligible(
                #[trigger] gas_objects@[i],
                excluded@,
                chosen_budget(budget_hint),
            )) ==> (r matches Ok(plan) && {
            let k = first_eligible(gas_objects@, excluded@, chosen_budget(budget_hint));
            &&& 0 <= k < gas_objects@.len()
            &&& fee_eligible(gas_objects@[k], excluded@, chosen_budget(budget_hint))
            &&& plan.payment_object.model() == gas_objects@[k].reference.model()
            &&& plan.budget == chosen_budget(budget_hint)
            &&& plan.unit_price == chosen_price(price_hint, reference_price)
            &&& gas_objects@[k].balance >= plan.budget
            &&& !excludes(excluded@, plan.payment_object.id.bytes@)
            &&& plan.wf() == gas_objects@[k].wf()
        }),
{
    let ghost budget_spec = chosen_budget(budget_hint);
    if gas_objects.len() == 0 {
        return Err(ErrorKind::NoGasObjects { owner: owner.dup() });
    }
    let budget: u64 = match budget_hint {
        Some(b) => b,
        None => DEFAULT_FEE_BUDGET,
    };
    let unit_price: u64 = match price_hint {
        Some(p) => p,
        None => reference_price,
    };
    let mut i: usize = 0;
    while i < gas_objects.len()
        invariant
            i <= gas_objects@.len(),
            budget == budget_spec,
            budget_spec == chosen_budget(budget_hint),
            unit_price == chosen_price(price_hint, reference_price),
            forall|j: int| 0 <= j < i ==> !fee_eligible(#[trigger] gas_objects@[j], excluded@, budget_spec),
        decreases gas_objects.len() - i,
    {
        let c = &gas_objects[i];
        if c.balance >= budget && !id_excluded(excluded, &c.reference.id) {
            proof {
                assert(fee_eligible(gas_objects@[i as int], excluded@, budget_spec));
                assert(first_eligible(gas_objects@, excluded@, budget_spec) == i as int);
            }
            return Ok(FeePlan { payment_object: c.reference.dup(), budget, unit_price });
        }
        i = i + 1;
    }
    Err(ErrorKind::InsufficientFunds { budget })
}

/// Index of the first eligible coin, assuming one exists.
pub open spec fn first_eligible(gas_objects: Seq<GasCoin>, excluded: Seq<ObjectId>, budget: u64) -> int {
    choose|k: int|
        0 <= k < gas_objects.len() && fee_eligible(#[trigger] gas_objects[k], excluded, budget)
            && (forall|j: int| 0 <= j < k ==> !fee_eligible(#[trigger] gas_objects[j], excluded, budget))
}

} // verus!
