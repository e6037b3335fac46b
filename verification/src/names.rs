//! The fixed on-chain interface the client talks to: the framework
//! package, the coin module with its entry functions, the capability type
//! names, and the well-known identity of the shared deny-list object.
//!
//! Names are ASCII byte strings; each constant is spelled out in a spec
//! function and produced by a matching executable function.

use vstd::prelude::*;

verus! {

/// A byte string of `n` zero bytes.
pub open spec fn zero_seq(n: nat) -> Seq<u8> {
    Seq::new(n, |i: int| 0u8)
}

/// `n` zero bytes, executably.
pub fn zero_bytes(n: usize) -> (r: Vec<u8>)
    ensures
        r@ == zero_seq(n as nat),
{
    let mut out: Vec<u8> = Vec::new();
    let mut i: usize = 0;
    while i < n
        invariant
            i <= n,
            out@ == zero_seq(i as nat),
        decreases n - i,
    {
        out.push(0u8);
        i = i + 1;
        proof {
            assert(out@ =~= zero_seq(i as nat));
        }
    }
    out
}

/// Identity of the framework package that publishes the coin module:
/// the address whose last byte is 2.
pub open spec fn framework_package_id() -> Seq<u8> {
    zero_seq(31).push(2u8)
}

pub fn framework_package_bytes() -> (r: Vec<u8>)
    ensures
        r@ == framework_package_id(),
        r@.len() == 32,
{
    let mut out = zero_bytes(31);
    out.push(2u8);
    out
}

/// Well-known identity of the shared deny-list object: the address whose
/// last two bytes are 4 and 3.
pub open spec fn deny_list_object_id() -> Seq<u8> {
    zero_seq(30).push(4u8).push(3u8)
}

pub fn deny_list_object_bytes() -> (r: Vec<u8>)
    ensures
        r@ == deny_list_object_id(),
        r@.len() == 32,
{
    let mut out = zero_bytes(30);
    out.push(4u8);
    out.push(3u8);
    out
}

/// "coin", the framework module holding the regulated-coin entry points.
pub open spec fn coin_module_name() -> Seq<u8> {
    seq![99u8, 111u8, 105u8, 110u8]
}

pub fn coin_module_bytes() -> (r: Vec<u8>)
    ensures
        r@ == coin_module_name(),
{
    let v: Vec<u8> = vec![99u8, 111u8, 105u8, 110u8];
    proof {
        assert(v@ =~= coin_module_name());
    }
    v
}

/// "deny_list_add", the entry function that denies an address.
pub open spec fn deny_add_function_name() -> Seq<u8> {
    seq![
        100u8, 101u8, 110u8, 121u8, 95u8, 108u8, 105u8, 115u8, 116u8, 95u8, 97u8, 100u8, 100u8,
    ]
}

pub fn deny_add_function_bytes() -> (r: Vec<u8>)
    ensures
        r@ == deny_add_function_name(),
{
    let v: Vec<u8> = vec![
        100u8, 101u8, 110u8, 121u8, 95u8, 108u8, 105u8, 115u8, 116u8, 95u8, 97u8, 100u8, 100u8,
    ];
    proof {
        assert(v@ =~= deny_add_function_name());
    }
    v
}

/// "deny_list_remove", the entry function that un-denies an address.
pub open spec fn deny_remove_function_name() -> Seq<u8> {
    seq![
        100u8, 101u8, 110u8, 121u8, 95u8, 108u8, 105u8, 115u8, 116u8, 95u8, 114u8, 101u8, 109u8,
        111u8, 118u8, 101u8,
    ]
}

pub fn deny_remove_function_bytes() -> (r: Vec<u8>)
    ensures
        r@ == deny_remove_function_name(),
{
    let v: Vec<u8> = vec![
        100u8, 101u8, 110u8, 121u8, 95u8, 108u8, 105u8, 115u8, 116u8, 95u8, 114u8, 101u8, 109u8,
        111u8, 118u8, 101u8,
    ];
    proof {
        assert(v@ =~= deny_remove_function_name());
    }
    v
}

/// "mint", the entry function that mints new balance.
pub open spec fn mint_function_name() -> Seq<u8> {
    seq![109u8, 105u8, 110u8, 116u8]
}

pub fn mint_function_bytes() -> (r: Vec<u8>)
    ensures
        r@ == mint_function_name(),
{
    let v: Vec<u8> = vec![109u8, 105u8, 110u8, 116u8];
    proof {
        assert(v@ =~= mint_function_name());
    }
    v
}

/// "DenyCap", the capability type that authorizes deny-list changes.
pub open spec fn deny_cap_type_name() -> Seq<u8> {
    seq![68u8, 101u8, 110u8, 121u8, 67u8, 97u8, 112u8]
}

pub fn deny_cap_type_bytes() -> (r: Vec<u8>)
    ensures
        r@ == deny_cap_type_name(),
{
    let v: Vec<u8> = vec![68u8, 101u8, 110u8, 121u8, 67u8, 97u8, 112u8];
    proof {
        assert(v@ =~= deny_cap_type_name());
    }
    v
}

/// "TreasuryCap", the capability type that authorizes minting.
pub open spec fn treasury_cap_type_name() -> Seq<u8> {
    seq![84u8, 114u8, 101u8, 97u8, 115u8, 117u8, 114u8, 121u8, 67u8, 97u8, 112u8]
}

pub fn treasury_cap_type_bytes() -> (r: Vec<u8>)
    ensures
        r@ == treasury_cap_type_name(),
{
    let v: Vec<u8> = vec![84u8, 114u8, 101u8, 97u8, 115u8, 117u8, 114u8, 121u8, 67u8, 97u8, 112u8];
    proof {
        assert(v@ =~= treasury_cap_type_name());
    }
    v
}

} // verus!
