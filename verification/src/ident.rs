//! On-chain type identity of the regulated coin.
//!
//! Module and type names travel as ASCII byte strings and must be valid
//! ledger identifiers: nonempty, starting with a letter or underscore,
//! continuing with letters, digits or underscores, and not the lone
//! underscore (which is a wildcard, not a name).

use vstd::prelude::*;
use crate::bytes::clone_bytes;
use crate::types::Address;
use crate::types::ObjectId;

verus! {

/// May a byte open an identifier?
pub open spec fn is_ident_start(b: u8) -> bool {
    (b == 95) || (65 <= b <= 90) || (97 <= b <= 122)
}

/// May a byte continue an identifier?
pub open spec fn is_ident_char(b: u8) -> bool {
    is_ident_start(b) || (48 <= b <= 57)
}

/// A valid ledger identifier over its byte string.
pub open spec fn valid_identifier(s: Seq<u8>) -> bool {
    &&& s.len() >= 1
    &&& is_ident_start(s[0])
    &&& !(s.len() == 1 && s[0] == 95)
    &&& forall|i: int| 0 <= i < s.len() ==> is_ident_char(#[trigger] s[i])
}

/// Decide [`valid_identifier`] for a byte string.
pub fn check_identifier(s: &Vec<u8>) -> (r: bool)
    ensures
        r == valid_identifier(s@),
{
    if s.len() == 0 {
        return false;
    }
    if !(s[0] == 95 || (65 <= s[0] && s[0] <= 90) || (97 <= s[0] && s[0] <= 122)) {
        return false;
    }
    if s.len() == 1 && s[0] == 95 {
        return false;
    }
    let mut i: usize = 1;
    while i < s.len()
        invariant
            1 <= i <= s@.len(),
            is_ident_start(s@[0]),
            !(s@.len() == 1 && s@[0] == 95),
            forall|j: int| 0 <= j < i ==> is_ident_char(#[trigger] s@[j]),
        decreases s.len() - i,
    {
        let b = s[i];
        if !(b == 95 || (65 <= b && b <= 90) || (97 <= b && b <= 122) || (48 <= b && b <= 57)) {
            return false;
        }
        i = i + 1;
    }
    true
}

/// Fully qualified type identity of the regulated coin: publishing
/// address, module name and type name, with no type parameters.  Built
/// once per invocation and held for the pipeline's lifetime.
#[derive(Debug)]
pub struct CoinTypeDescriptor {
    pub package: Address,
    pub module: Vec<u8>,
    pub name: Vec<u8>,
}

/// Mathematical value of a [`CoinTypeDescriptor`].
pub struct CoinTypeModel {
    pub package: Seq<u8>,
    pub module: Seq<u8>,
    pub name: Seq<u8>,
}

impl CoinTypeDescriptor {
    pub open spec fn wf(&self) -> bool {
        &&& self.package.wf()
        &&& valid_identifier(self.module@)
        &&& valid_identifier(self.name@)
    }

    pub open spec fn model(&self) -> CoinTypeModel {
        CoinTypeModel { package: self.package.bytes@, module: self.module@, name: self.name@ }
    }

    pub fn dup(&self) -> (r: CoinTypeDescriptor)
        ensures
            r.model() == self.model(),
            r.wf() == self.wf(),
    {
        CoinTypeDescriptor {
            package: self.package.dup(),
            module: clone_bytes(&self.module),
            name: clone_bytes(&self.name),
        }
    }
}

/// User-supplied identity of the coin contract, as it arrives from the
/// configuration layer: the publishing package, the module that issues
/// the coin, and the one-time-witness type name.
#[derive(Debug)]
pub struct Contract {
    pub package_id: ObjectId,
    pub module: Vec<u8>,
    pub otw: Vec<u8>,
}

/// Why a [`Contract`] does not name a well-formed coin type.
#[derive(Debug)]
pub enum ContractError {
    /// The module name is not a valid identifier.
    BadModuleName,
    /// The type name is not a valid identifier.
    BadTypeName,
}

impl Contract {
    pub open spec fn wf(&self) -> bool {
        self.package_id.wf()
    }

    /// Turn the raw contract identity into the coin's type descriptor,
    /// validating both names.  Returns the descriptor exactly when both
    /// names are valid identifiers; the package address is the package
    /// id byte for byte.
    pub fn type_descriptor(&self) -> (r: Result<CoinTypeDescriptor, ContractError>)
        requires
            self.wf(),
        ensures
            valid_identifier(self.module@) && valid_identifier(self.otw@) ==> (r matches Ok(d)
                && d.model() == (CoinTypeModel {
                    package: self.package_id.bytes@,
                    module: self.module@,
                    name: self.otw@,
                })
                && d.wf()),
            !valid_identifier(self.module@) ==> (r matches Err(e) && e is BadModuleName),
            valid_identifier(self.module@) && !valid_identifier(self.otw@) ==> (r matches Err(e)
                && e is BadTypeName),
    {
        if !check_identifier(&self.module) {
            return Err(ContractError::BadModuleName);
        }
        if !check_identifier(&self.otw) {
            return Err(ContractError::BadTypeName);
        }
        Ok(CoinTypeDescriptor {
            package: Address { bytes: clone_bytes(&self.package_id.bytes) },
            module: clone_bytes(&self.module),
            name: clone_bytes(&self.otw),
        })
    }
}

} // verus!
