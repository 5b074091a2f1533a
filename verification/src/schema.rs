use vstd::prelude::*;

use crate::account::AccountMeta;
use crate::error::ProxyError;

verus! {

/// What one position of an operation's account list demands of the
/// account standing there.
#[derive(Clone, Copy, PartialEq, Eq, Debug)]
pub struct Role {
    pub must_sign: bool,
    pub must_write: bool,
}

/// A role that demands a verified signature.
pub open spec fn signer_role() -> Role {
    Role { must_sign: true, must_write: false }
}

/// A role that demands writability.
pub open spec fn writable_role() -> Role {
    Role { must_sign: false, must_write: true }
}

/// A role with no demands (a read-only account, such as the target
/// program's own address).
pub open spec fn plain_role() -> Role {
    Role { must_sign: false, must_write: false }
}

/// Every signature that the schema demands was supplied.
pub open spec fn signatures_ok(accounts: Seq<AccountMeta>, schema: Seq<Role>) -> bool {
    forall|i: int| 0 <= i < schema.len() ==> (schema[i].must_sign ==> accounts[i].is_signer)
}

/// Every account that the schema demands writable is writable.
pub open spec fn writability_ok(accounts: Seq<AccountMeta>, schema: Seq<Role>) -> bool {
    forall|i: int| 0 <= i < schema.len() ==> (schema[i].must_write ==> accounts[i].is_writable)
}

/// The supplied account list meets the operation's schema.
pub open spec fn schema_satisfied(accounts: Seq<AccountMeta>, schema: Seq<Role>) -> bool {
    &&& accounts.len() == schema.len()
    &&& signatures_ok(accounts, schema)
    &&& writability_ok(accounts, schema)
}

/// Holds a caller-supplied account list against an operation's schema and
/// fails fast on the first mismatch. A missing signature is an
/// authorization failure; a wrong length or missing writability is a
/// shape failure; a missing signature is reported even where writability
/// is missing too.
pub fn check_schema(accounts: &Vec<AccountMeta>, schema: &Vec<Role>) -> (r: Result<(), ProxyError>)
    ensures
        r is Ok <==> schema_satisfied(accounts@, schema@),
        r == Err::<(), ProxyError>(ProxyError::Authorization) <==> (accounts@.len() == schema@.len()
            && !signatures_ok(accounts@, schema@)),
        r == Err::<(), ProxyError>(ProxyError::AccountShape) <==> (accounts@.len() != schema@.len()
            || (signatures_ok(accounts@, schema@) && !writability_ok(accounts@, schema@))),
{
    if accounts.len() != schema.len() {
        return Err(ProxyError::AccountShape);
    }
    let mut i: usize = 0;
    while i < schema.len()
        invariant
            i <= schema@.len(),
            accounts@.len() == schema@.len(),
            forall|j: int| 0 <= j < i ==> (schema@[j].must_sign ==> accounts@[j].is_signer),
        decreases schema@.len() - i,
    {
        if schema[i].must_sign && !accounts[i].is_signer {
            return Err(ProxyError::Authorization);
        }
        i += 1;
    }
    let mut i: usize = 0;
    while i < schema.len()
        invariant
            i <= schema@.len(),
            accounts@.len() == schema@.len(),
            signatures_ok(accounts@, schema@),
            forall|j: int| 0 <= j < i ==> (schema@[j].must_write ==> accounts@[j].is_writable),
        decreases schema@.len() - i,
    {
        if schema[i].must_write && !accounts[i].is_writable {
            return Err(ProxyError::AccountShape);
        }
        i += 1;
    }
    Ok(())
}

} // verus!
