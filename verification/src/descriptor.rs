use vstd::prelude::*;

use crate::account::{AccountMeta, Pubkey};

verus! {

/// The mathematical shape of an assembled call: the program it is
/// addressed to, the accounts it carries in order, and its argument
/// bytes.
pub struct CallShape {
    pub program: Pubkey,
    pub accounts: Seq<AccountMeta>,
    pub data: Seq<u8>,
}

/// An assembled, program-addressed invocation: built from a validated
/// account record plus the caller's arguments, issued once, and never
/// kept afterwards.
#[derive(Clone, PartialEq, Eq, Debug)]
pub struct CallDescriptor {
    pub program: Pubkey,
    pub accounts: Vec<AccountMeta>,
    pub data: Vec<u8>,
}

impl View for CallDescriptor {
    type V = CallShape;

    open spec fn view(&self) -> CallShape {
        CallShape { program: self.program, accounts: self.accounts@, data: self.data@ }
    }
}

} // verus!
