use vstd::prelude::*;

verus! {

/// A 32-byte program or account address, held as plain bytes.
#[derive(Clone, Copy, PartialEq, Eq, Debug)]
pub struct Pubkey {
    pub bytes: [u8; 32],
}

/// One account of a call: its address, whether it signed the transaction,
/// and whether it may be written during the call.
#[derive(Clone, Copy, PartialEq, Eq, Debug)]
pub struct AccountMeta {
    pub key: Pubkey,
    pub is_signer: bool,
    pub is_writable: bool,
}

} // verus!
