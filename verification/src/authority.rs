use vstd::prelude::*;

verus! {

/// The four authority roles a token mint or account can carry: a closed
/// enumeration, mapped one-to-one onto the token program's own kinds.
#[derive(Clone, Copy, PartialEq, Eq, Debug)]
pub enum AuthorityType {
    /// Authority to mint new tokens
    MintTokens,
    /// Authority to freeze any account associated with the Mint
    FreezeAccount,
    /// Owner of a given token account
    AccountOwner,
    /// Authority to close a token account
    CloseAccount,
}

/// The token program's wire encoding of an authority kind.
pub open spec fn authority_kind_index(t: AuthorityType) -> u8 {
    match t {
        AuthorityType::MintTokens => 0,
        AuthorityType::FreezeAccount => 1,
        AuthorityType::AccountOwner => 2,
        AuthorityType::CloseAccount => 3,
    }
}

/// Executable twin of `authority_kind_index`.
pub fn authority_type_index(t: AuthorityType) -> (r: u8)
    ensures
        r == authority_kind_index(t),
{
    match t {
        AuthorityType::MintTokens => 0,
        AuthorityType::FreezeAccount => 1,
        AuthorityType::AccountOwner => 2,
        AuthorityType::CloseAccount => 3,
    }
}

/// The mapping from authority kinds onto the token program's kinds is
/// total and injective: every kind has an encoding below four, and
/// distinct kinds never share one.
pub proof fn lemma_authority_kind_index_injective(a: AuthorityType, b: AuthorityType)
    ensures
        authority_kind_index(a) <= 3,
        authority_kind_index(a) == authority_kind_index(b) ==> a == b,
{
}

} // verus!
