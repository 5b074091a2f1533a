use vstd::prelude::*;

use crate::account::{AccountMeta, Pubkey};
use crate::authority::{authority_kind_index, AuthorityType};
use crate::descriptor::{CallDescriptor, CallShape};
use crate::error::ProxyError;
use spl_token::instruction::AuthorityType as SplAuthorityType;
use spl_token::solana_program::pubkey::Pubkey as SplPubkey;

verus! {

/// Whether a key is the token program's published address. It depends on
/// the bytes alone and is the same in every process.
pub uninterp spec fn is_token_program_key(key: Seq<u8>) -> bool;

/// Account list of a token-program transfer: source, destination, then
/// the single signing authority.
pub open spec fn transfer_accounts(from: Pubkey, to: Pubkey, authority: Pubkey) -> Seq<
    AccountMeta,
> {
    seq![
        AccountMeta { key: from, is_signer: false, is_writable: true },
        AccountMeta { key: to, is_signer: false, is_writable: true },
        AccountMeta { key: authority, is_signer: true, is_writable: false },
    ]
}

/// Argument bytes of a token-program transfer: the transfer tag, then the
/// amount in little-endian bytes.
pub open spec fn transfer_data(amount: u64) -> Seq<u8> {
    seq![3u8] + vstd::bytes::spec_u64_to_le_bytes(amount)
}

/// The whole shape of a forwarded transfer call.
pub open spec fn transfer_shape(
    token_program: Pubkey,
    from: Pubkey,
    to: Pubkey,
    authority: Pubkey,
    amount: u64,
) -> CallShape {
    CallShape {
        program: token_program,
        accounts: transfer_accounts(from, to, authority),
        data: transfer_data(amount),
    }
}

/// Account list of a mint call: the mint, the receiving account, then the
/// single signing mint authority.
pub open spec fn mint_to_accounts(mint: Pubkey, to: Pubkey, authority: Pubkey) -> Seq<
    AccountMeta,
> {
    seq![
        AccountMeta { key: mint, is_signer: false, is_writable: true },
        AccountMeta { key: to, is_signer: false, is_writable: true },
        AccountMeta { key: authority, is_signer: true, is_writable: false },
    ]
}

/// Argument bytes of a mint call: the mint tag, then the amount in
/// little-endian bytes.
pub open spec fn mint_to_data(amount: u64) -> Seq<u8> {
    seq![7u8] + vstd::bytes::spec_u64_to_le_bytes(amount)
}

/// The whole shape of a forwarded mint call.
pub open spec fn mint_to_shape(
    token_program: Pubkey,
    mint: Pubkey,
    to: Pubkey,
    authority: Pubkey,
    amount: u64,
) -> CallShape {
    CallShape {
        program: token_program,
        accounts: mint_to_accounts(mint, to, authority),
        data: mint_to_data(amount),
    }
}

/// Account list of a burn call: the account burned from, the mint, then
/// the single signing authority.
pub open spec fn burn_accounts(from: Pubkey, mint: Pubkey, authority: Pubkey) -> Seq<
    AccountMeta,
> {
    seq![
        AccountMeta { key: from, is_signer: false, is_writable: true },
        AccountMeta { key: mint, is_signer: false, is_writable: true },
        AccountMeta { key: authority, is_signer: true, is_writable: false },
    ]
}

/// Argument bytes of a burn call: the burn tag, then the amount in
/// little-endian bytes.
pub open spec fn burn_data(amount: u64) -> Seq<u8> {
    seq![8u8] + vstd::bytes::spec_u64_to_le_bytes(amount)
}

/// The whole shape of a forwarded burn call.
pub open spec fn burn_shape(
    token_program: Pubkey,
    from: Pubkey,
    mint: Pubkey,
    authority: Pubkey,
    amount: u64,
) -> CallShape {
    CallShape {
        program: token_program,
        accounts: burn_accounts(from, mint, authority),
        data: burn_data(amount),
    }
}

/// Account list of an authority change: the owned account or mint, then
/// the single signing current authority.
pub open spec fn set_authority_accounts(account_or_mint: Pubkey, current_authority: Pubkey) -> Seq<
    AccountMeta,
> {
    seq![
        AccountMeta { key: account_or_mint, is_signer: false, is_writable: true },
        AccountMeta { key: current_authority, is_signer: true, is_writable: false },
    ]
}

/// Wire encoding of an optional new authority: one explicit absence byte
/// on revocation, or a presence byte followed by the key's bytes.
pub open spec fn new_authority_bytes(new_authority: Option<Pubkey>) -> Seq<u8> {
    match new_authority {
        Option::None => seq![0u8],
        Option::Some(k) => seq![1u8] + k.bytes@,
    }
}

/// Argument bytes of an authority change: the tag, the kind's encoding,
/// then the optional new authority.
pub open spec fn set_authority_data(t: AuthorityType, new_authority: Option<Pubkey>) -> Seq<u8> {
    seq![6u8, authority_kind_index(t)] + new_authority_bytes(new_authority)
}

/// The whole shape of a forwarded authority change.
pub open spec fn set_authority_shape(
    token_program: Pubkey,
    account_or_mint: Pubkey,
    current_authority: Pubkey,
    t: AuthorityType,
    new_authority: Option<Pubkey>,
) -> CallShape {
    CallShape {
        program: token_program,
        accounts: set_authority_accounts(account_or_mint, current_authority),
        data: set_authority_data(t, new_authority),
    }
}

/// A revocation is forwarded as an explicit absence signal, not as a
/// zero-filled key: the argument bytes of an authority change with no
/// new authority differ from those of one that installs any key, the
/// zero-filled key included.
pub proof fn lemma_revocation_is_explicit(t: AuthorityType, u: AuthorityType, k: Pubkey)
    ensures
        set_authority_data(t, Option::None) != set_authority_data(u, Option::Some(k)),
{
    assert(set_authority_data(t, Option::None).len() == 3);
    assert(set_authority_data(u, Option::Some(k)).len() == 35);
}

fn descriptor_from_parts(
    program: [u8; 32],
    accounts: Vec<([u8; 32], bool, bool)>,
    data: Vec<u8>,
) -> (r: CallDescriptor)
    ensures
        r.program.bytes == program,
        r.data == data,
        r.accounts@.len() == accounts@.len(),
        forall|i: int|
            0 <= i < accounts@.len() ==> r.accounts@[i] == (AccountMeta {
                key: Pubkey { bytes: accounts@[i].0 },
                is_signer: accounts@[i].1,
                is_writable: accounts@[i].2,
            }),
{
    let mut metas: Vec<AccountMeta> = Vec::new();
    let mut i: usize = 0;
    while i < accounts.len()
        invariant
            i <= accounts@.len(),
            metas@.len() == i,
            forall|j: int|
                0 <= j < i ==> metas@[j] == (AccountMeta {
                    key: Pubkey { bytes: accounts@[j].0 },
                    is_signer: accounts@[j].1,
                    is_writable: accounts@[j].2,
                }),
        decreases accounts@.len() - i,
    {
        let (kb, s, w) = accounts[i];
        metas.push(AccountMeta { key: Pubkey { bytes: kb }, is_signer: s, is_writable: w });
        i += 1;
    }
    CallDescriptor { program: Pubkey { bytes: program }, accounts: metas, data }
}

/// Relies on `spl_token::check_id`: true exactly of the token program's
/// published address.
#[verifier::external_body]
pub fn is_token_program(key: &Pubkey) -> (r: bool)
    ensures
        r == is_token_program_key(key.bytes@),
{
    spl_token::check_id(&SplPubkey::new_from_array(key.bytes))
}

/// Relies on `spl_token::instruction::transfer` in its single-signer
/// form: it fails exactly when `token_program` is not the token program's
/// address, and otherwise returns the instruction addressed to
/// `token_program` whose accounts are source and destination writable and
/// the authority a read-only signer, and whose data is the transfer tag
/// followed by the amount in little-endian bytes.
#[verifier::external_body]
pub(crate) fn build_transfer(
    token_program: &Pubkey,
    from: &Pubkey,
    to: &Pubkey,
    authority: &Pubkey,
    amount: u64,
) -> (r: Result<CallDescriptor, ProxyError>)
    ensures
        r is Ok <==> is_token_program_key(token_program.bytes@),
        r matches Ok(d) ==> d@ == transfer_shape(*token_program, *from, *to, *authority, amount),
        r matches Err(e) ==> e == ProxyError::AccountShape,
{
    match spl_token::instruction::transfer(&SplPubkey::new_from_array(token_program.bytes), &SplPubkey::new_from_array(from.bytes), &SplPubkey::new_from_array(to.bytes), &SplPubkey::new_from_array(authority.bytes), &[], amount) {
        Ok(ix) => Ok(descriptor_from_parts(ix.program_id.to_bytes(), ix.accounts.iter().map(|m| (m.pubkey.to_bytes(), m.is_signer, m.is_writable)).collect(), ix.data)),
        Err(_) => Err(ProxyError::AccountShape),
    }
}

/// Relies on `spl_token::instruction::mint_to` in its single-signer form:
/// it fails exactly when `token_program` is not the token program's
/// address, and otherwise returns the instruction whose accounts are mint
/// and receiving account writable and the authority a read-only signer,
/// and whose data is the mint tag followed by the amount in little-endian
/// bytes.
#[verifier::external_body]
pub(crate) fn build_mint_to(
    token_program: &Pubkey,
    mint: &Pubkey,
    to: &Pubkey,
    authority: &Pubkey,
    amount: u64,
) -> (r: Result<CallDescriptor, ProxyError>)
    ensures
        r is Ok <==> is_token_program_key(token_program.bytes@),
        r matches Ok(d) ==> d@ == mint_to_shape(*token_program, *mint, *to, *authority, amount),
        r matches Err(e) ==> e == ProxyError::AccountShape,
{
    match spl_token::instruction::mint_to(&SplPubkey::new_from_array(token_program.bytes), &SplPubkey::new_from_array(mint.bytes), &SplPubkey::new_from_array(to.bytes), &SplPubkey::new_from_array(authority.bytes), &[], amount) {
        Ok(ix) => Ok(descriptor_from_parts(ix.program_id.to_bytes(), ix.accounts.iter().map(|m| (m.pubkey.to_bytes(), m.is_signer, m.is_writable)).collect(), ix.data)),
        Err(_) => Err(ProxyError::AccountShape),
    }
}

/// Relies on `spl_token::instruction::burn` in its single-signer form: it
/// fails exactly when `token_program` is not the token program's address,
/// and otherwise returns the instruction whose accounts are the burned
/// account and the mint writable and the authority a read-only signer,
/// and whose data is the burn tag followed by the amount in little-endian
/// bytes.
#[verifier::external_body]
pub(crate) fn build_burn(
    token_program: &Pubkey,
    from: &Pubkey,
    mint: &Pubkey,
    authority: &Pubkey,
    amount: u64,
) -> (r: Result<CallDescriptor, ProxyError>)
    ensures
        r is Ok <==> is_token_program_key(token_program.bytes@),
        r matches Ok(d) ==> d@ == burn_shape(*token_program, *from, *mint, *authority, amount),
        r matches Err(e) ==> e == ProxyError::AccountShape,
{
    match spl_token::instruction::burn(&SplPubkey::new_from_array(token_program.bytes), &SplPubkey::new_from_array(from.bytes), &SplPubkey::new_from_array(mint.bytes), &SplPubkey::new_from_array(authority.bytes), &[], amount) {
        Ok(ix) => Ok(descriptor_from_parts(ix.program_id.to_bytes(), ix.accounts.iter().map(|m| (m.pubkey.to_bytes(), m.is_signer, m.is_writable)).collect(), ix.data)),
        Err(_) => Err(ProxyError::AccountShape),
    }
}

/// Relies on `spl_token::instruction::set_authority` in its single-signer
/// form: it fails exactly when `token_program` is not the token program's
/// address, and otherwise returns the instruction whose accounts are the
/// owned account writable and the current authority a read-only signer,
/// and whose data is the tag, the kind's encoding, then the optional new
/// authority with an explicit absence byte. Multi-signature authorities
/// are not supported: the call is made with no extra signers.
#[verifier::external_body]
pub(crate) fn build_set_authority(
    token_program: &Pubkey,
    account_or_mint: &Pubkey,
    current_authority: &Pubkey,
    t: AuthorityType,
    new_authority: &Option<Pubkey>,
) -> (r: Result<CallDescriptor, ProxyError>)
    ensures
        r is Ok <==> is_token_program_key(token_program.bytes@),
        r matches Ok(d) ==> d@ == set_authority_shape(
            *token_program,
            *account_or_mint,
            *current_authority,
            t,
            *new_authority,
        ),
        r matches Err(e) ==> e == ProxyError::AccountShape,
{
    let kind = match t {
        AuthorityType::MintTokens => SplAuthorityType::MintTokens,
        AuthorityType::FreezeAccount => SplAuthorityType::FreezeAccount,
        AuthorityType::AccountOwner => SplAuthorityType::AccountOwner,
        AuthorityType::CloseAccount => SplAuthorityType::CloseAccount,
    };
    let new_key = new_authority.as_ref().map(|p| SplPubkey::new_from_array(p.bytes));
    match spl_token::instruction::set_authority(&SplPubkey::new_from_array(token_program.bytes), &SplPubkey::new_from_array(account_or_mint.bytes), new_key.as_ref(), kind, &SplPubkey::new_from_array(current_authority.bytes), &[]) {
        Ok(ix) => Ok(descriptor_from_parts(ix.program_id.to_bytes(), ix.accounts.iter().map(|m| (m.pubkey.to_bytes(), m.is_signer, m.is_writable)).collect(), ix.data)),
        Err(_) => Err(ProxyError::AccountShape),
    }
}

} // verus!
