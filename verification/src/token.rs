use vstd::prelude::*;

use crate::account::{AccountMeta, Pubkey};
use crate::authority::AuthorityType;
use crate::descriptor::{CallDescriptor, CallShape};
use crate::error::ProxyError;
use crate::schema::{
    check_schema, plain_role, signatures_ok, signer_role, writability_ok,
    writable_role, Role,
};
use crate::spl_calls::{
    build_burn, build_mint_to, build_set_authority, build_transfer, burn_shape,
    is_token_program_key, mint_to_shape, set_authority_shape, transfer_shape,
};

verus! {

/// Account record of a transfer: the signing authority, the writable
/// source and destination, and the token program's address.
#[derive(Clone, Copy, PartialEq, Eq, Debug)]
pub struct ProxyTransfer {
    pub authority: AccountMeta,
    pub from: AccountMeta,
    pub to: AccountMeta,
    pub token_program: AccountMeta,
}

/// Account record of a fee transfer; the same shape as a transfer, kept
/// distinct so a caller can express the distinct intent.
#[derive(Clone, Copy, PartialEq, Eq, Debug)]
pub struct ProxyFeeTransfer {
    pub authority: AccountMeta,
    pub from: AccountMeta,
    pub to: AccountMeta,
    pub token_program: AccountMeta,
}

/// Account record of a mint call: the signing mint authority, the
/// writable mint and receiving account, and the token program's address.
#[derive(Clone, Copy, PartialEq, Eq, Debug)]
pub struct ProxyMintTo {
    pub authority: AccountMeta,
    pub mint: AccountMeta,
    pub to: AccountMeta,
    pub token_program: AccountMeta,
}

/// Account record of a burn call: the signing authority, the writable
/// mint and burned-from account, and the token program's address.
#[derive(Clone, Copy, PartialEq, Eq, Debug)]
pub struct ProxyBurn {
    pub authority: AccountMeta,
    pub mint: AccountMeta,
    pub from: AccountMeta,
    pub token_program: AccountMeta,
}

/// Account record of an authority change: the signing current authority,
/// the writable owned account or mint, and the token program's address.
/// Multi-signature authorities are not supported: a single signer only.
#[derive(Clone, Copy, PartialEq, Eq, Debug)]
pub struct ProxySetAuthority {
    pub current_authority: AccountMeta,
    pub account_or_mint: AccountMeta,
    pub token_program: AccountMeta,
}

/// Schema shared by the three-account-and-program token operations: the
/// signer first, two writable accounts, then the program's address.
pub open spec fn sign_write_write_plain_schema() -> Seq<Role> {
    seq![signer_role(), writable_role(), writable_role(), plain_role()]
}

/// Schema of an authority change: the signer first, the writable owned
/// account, then the program's address.
pub open spec fn sign_write_plain_schema() -> Seq<Role> {
    seq![signer_role(), writable_role(), plain_role()]
}

fn sign_write_write_plain() -> (r: Vec<Role>)
    ensures
        r@ == sign_write_write_plain_schema(),
{
    let mut v: Vec<Role> = Vec::new();
    v.push(Role { must_sign: true, must_write: false });
    v.push(Role { must_sign: false, must_write: true });
    v.push(Role { must_sign: false, must_write: true });
    v.push(Role { must_sign: false, must_write: false });
    proof {
        assert(v@ =~= sign_write_write_plain_schema());
    }
    v
}

fn sign_write_plain() -> (r: Vec<Role>)
    ensures
        r@ == sign_write_plain_schema(),
{
    let mut v: Vec<Role> = Vec::new();
    v.push(Role { must_sign: true, must_write: false });
    v.push(Role { must_sign: false, must_write: true });
    v.push(Role { must_sign: false, must_write: false });
    proof {
        assert(v@ =~= sign_write_plain_schema());
    }
    v
}

proof fn lemma_sign_write_write_plain(accts: Seq<AccountMeta>, schema: Seq<Role>)
    requires
        accts.len() == 4,
        schema == sign_write_write_plain_schema(),
    ensures
        signatures_ok(accts, schema) <==> accts[0].is_signer,
        writability_ok(accts, schema) <==> (accts[1].is_writable && accts[2].is_writable),
{
    assert(schema[0] == signer_role());
    assert(schema[1] == writable_role());
    assert(schema[2] == writable_role());
    assert(schema[3] == plain_role());
    if accts[0].is_signer {
        assert forall|i: int| 0 <= i < schema.len() implies (schema[i].must_sign
            ==> accts[i].is_signer) by {
            if i != 0 {
                assert(!schema[i].must_sign);
            }
        }
    } else {
        assert(!(schema[0].must_sign ==> accts[0].is_signer));
    }
    if accts[1].is_writable && accts[2].is_writable {
        assert forall|i: int| 0 <= i < schema.len() implies (schema[i].must_write
            ==> accts[i].is_writable) by {
            if i != 1 && i != 2 {
                assert(!schema[i].must_write);
            }
        }
    } else if !accts[1].is_writable {
        assert(!(schema[1].must_write ==> accts[1].is_writable));
    } else {
        assert(!(schema[2].must_write ==> accts[2].is_writable));
    }
}

proof fn lemma_sign_write_plain(accts: Seq<AccountMeta>, schema: Seq<Role>)
    requires
        accts.len() == 3,
        schema == sign_write_plain_schema(),
    ensures
        signatures_ok(accts, schema) <==> accts[0].is_signer,
        writability_ok(accts, schema) <==> accts[1].is_writable,
{
    assert(schema[0] == signer_role());
    assert(schema[1] == writable_role());
    assert(schema[2] == plain_role());
    if accts[0].is_signer {
        assert forall|i: int| 0 <= i < schema.len() implies (schema[i].must_sign
            ==> accts[i].is_signer) by {
            if i != 0 {
                assert(!schema[i].must_sign);
            }
        }
    } else {
        assert(!(schema[0].must_sign ==> accts[0].is_signer));
    }
    if accts[1].is_writable {
        assert forall|i: int| 0 <= i < schema.len() implies (schema[i].must_write
            ==> accts[i].is_writable) by {
            if i != 1 {
                assert(!schema[i].must_write);
            }
        }
    } else {
        assert(!(schema[1].must_write ==> accts[1].is_writable));
    }
}

/// Forwards a transfer of `amount` from `from` to `to` to the token
/// program, after validating that the authority signed and that both
/// token accounts are writable. Invoking without the required signature
/// fails with an authorization error and nothing is forwarded.
pub fn transfer(ctx: ProxyTransfer, amount: u64) -> (r: Result<CallDescriptor, ProxyError>)
    ensures
        r is Ok <==> (ctx.authority.is_signer && ctx.from.is_writable && ctx.to.is_writable
            && is_token_program_key(ctx.token_program.key.bytes@)),
        r matches Ok(d) ==> d@ == transfer_shape(
            ctx.token_program.key,
            ctx.from.key,
            ctx.to.key,
            ctx.authority.key,
            amount,
        ),
        r == Err::<CallDescriptor, ProxyError>(ProxyError::Authorization)
            <==> !ctx.authority.is_signer,
        r == Err::<CallDescriptor, ProxyError>(ProxyError::AccountShape) <==> (
        ctx.authority.is_signer && !(ctx.from.is_writable && ctx.to.is_writable
            && is_token_program_key(ctx.token_program.key.bytes@))),
{
    let mut accounts: Vec<AccountMeta> = Vec::new();
    accounts.push(ctx.authority);
    accounts.push(ctx.from);
    accounts.push(ctx.to);
    accounts.push(ctx.token_program);
    let schema = sign_write_write_plain();
    proof {
        lemma_sign_write_write_plain(accounts@, schema@);
    }
    match check_schema(&accounts, &schema) {
        Ok(()) => build_transfer(
            &ctx.token_program.key,
            &ctx.from.key,
            &ctx.to.key,
            &ctx.authority.key,
            amount,
        ),
        Err(e) => Err(e),
    }
}

/// The shape a fee transfer forwards; byte for byte the shape of a plain
/// transfer of the same accounts and amount.
pub open spec fn fee_transfer_shape(
    token_program: Pubkey,
    from: Pubkey,
    to: Pubkey,
    authority: Pubkey,
    amount: u64,
) -> CallShape {
    transfer_shape(token_program, from, to, authority, amount)
}

/// Forwards a fee payment; the contract of `transfer` under a distinct
/// entry point, so a caller can express the distinct intent.
pub fn fee_transfer(ctx: ProxyFeeTransfer, amount: u64) -> (r: Result<CallDescriptor, ProxyError>)
    ensures
        r is Ok <==> (ctx.authority.is_signer && ctx.from.is_writable && ctx.to.is_writable
            && is_token_program_key(ctx.token_program.key.bytes@)),
        r matches Ok(d) ==> d@ == fee_transfer_shape(
            ctx.token_program.key,
            ctx.from.key,
            ctx.to.key,
            ctx.authority.key,
            amount,
        ),
        r == Err::<CallDescriptor, ProxyError>(ProxyError::Authorization)
            <==> !ctx.authority.is_signer,
        r == Err::<CallDescriptor, ProxyError>(ProxyError::AccountShape) <==> (
        ctx.authority.is_signer && !(ctx.from.is_writable && ctx.to.is_writable
            && is_token_program_key(ctx.token_program.key.bytes@))),
{
    let mut accounts: Vec<AccountMeta> = Vec::new();
    accounts.push(ctx.authority);
    accounts.push(ctx.from);
    accounts.push(ctx.to);
    accounts.push(ctx.token_program);
    let schema = sign_write_write_plain();
    proof {
        lemma_sign_write_write_plain(accounts@, schema@);
    }
    match check_schema(&accounts, &schema) {
        Ok(()) => build_transfer(
            &ctx.token_program.key,
            &ctx.from.key,
            &ctx.to.key,
            &ctx.authority.key,
            amount,
        ),
        Err(e) => Err(e),
    }
}

/// A transfer and a fee transfer of the same accounts and amount forward
/// one and the same call shape: the two entry points differ only in
/// name.
pub proof fn lemma_fee_transfer_forwards_transfer_shape(
    token_program: Pubkey,
    from: Pubkey,
    to: Pubkey,
    authority: Pubkey,
    amount: u64,
)
    ensures
        fee_transfer_shape(token_program, from, to, authority, amount) == transfer_shape(
            token_program,
            from,
            to,
            authority,
            amount,
        ),
{
}

/// Forwards a mint of `amount` new tokens to `to`, after validating that
/// the mint authority signed and that the mint and the receiving account
/// are writable.
pub fn mint_to(ctx: ProxyMintTo, amount: u64) -> (r: Result<CallDescriptor, ProxyError>)
    ensures
        r is Ok <==> (ctx.authority.is_signer && ctx.mint.is_writable && ctx.to.is_writable
            && is_token_program_key(ctx.token_program.key.bytes@)),
        r matches Ok(d) ==> d@ == mint_to_shape(
            ctx.token_program.key,
            ctx.mint.key,
            ctx.to.key,
            ctx.authority.key,
            amount,
        ),
        r == Err::<CallDescriptor, ProxyError>(ProxyError::Authorization)
            <==> !ctx.authority.is_signer,
        r == Err::<CallDescriptor, ProxyError>(ProxyError::AccountShape) <==> (
        ctx.authority.is_signer && !(ctx.mint.is_writable && ctx.to.is_writable
            && is_token_program_key(ctx.token_program.key.bytes@))),
{
    let mut accounts: Vec<AccountMeta> = Vec::new();
    accounts.push(ctx.authority);
    accounts.push(ctx.mint);
    accounts.push(ctx.to);
    accounts.push(ctx.token_program);
    let schema = sign_write_write_plain();
    proof {
        lemma_sign_write_write_plain(accounts@, schema@);
    }
    match check_schema(&accounts, &schema) {
        Ok(()) => build_mint_to(
            &ctx.token_program.key,
            &ctx.mint.key,
            &ctx.to.key,
            &ctx.authority.key,
            amount,
        ),
        Err(e) => Err(e),
    }
}

/// Forwards a burn of `amount` tokens from `from`, after validating that
/// the authority signed and that the mint and the burned-from account
/// are writable.
pub fn burn(ctx: ProxyBurn, amount: u64) -> (r: Result<CallDescriptor, ProxyError>)
    ensures
        r is Ok <==> (ctx.authority.is_signer && ctx.mint.is_writable && ctx.from.is_writable
            && is_token_program_key(ctx.token_program.key.bytes@)),
        r matches Ok(d) ==> d@ == burn_shape(
            ctx.token_program.key,
            ctx.from.key,
            ctx.mint.key,
            ctx.authority.key,
            amount,
        ),
        r == Err::<CallDescriptor, ProxyError>(ProxyError::Authorization)
            <==> !ctx.authority.is_signer,
        r == Err::<CallDescriptor, ProxyError>(ProxyError::AccountShape) <==> (
        ctx.authority.is_signer && !(ctx.mint.is_writable && ctx.from.is_writable
            && is_token_program_key(ctx.token_program.key.bytes@))),
{
    let mut accounts: Vec<AccountMeta> = Vec::new();
    accounts.push(ctx.authority);
    accounts.push(ctx.mint);
    accounts.push(ctx.from);
    accounts.push(ctx.token_program);
    let schema = sign_write_write_plain();
    proof {
        lemma_sign_write_write_plain(accounts@, schema@);
    }
    match check_schema(&accounts, &schema) {
        Ok(()) => build_burn(
            &ctx.token_program.key,
            &ctx.from.key,
            &ctx.mint.key,
            &ctx.authority.key,
            amount,
        ),
        Err(e) => Err(e),
    }
}

/// Forwards an authority change on the owned account or mint, after
/// validating that the current authority signed and that the owned
/// account is writable. The kind is translated into the token program's
/// encoding, and an absent new authority is forwarded as an explicit
/// revocation signal. Multi-signature authorities are not supported.
pub fn set_authority(
    ctx: ProxySetAuthority,
    authority_type: AuthorityType,
    new_authority: Option<Pubkey>,
) -> (r: Result<CallDescriptor, ProxyError>)
    ensures
        r is Ok <==> (ctx.current_authority.is_signer && ctx.account_or_mint.is_writable
            && is_token_program_key(ctx.token_program.key.bytes@)),
        r matches Ok(d) ==> d@ == set_authority_shape(
            ctx.token_program.key,
            ctx.account_or_mint.key,
            ctx.current_authority.key,
            authority_type,
            new_authority,
        ),
        r == Err::<CallDescriptor, ProxyError>(ProxyError::Authorization)
            <==> !ctx.current_authority.is_signer,
        r == Err::<CallDescriptor, ProxyError>(ProxyError::AccountShape) <==> (
        ctx.current_authority.is_signer && !(ctx.account_or_mint.is_writable
            && is_token_program_key(ctx.token_program.key.bytes@))),
{
    let mut accounts: Vec<AccountMeta> = Vec::new();
    accounts.push(ctx.current_authority);
    accounts.push(ctx.account_or_mint);
    accounts.push(ctx.token_program);
    let schema = sign_write_plain();
    proof {
        lemma_sign_write_plain(accounts@, schema@);
    }
    match check_schema(&accounts, &schema) {
        Ok(()) => build_set_authority(
            &ctx.token_program.key,
            &ctx.account_or_mint.key,
            &ctx.current_authority.key,
            authority_type,
            &new_authority,
        ),
        Err(e) => Err(e),
    }
}

} // verus!
