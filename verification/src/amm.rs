use vstd::prelude::*;

use crate::account::{AccountMeta, Pubkey};
use crate::error::ProxyError;
use crate::schema::{check_schema, signatures_ok, writability_ok, writable_role, Role};

verus! {

/// The scalar arguments of one AMM operation, carried to the external
/// program unmodified. This crate defines no pricing, reserve or
/// liquidity logic of its own: the meaning of each argument belongs to
/// the external program.
#[derive(Clone, Copy, PartialEq, Eq, Debug)]
pub enum AmmArgs {
    /// Pre-initialize a swap pool.
    PreInitialize { nonce: u8 },
    /// Initialize a swap pool.
    Initialize { nonce: u8, open_time: u64 },
    /// Deposit liquidity.
    Deposit { max_coin_amount: u64, max_pc_amount: u64, base_side: u64 },
    /// Withdraw liquidity.
    Withdraw { amount: u64 },
    /// Swap a fixed input amount.
    SwapBaseIn { amount_in: u64, minimum_amount_out: u64 },
    /// Swap toward a fixed output amount.
    SwapBaseOut { max_amount_in: u64, amount_out: u64 },
}

/// The mathematical shape of an assembled AMM call: the program it is
/// addressed to, the pool accounts in order, and the forwarded
/// arguments.
pub struct AmmCallShape {
    pub program: Pubkey,
    pub accounts: Seq<AccountMeta>,
    pub args: AmmArgs,
}

/// An assembled AMM invocation: the validated pool accounts and the
/// caller's arguments, addressed to the external AMM program.
#[derive(Clone, PartialEq, Eq, Debug)]
pub struct AmmCall {
    pub program: Pubkey,
    pub accounts: Vec<AccountMeta>,
    pub args: AmmArgs,
}

impl View for AmmCall {
    type V = AmmCallShape;

    open spec fn view(&self) -> AmmCallShape {
        AmmCallShape { program: self.program, accounts: self.accounts@, args: self.args }
    }
}

/// Account record of a pool pre-initialization.
#[derive(Clone, PartialEq, Eq, Debug)]
pub struct ProxyPreInitialize {
    pub amm_program: AccountMeta,
    pub pool_accounts: Vec<AccountMeta>,
}

/// Account record of a pool initialization.
#[derive(Clone, PartialEq, Eq, Debug)]
pub struct ProxyInitialize {
    pub amm_program: AccountMeta,
    pub pool_accounts: Vec<AccountMeta>,
}

/// Account record of a deposit.
#[derive(Clone, PartialEq, Eq, Debug)]
pub struct ProxyDeposit {
    pub amm_program: AccountMeta,
    pub pool_accounts: Vec<AccountMeta>,
}

/// Account record of a withdrawal.
#[derive(Clone, PartialEq, Eq, Debug)]
pub struct ProxyWithdraw {
    pub amm_program: AccountMeta,
    pub pool_accounts: Vec<AccountMeta>,
}

/// Account record of a fixed-input swap.
#[derive(Clone, PartialEq, Eq, Debug)]
pub struct ProxySwapBaseIn {
    pub amm_program: AccountMeta,
    pub pool_accounts: Vec<AccountMeta>,
}

/// Account record of a fixed-output swap.
#[derive(Clone, PartialEq, Eq, Debug)]
pub struct ProxySwapBaseOut {
    pub amm_program: AccountMeta,
    pub pool_accounts: Vec<AccountMeta>,
}

/// Every pool account is writable, as the pool operations demand.
pub open spec fn all_writable(accounts: Seq<AccountMeta>) -> bool {
    forall|i: int| 0 <= i < accounts.len() ==> accounts[i].is_writable
}

fn writable_schema(n: usize) -> (r: Vec<Role>)
    ensures
        r@.len() == n,
        forall|i: int| 0 <= i < n ==> r@[i] == writable_role(),
{
    let mut v: Vec<Role> = Vec::new();
    while v.len() < n
        invariant
            v@.len() <= n,
            forall|i: int| 0 <= i < v@.len() ==> v@[i] == writable_role(),
        decreases n - v@.len(),
    {
        v.push(Role { must_sign: false, must_write: true });
    }
    v
}

fn copy_accounts(v: &Vec<AccountMeta>) -> (r: Vec<AccountMeta>)
    ensures
        r@ == v@,
{
    let mut out: Vec<AccountMeta> = Vec::new();
    let mut i: usize = 0;
    while i < v.len()
        invariant
            i <= v@.len(),
            out@ == v@.subrange(0, i as int),
        decreases v@.len() - i,
    {
        out.push(v[i]);
        proof {
            assert(v@.subrange(0, i as int).push(v@[i as int]) =~= v@.subrange(0, i + 1));
        }
        i += 1;
    }
    proof {
        assert(v@.subrange(0, v@.len() as int) =~= v@);
    }
    out
}

proof fn lemma_all_writable_schema(accts: Seq<AccountMeta>, schema: Seq<Role>)
    requires
        schema.len() == accts.len(),
        forall|i: int| 0 <= i < schema.len() ==> schema[i] == writable_role(),
    ensures
        signatures_ok(accts, schema),
        writability_ok(accts, schema) <==> all_writable(accts),
{
    assert forall|i: int| 0 <= i < schema.len() implies (schema[i].must_sign
        ==> accts[i].is_signer) by {
        assert(schema[i] == writable_role());
    }
    if writability_ok(accts, schema) {
        assert forall|i: int| 0 <= i < accts.len() implies accts[i].is_writable by {
            assert(schema[i] == writable_role());
            assert(schema[i].must_write);
        }
    }
    if all_writable(accts) {
        assert forall|i: int| 0 <= i < schema.len() implies (schema[i].must_write
            ==> accts[i].is_writable) by {
            assert(accts[i].is_writable);
        }
    }
}

/// Forwards a pool pre-initialization with the caller's nonce unchanged,
/// after validating that every pool account is writable.
pub fn proxy_pre_initialize(ctx: &ProxyPreInitialize, nonce: u8) -> (r: Result<
    AmmCall,
    ProxyError,
>)
    ensures
        r is Ok <==> all_writable(ctx.pool_accounts@),
        r matches Ok(c) ==> c@ == (AmmCallShape {
            program: ctx.amm_program.key,
            accounts: ctx.pool_accounts@,
            args: AmmArgs::PreInitialize { nonce: nonce },
        }),
        r matches Err(e) ==> e == ProxyError::AccountShape,
{
    let schema = writable_schema(ctx.pool_accounts.len());
    proof {
        lemma_all_writable_schema(ctx.pool_accounts@, schema@);
    }
    match check_schema(&ctx.pool_accounts, &schema) {
        Ok(()) => Ok(
            AmmCall {
                program: ctx.amm_program.key,
                accounts: copy_accounts(&ctx.pool_accounts),
                args: AmmArgs::PreInitialize { nonce },
            },
        ),
        Err(e) => Err(e),
    }
}

/// Forwards a pool initialization with the caller's nonce and opening
/// time unchanged, after validating that every pool account is writable.
pub fn proxy_initialize(ctx: &ProxyInitialize, nonce: u8, open_time: u64) -> (r: Result<
    AmmCall,
    ProxyError,
>)
    ensures
        r is Ok <==> all_writable(ctx.pool_accounts@),
        r matches Ok(c) ==> c@ == (AmmCallShape {
            program: ctx.amm_program.key,
            accounts: ctx.pool_accounts@,
            args: AmmArgs::Initialize { nonce: nonce, open_time: open_time },
        }),
        r matches Err(e) ==> e == ProxyError::AccountShape,
{
    let schema = writable_schema(ctx.pool_accounts.len());
    proof {
        lemma_all_writable_schema(ctx.pool_accounts@, schema@);
    }
    match check_schema(&ctx.pool_accounts, &schema) {
        Ok(()) => Ok(
            AmmCall {
                program: ctx.amm_program.key,
                accounts: copy_accounts(&ctx.pool_accounts),
                args: AmmArgs::Initialize { nonce, open_time },
            },
        ),
        Err(e) => Err(e),
    }
}

/// Forwards a deposit with the caller's bounds and base-side selector
/// unchanged, after validating that every pool account is writable.
pub fn proxy_deposit(
    ctx: &ProxyDeposit,
    max_coin_amount: u64,
    max_pc_amount: u64,
    base_side: u64,
) -> (r: Result<AmmCall, ProxyError>)
    ensures
        r is Ok <==> all_writable(ctx.pool_accounts@),
        r matches Ok(c) ==> c@ == (AmmCallShape {
            program: ctx.amm_program.key,
            accounts: ctx.pool_accounts@,
            args: AmmArgs::Deposit {
                max_coin_amount: max_coin_amount,
                max_pc_amount: max_pc_amount,
                base_side: base_side,
            },
        }),
        r matches Err(e) ==> e == ProxyError::AccountShape,
{
    let schema = writable_schema(ctx.pool_accounts.len());
    proof {
        lemma_all_writable_schema(ctx.pool_accounts@, schema@);
    }
    match check_schema(&ctx.pool_accounts, &schema) {
        Ok(()) => Ok(
            AmmCall {
                program: ctx.amm_program.key,
                accounts: copy_accounts(&ctx.pool_accounts),
                args: AmmArgs::Deposit { max_coin_amount, max_pc_amount, base_side },
            },
        ),
        Err(e) => Err(e),
    }
}

/// Forwards a withdrawal with the caller's amount unchanged, after
/// validating that every pool account is writable.
pub fn proxy_withdraw(ctx: &ProxyWithdraw, amount: u64) -> (r: Result<AmmCall, ProxyError>)
    ensures
        r is Ok <==> all_writable(ctx.pool_accounts@),
        r matches Ok(c) ==> c@ == (AmmCallShape {
            program: ctx.amm_program.key,
            accounts: ctx.pool_accounts@,
            args: AmmArgs::Withdraw { amount: amount },
        }),
        r matches Err(e) ==> e == ProxyError::AccountShape,
{
    let schema = writable_schema(ctx.pool_accounts.len());
    proof {
        lemma_all_writable_schema(ctx.pool_accounts@, schema@);
    }
    match check_schema(&ctx.pool_accounts, &schema) {
        Ok(()) => Ok(
            AmmCall {
                program: ctx.amm_program.key,
                accounts: copy_accounts(&ctx.pool_accounts),
                args: AmmArgs::Withdraw { amount },
            },
        ),
        Err(e) => Err(e),
    }
}

/// Forwards a fixed-input swap with the caller's input amount and output
/// floor unchanged, after validating that every pool account is
/// writable.
pub fn proxy_swap_base_in(
    ctx: &ProxySwapBaseIn,
    amount_in: u64,
    minimum_amount_out: u64,
) -> (r: Result<AmmCall, ProxyError>)
    ensures
        r is Ok <==> all_writable(ctx.pool_accounts@),
        r matches Ok(c) ==> c@ == (AmmCallShape {
            program: ctx.amm_program.key,
            accounts: ctx.pool_accounts@,
            args: AmmArgs::SwapBaseIn {
                amount_in: amount_in,
                minimum_amount_out: minimum_amount_out,
            },
        }),
        r matches Err(e) ==> e == ProxyError::AccountShape,
{
    let schema = writable_schema(ctx.pool_accounts.len());
    proof {
        lemma_all_writable_schema(ctx.pool_accounts@, schema@);
    }
    match check_schema(&ctx.pool_accounts, &schema) {
        Ok(()) => Ok(
            AmmCall {
                program: ctx.amm_program.key,
                accounts: copy_accounts(&ctx.pool_accounts),
                args: AmmArgs::SwapBaseIn { amount_in, minimum_amount_out },
            },
        ),
        Err(e) => Err(e),
    }
}

/// Forwards a fixed-output swap with the caller's input ceiling and
/// output amount unchanged, after validating that every pool account is
/// writable.
pub fn proxy_swap_base_out(ctx: &ProxySwapBaseOut, max_amount_in: u64, amount_out: u64) -> (r:
    Result<AmmCall, ProxyError>)
    ensures
        r is Ok <==> all_writable(ctx.pool_accounts@),
        r matches Ok(c) ==> c@ == (AmmCallShape {
            program: ctx.amm_program.key,
            accounts: ctx.pool_accounts@,
            args: AmmArgs::SwapBaseOut { max_amount_in: max_amount_in, amount_out: amount_out },
        }),
        r matches Err(e) ==> e == ProxyError::AccountShape,
{
    let schema = writable_schema(ctx.pool_accounts.len());
    proof {
        lemma_all_writable_schema(ctx.pool_accounts@, schema@);
    }
    match check_schema(&ctx.pool_accounts, &schema) {
        Ok(()) => Ok(
            AmmCall {
                program: ctx.amm_program.key,
                accounts: copy_accounts(&ctx.pool_accounts),
                args: AmmArgs::SwapBaseOut { max_amount_in, amount_out },
            },
        ),
        Err(e) => Err(e),
    }
}

} // verus!
