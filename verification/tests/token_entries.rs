use vvs_sol_token_full::account::{AccountMeta, Pubkey};
use vvs_sol_token_full::error::ProxyError;
use vvs_sol_token_full::spl_calls::is_token_program;
use vvs_sol_token_full::token::{
    burn, fee_transfer, mint_to, set_authority, transfer, ProxyBurn, ProxyFeeTransfer,
    ProxyMintTo, ProxySetAuthority, ProxyTransfer,
};
use vvs_sol_token_full::authority::AuthorityType;

fn key(n: u8) -> Pubkey {
    Pubkey { bytes: [n; 32] }
}

fn token_program_key() -> Pubkey {
    Pubkey {
        bytes: spl_token::id().to_bytes(),
    }
}

fn signer(n: u8) -> AccountMeta {
    AccountMeta {
        key: key(n),
        is_signer: true,
        is_writable: false,
    }
}

fn writable(n: u8) -> AccountMeta {
    AccountMeta {
        key: key(n),
        is_signer: false,
        is_writable: true,
    }
}

fn plain(k: Pubkey) -> AccountMeta {
    AccountMeta {
        key: k,
        is_signer: false,
        is_writable: false,
    }
}

fn transfer_ctx() -> ProxyTransfer {
    ProxyTransfer {
        authority: signer(1),
        from: writable(2),
        to: writable(3),
        token_program: plain(token_program_key()),
    }
}

#[test]
fn transfer_builds_exact_call() {
    let ctx = transfer_ctx();
    let d = transfer(ctx, 1000).unwrap();
    assert_eq!(d.program, token_program_key());
    assert_eq!(
        d.accounts,
        vec![
            AccountMeta { key: key(2), is_signer: false, is_writable: true },
            AccountMeta { key: key(3), is_signer: false, is_writable: true },
            AccountMeta { key: key(1), is_signer: true, is_writable: false },
        ]
    );
    assert_eq!(d.data, vec![3, 232, 3, 0, 0, 0, 0, 0, 0]);
}

#[test]
fn transfer_amount_edges() {
    let ctx = transfer_ctx();
    let d0 = transfer(ctx, 0).unwrap();
    assert_eq!(d0.data, vec![3, 0, 0, 0, 0, 0, 0, 0, 0]);
    let dmax = transfer(ctx, u64::MAX).unwrap();
    assert_eq!(dmax.data, vec![3, 255, 255, 255, 255, 255, 255, 255, 255]);
}

#[test]
fn transfer_without_signature_fails() {
    let mut ctx = transfer_ctx();
    ctx.authority.is_signer = false;
    assert_eq!(transfer(ctx, 5), Err(ProxyError::Authorization));
}

#[test]
fn transfer_nonwritable_fails() {
    let mut ctx = transfer_ctx();
    ctx.to.is_writable = false;
    assert_eq!(transfer(ctx, 5), Err(ProxyError::AccountShape));
}

#[test]
fn transfer_wrong_token_program_fails() {
    let mut ctx = transfer_ctx();
    ctx.token_program = plain(key(9));
    assert_eq!(transfer(ctx, 5), Err(ProxyError::AccountShape));
}

#[test]
fn fee_transfer_without_signature_fails() {
    let ctx = ProxyFeeTransfer {
        authority: AccountMeta { key: key(1), is_signer: false, is_writable: false },
        from: writable(2),
        to: writable(3),
        token_program: plain(token_program_key()),
    };
    assert_eq!(fee_transfer(ctx, 5), Err(ProxyError::Authorization));
}

#[test]
fn fee_transfer_matches_transfer_shape() {
    let t = transfer(transfer_ctx(), 444).unwrap();
    let f = fee_transfer(
        ProxyFeeTransfer {
            authority: signer(1),
            from: writable(2),
            to: writable(3),
            token_program: plain(token_program_key()),
        },
        444,
    )
    .unwrap();
    assert_eq!(t, f);
}

fn mint_ctx() -> ProxyMintTo {
    ProxyMintTo {
        authority: signer(1),
        mint: writable(4),
        to: writable(5),
        token_program: plain(token_program_key()),
    }
}

#[test]
fn mint_to_builds_exact_call() {
    let d = mint_to(mint_ctx(), 9).unwrap();
    assert_eq!(d.program, token_program_key());
    assert_eq!(
        d.accounts,
        vec![
            AccountMeta { key: key(4), is_signer: false, is_writable: true },
            AccountMeta { key: key(5), is_signer: false, is_writable: true },
            AccountMeta { key: key(1), is_signer: true, is_writable: false },
        ]
    );
    assert_eq!(d.data, vec![7, 9, 0, 0, 0, 0, 0, 0, 0]);
}

#[test]
fn mint_to_without_signature_fails() {
    let mut ctx = mint_ctx();
    ctx.authority.is_signer = false;
    assert_eq!(mint_to(ctx, 9), Err(ProxyError::Authorization));
}

fn burn_ctx() -> ProxyBurn {
    ProxyBurn {
        authority: signer(1),
        mint: writable(4),
        from: writable(6),
        token_program: plain(token_program_key()),
    }
}

#[test]
fn burn_builds_exact_call() {
    let d = burn(burn_ctx(), 2).unwrap();
    assert_eq!(d.program, token_program_key());
    assert_eq!(
        d.accounts,
        vec![
            AccountMeta { key: key(6), is_signer: false, is_writable: true },
            AccountMeta { key: key(4), is_signer: false, is_writable: true },
            AccountMeta { key: key(1), is_signer: true, is_writable: false },
        ]
    );
    assert_eq!(d.data, vec![8, 2, 0, 0, 0, 0, 0, 0, 0]);
}

#[test]
fn burn_without_signature_fails() {
    let mut ctx = burn_ctx();
    ctx.authority.is_signer = false;
    assert_eq!(burn(ctx, 2), Err(ProxyError::Authorization));
}

#[test]
fn set_authority_without_signature_fails() {
    let ctx = ProxySetAuthority {
        current_authority: AccountMeta { key: key(1), is_signer: false, is_writable: false },
        account_or_mint: writable(2),
        token_program: plain(token_program_key()),
    };
    assert_eq!(
        set_authority(ctx, AuthorityType::AccountOwner, None),
        Err(ProxyError::Authorization)
    );
}

#[test]
fn token_program_key_is_recognized() {
    assert!(is_token_program(&token_program_key()));
    assert!(!is_token_program(&key(9)));
}
