use vvs_sol_token_full::account::{AccountMeta, Pubkey};
use vvs_sol_token_full::authority::{authority_type_index, AuthorityType};
use vvs_sol_token_full::descriptor::CallDescriptor;
use vvs_sol_token_full::token::{set_authority, ProxySetAuthority};

fn key(n: u8) -> Pubkey {
    Pubkey { bytes: [n; 32] }
}

fn token_program_key() -> Pubkey {
    Pubkey {
        bytes: spl_token::id().to_bytes(),
    }
}

fn ctx() -> ProxySetAuthority {
    ProxySetAuthority {
        current_authority: AccountMeta {
            key: key(1),
            is_signer: true,
            is_writable: false,
        },
        account_or_mint: AccountMeta {
            key: key(2),
            is_signer: false,
            is_writable: true,
        },
        token_program: AccountMeta {
            key: token_program_key(),
            is_signer: false,
            is_writable: false,
        },
    }
}

#[test]
fn authority_kinds_map_totally_and_injectively() {
    let kinds = [
        AuthorityType::MintTokens,
        AuthorityType::FreezeAccount,
        AuthorityType::AccountOwner,
        AuthorityType::CloseAccount,
    ];
    let expected: [u8; 4] = [0, 1, 2, 3];
    for (i, k) in kinds.iter().enumerate() {
        assert_eq!(authority_type_index(*k), expected[i]);
    }
}

#[test]
fn set_authority_forwards_each_kind() {
    let kinds = [
        AuthorityType::MintTokens,
        AuthorityType::FreezeAccount,
        AuthorityType::AccountOwner,
        AuthorityType::CloseAccount,
    ];
    for (i, k) in kinds.iter().enumerate() {
        let d = set_authority(ctx(), *k, None).unwrap();
        assert_eq!(d.data[0], 6);
        assert_eq!(d.data[1], i as u8);
    }
}

#[test]
fn set_authority_some_carries_key_bytes() {
    let d = set_authority(ctx(), AuthorityType::AccountOwner, Some(key(7))).unwrap();
    assert_eq!(d.data.len(), 35);
    assert_eq!(d.data[0], 6);
    assert_eq!(d.data[1], 2);
    assert_eq!(d.data[2], 1);
    assert_eq!(&d.data[3..35], &[7u8; 32]);
    assert_eq!(
        d.accounts,
        vec![
            AccountMeta { key: key(2), is_signer: false, is_writable: true },
            AccountMeta { key: key(1), is_signer: true, is_writable: false },
        ]
    );
}

#[test]
fn revocation_is_explicit_not_zero_key() {
    let revoke = set_authority(ctx(), AuthorityType::AccountOwner, None).unwrap();
    assert_eq!(revoke.data, vec![6, 2, 0]);
    let zero = set_authority(ctx(), AuthorityType::AccountOwner, Some(key(0))).unwrap();
    assert_ne!(revoke.data, zero.data);
}

/// A stub external program that keeps the single authority an account
/// has, interpreting forwarded authority-change calls.
fn stub_apply(state: &mut Option<[u8; 32]>, d: &CallDescriptor) {
    assert_eq!(d.data[0], 6);
    match d.data[2] {
        0 => {
            assert_eq!(d.data.len(), 3);
            *state = None;
        }
        1 => {
            assert_eq!(d.data.len(), 35);
            let mut k = [0u8; 32];
            k.copy_from_slice(&d.data[3..35]);
            *state = Some(k);
        }
        _ => panic!("malformed option tag"),
    }
}

#[test]
fn set_then_revoke_roundtrip() {
    let mut stub_state: Option<[u8; 32]> = None;
    let set = set_authority(ctx(), AuthorityType::AccountOwner, Some(key(7))).unwrap();
    stub_apply(&mut stub_state, &set);
    assert_eq!(stub_state, Some([7u8; 32]));
    let revoke = set_authority(ctx(), AuthorityType::AccountOwner, None).unwrap();
    stub_apply(&mut stub_state, &revoke);
    assert_eq!(stub_state, None);
}
