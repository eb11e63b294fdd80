use curve_launchpad::bonding_curve::BondingCurve;
use curve_launchpad::create::create;
use curve_launchpad::errors::CurveLaunchpadError;
use curve_launchpad::global::{Global, DEFAULT_TOKEN_SUPPLY};
use curve_launchpad::initialize::initialize;
use curve_launchpad::keys::Pubkey;
use curve_launchpad::set_params::{set_amm_params, set_fee_params, set_protocol_fee_address};

fn blank_global() -> Global {
    Global {
        authority: Pubkey { id: 0 },
        initialized: false,
        fee_recipient: Pubkey { id: 0 },
        initial_virtual_token_reserves: 0,
        initial_virtual_sol_reserves: 0,
        initial_real_token_reserves: 0,
        initial_real_sol_reserves: 0,
        initial_token_supply: 0,
        fee_basis_points: 0,
        withdraw_authority: Pubkey { id: 0 },
        creator_fee_basis_points: 0,
        protocol_token_alloc_points: 0,
        protocol_token_alloc_recipient: Pubkey { id: 0 },
        invite_fee_basis_points: 0,
    }
}

fn blank_curve() -> BondingCurve {
    BondingCurve {
        virtual_sol_reserves: 0,
        virtual_token_reserves: 0,
        real_sol_reserves: 0,
        real_token_reserves: 0,
        token_total_supply: 0,
        complete: false,
        pool_sol_amount: 0,
        pool_token_amount: 0,
        creator: Pubkey { id: 0 },
        mint: Pubkey { id: 0 },
        create_time: 0,
        update_time: 0,
    }
}

#[test]
fn initialize_sets_defaults_once() {
    let mut global = blank_global();
    initialize(&mut global, Pubkey { id: 42 }).unwrap();
    assert!(global.initialized);
    assert_eq!(global.authority, Pubkey { id: 42 });
    assert_eq!(global.withdraw_authority, Pubkey { id: 42 });
    assert_eq!(global.fee_recipient, Pubkey { id: 42 });
    assert_eq!(global.protocol_token_alloc_recipient, Pubkey { id: 42 });
    assert_eq!(global.initial_token_supply, DEFAULT_TOKEN_SUPPLY);
    assert_eq!(global.initial_virtual_token_reserves, 1_075_000_000_000_000);
    assert_eq!(global.fee_basis_points, 50);
    assert_eq!(global.creator_fee_basis_points, 35);
    assert_eq!(global.protocol_token_alloc_points, 50);
    assert_eq!(global.invite_fee_basis_points, 15);

    let again = initialize(&mut global, Pubkey { id: 43 });
    assert!(matches!(again, Err(CurveLaunchpadError::AlreadyInitialized)));
    assert_eq!(global.authority, Pubkey { id: 42 });
}

#[test]
fn set_amm_params_requires_initialization() {
    let mut global = blank_global();
    let result = set_amm_params(&mut global, 1, 2, 3, 4);
    assert!(matches!(result, Err(CurveLaunchpadError::NotInitialized)));

    initialize(&mut global, Pubkey { id: 42 }).unwrap();
    set_amm_params(&mut global, 1_075, 30, 793, 1_000).unwrap();
    assert_eq!(global.initial_virtual_token_reserves, 1_075);
    assert_eq!(global.initial_virtual_sol_reserves, 30);
    assert_eq!(global.initial_real_token_reserves, 793);
    assert_eq!(global.initial_token_supply, 1_000);
}

#[test]
fn set_fee_params_updates_protocol_and_referral_fees_only() {
    let mut global = blank_global();
    let result = set_fee_params(&mut global, Pubkey { id: 9 }, 60, 40, Pubkey { id: 10 }, 20);
    assert!(matches!(result, Err(CurveLaunchpadError::NotInitialized)));

    initialize(&mut global, Pubkey { id: 42 }).unwrap();
    set_fee_params(&mut global, Pubkey { id: 9 }, 60, 40, Pubkey { id: 10 }, 20).unwrap();
    assert_eq!(global.fee_recipient, Pubkey { id: 9 });
    assert_eq!(global.fee_basis_points, 60);
    assert_eq!(global.invite_fee_basis_points, 20);
    // the creator fee and withdraw authority are accepted but left alone
    assert_eq!(global.creator_fee_basis_points, 35);
    assert_eq!(global.withdraw_authority, Pubkey { id: 42 });
}

#[test]
fn set_protocol_fee_address_replaces_recipients() {
    let mut global = blank_global();
    set_protocol_fee_address(&mut global, Pubkey { id: 11 }, Pubkey { id: 12 }).unwrap();
    assert_eq!(global.protocol_token_alloc_recipient, Pubkey { id: 11 });
    assert_eq!(global.fee_recipient, Pubkey { id: 12 });
}

#[test]
fn create_requires_initialization() {
    let global = blank_global();
    let mut curve = blank_curve();
    let result = create(
        &global,
        &mut curve,
        Pubkey { id: 3 },
        Pubkey { id: 4 },
        &b"SoMeAddReSsMeMe".to_vec(),
        99,
    );
    assert!(matches!(result, Err(CurveLaunchpadError::NotInitialized)));
}

#[test]
fn create_rejects_mint_without_suffix() {
    let mut global = blank_global();
    initialize(&mut global, Pubkey { id: 42 }).unwrap();
    let mut curve = blank_curve();
    let result = create(
        &global,
        &mut curve,
        Pubkey { id: 3 },
        Pubkey { id: 4 },
        &b"SoMeAddReSs".to_vec(),
        99,
    );
    assert!(matches!(result, Err(CurveLaunchpadError::InvalidMintAddress)));
    let result = create(&global, &mut curve, Pubkey { id: 3 }, Pubkey { id: 4 }, &b"eme".to_vec(), 99);
    assert!(matches!(result, Err(CurveLaunchpadError::InvalidMintAddress)));
    assert_eq!(curve, blank_curve());
}

#[test]
fn create_seeds_curve_from_configuration() {
    let mut global = blank_global();
    initialize(&mut global, Pubkey { id: 42 }).unwrap();
    set_amm_params(&mut global, 1_073_000, 30_000, 793_100, 1_000_000).unwrap();
    global.initial_real_sol_reserves = 5;
    let mut curve = blank_curve();
    create(
        &global,
        &mut curve,
        Pubkey { id: 3 },
        Pubkey { id: 4 },
        &b"SoMeAddReSsMEME".to_vec(),
        99,
    )
    .unwrap();
    assert_eq!(curve.virtual_token_reserves, 1_073_000);
    assert_eq!(curve.virtual_sol_reserves, 30_000);
    assert_eq!(curve.real_token_reserves, 793_100);
    assert_eq!(curve.real_sol_reserves, 5);
    assert_eq!(curve.token_total_supply, 1_000_000);
    assert!(!curve.complete);
    assert_eq!(curve.creator, Pubkey { id: 3 });
    assert_eq!(curve.mint, Pubkey { id: 4 });
    assert_eq!(curve.create_time, 99);
    assert_eq!(curve.update_time, 0);
}
