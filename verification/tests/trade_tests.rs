use curve_launchpad::bonding_curve::BondingCurve;
use curve_launchpad::buy::buy;
use curve_launchpad::errors::CurveLaunchpadError;
use curve_launchpad::fee_account::FeeAccount;
use curve_launchpad::global::Global;
use curve_launchpad::keys::Pubkey;
use curve_launchpad::sell::sell;
use curve_launchpad::user_invite_stats::UserInviteStats;

fn test_global(protocol_bp: u64, creator_bp: u64, invite_bp: u64) -> Global {
    Global {
        authority: Pubkey { id: 1 },
        initialized: true,
        fee_recipient: Pubkey { id: 2 },
        initial_virtual_token_reserves: 1_073_000_000_000_000,
        initial_virtual_sol_reserves: 30_000_000_000,
        initial_real_token_reserves: 793_100_000_000_000,
        initial_real_sol_reserves: 0,
        initial_token_supply: 1_000_000_000_000_000,
        fee_basis_points: protocol_bp,
        withdraw_authority: Pubkey { id: 1 },
        creator_fee_basis_points: creator_bp,
        protocol_token_alloc_points: 50,
        protocol_token_alloc_recipient: Pubkey { id: 2 },
        invite_fee_basis_points: invite_bp,
    }
}

fn test_curve(
    virtual_sol: u64,
    virtual_token: u64,
    real_sol: u64,
    real_token: u64,
) -> BondingCurve {
    BondingCurve {
        virtual_sol_reserves: virtual_sol,
        virtual_token_reserves: virtual_token,
        real_sol_reserves: real_sol,
        real_token_reserves: real_token,
        token_total_supply: 1_000_000_000_000_000,
        complete: false,
        pool_sol_amount: 0,
        pool_token_amount: 0,
        creator: Pubkey { id: 3 },
        mint: Pubkey { id: 4 },
        create_time: 0,
        update_time: 0,
    }
}

fn test_node(init: bool) -> UserInviteStats {
    UserInviteStats {
        key: Pubkey { id: 0 },
        parent: Pubkey { id: 0 },
        child_count: 0,
        profit_from_child: 0,
        profit_to_parent: 0,
        profit_claimable: 0,
        profit_claim_accumulated: 0,
        is_init: init,
    }
}

struct Ledgers {
    fee_account: FeeAccount,
    user: UserInviteStats,
    parent: UserInviteStats,
    protocol: UserInviteStats,
    creator: UserInviteStats,
}

fn fresh_ledgers() -> Ledgers {
    Ledgers {
        fee_account: FeeAccount { received: 0, sent: 0 },
        user: test_node(true),
        parent: test_node(true),
        protocol: test_node(true),
        creator: test_node(true),
    }
}

#[allow(clippy::too_many_arguments)]
fn run_buy(
    global: &Global,
    curve: &mut BondingCurve,
    ledgers: &mut Ledgers,
    curve_token_balance: u64,
    user_sol_balance: u64,
    fee_account_balance: u64,
    token_amount: u64,
    max_sol_cost: u64,
) -> Result<curve_launchpad::buy::BuySettlement, CurveLaunchpadError> {
    buy(
        global,
        curve,
        &mut ledgers.fee_account,
        &mut ledgers.user,
        &mut ledgers.parent,
        &mut ledgers.protocol,
        &mut ledgers.creator,
        Pubkey { id: 9 },
        curve_token_balance,
        user_sol_balance,
        fee_account_balance,
        Pubkey { id: 5 },
        token_amount,
        max_sol_cost,
        String::from("corr"),
        7,
    )
}

#[allow(clippy::too_many_arguments)]
fn run_sell(
    global: &Global,
    curve: &mut BondingCurve,
    ledgers: &mut Ledgers,
    user_token_balance: u64,
    curve_token_balance: u64,
    fee_account_balance: u64,
    token_amount: u64,
    min_sol_output: u64,
) -> Result<curve_launchpad::sell::SellSettlement, CurveLaunchpadError> {
    sell(
        global,
        curve,
        &mut ledgers.fee_account,
        &mut ledgers.user,
        &mut ledgers.parent,
        &mut ledgers.protocol,
        &mut ledgers.creator,
        user_token_balance,
        curve_token_balance,
        fee_account_balance,
        Pubkey { id: 5 },
        token_amount,
        min_sol_output,
        String::from("corr"),
        7,
    )
}

#[test]
fn buy_example_settles_at_constant_product_price() {
    let global = test_global(50, 35, 15);
    let mut curve = test_curve(30_000_000_000, 1_073_000_000_000_000, 0, 793_100_000_000_000);
    let mut ledgers = fresh_ledgers();
    let settlement = run_buy(
        &global,
        &mut curve,
        &mut ledgers,
        793_100_000_000_000,
        1_000_000_000_000,
        0,
        1_000_000_000,
        28_239,
    )
    .unwrap();
    assert_eq!(settlement.sol_amount, 27_960);
    assert_eq!(settlement.fee, 279);
    assert_eq!(settlement.token_amount, 1_000_000_000);
    assert_eq!(curve.virtual_sol_reserves, 30_000_027_960);
    assert_eq!(curve.virtual_token_reserves, 1_072_999_000_000_000);
    assert_eq!(curve.real_sol_reserves, 27_960);
    assert_eq!(curve.real_token_reserves, 793_099_000_000_000);
    assert_eq!(curve.update_time, 7);
    assert_eq!(ledgers.fee_account.received, 279);
    assert_eq!(ledgers.protocol.profit_claimable, 139);
    assert_eq!(ledgers.creator.profit_claimable, 97);
    assert_eq!(ledgers.parent.profit_claimable, 41);
    assert_eq!(ledgers.parent.profit_from_child, 41);
    assert_eq!(ledgers.user.profit_to_parent, 41);
    let event = &settlement.trade_event;
    assert!(event.is_buy);
    assert_eq!(event.sol_amount, 27_960);
    assert_eq!(event.token_amount, 1_000_000_000);
    assert_eq!(event.virtual_sol_reserves, 30_000_027_960);
    assert_eq!(event.hash, "corr");
    assert!(settlement.complete_event.is_none());
}

#[test]
fn buy_one_unit_below_total_cost_is_rejected_unchanged() {
    let global = test_global(50, 35, 15);
    let mut curve = test_curve(30_000_000_000, 1_073_000_000_000_000, 0, 793_100_000_000_000);
    let before = curve;
    let mut ledgers = fresh_ledgers();
    let result = run_buy(
        &global,
        &mut curve,
        &mut ledgers,
        793_100_000_000_000,
        1_000_000_000_000,
        0,
        1_000_000_000,
        28_238,
    );
    assert!(matches!(result, Err(CurveLaunchpadError::MaxSOLCostExceeded)));
    assert_eq!(curve, before);
    assert_eq!(ledgers.fee_account, FeeAccount { received: 0, sent: 0 });
    assert_eq!(ledgers.protocol.profit_claimable, 0);
    assert_eq!(ledgers.user.profit_to_parent, 0);
}

#[test]
fn buy_precondition_errors() {
    let global = test_global(50, 35, 15);

    let mut complete_curve = test_curve(1_000_000, 2_000, 0, 1_000);
    complete_curve.complete = true;
    let mut ledgers = fresh_ledgers();
    let result = run_buy(&global, &mut complete_curve, &mut ledgers, 1_000, 10, 0, 1, 10);
    assert!(matches!(result, Err(CurveLaunchpadError::BondingCurveComplete)));

    let mut curve = test_curve(1_000_000, 2_000, 0, 1_000);
    let mut ledgers = fresh_ledgers();
    ledgers.user.is_init = false;
    let result = run_buy(&global, &mut curve, &mut ledgers, 1_000, 10, 0, 1, 10);
    assert!(matches!(result, Err(CurveLaunchpadError::InviteAccountError)));

    let mut ledgers = fresh_ledgers();
    let result = run_buy(&global, &mut curve, &mut ledgers, 1_000, 10, 0, 1_001, 10);
    assert!(matches!(result, Err(CurveLaunchpadError::InsufficientTokens)));

    let result = run_buy(&global, &mut curve, &mut ledgers, 1_000, 10, 0, 0, 10);
    assert!(matches!(result, Err(CurveLaunchpadError::MinBuy)));
    assert_eq!(curve, test_curve(1_000_000, 2_000, 0, 1_000));
}

#[test]
fn buy_insufficient_sol_is_rejected() {
    let global = test_global(50, 35, 15);
    let mut curve = test_curve(30_000_000_000, 1_073_000_000_000_000, 0, 793_100_000_000_000);
    let mut ledgers = fresh_ledgers();
    let result = run_buy(
        &global,
        &mut curve,
        &mut ledgers,
        793_100_000_000_000,
        28_238,
        0,
        1_000_000_000,
        28_239,
    );
    assert!(matches!(result, Err(CurveLaunchpadError::InsufficientSOL)));
}

#[test]
fn buy_against_insolvent_escrow_is_rejected_unchanged() {
    let global = test_global(50, 35, 15);
    let mut curve = test_curve(30_000_000_000, 1_073_000_000_000_000, 0, 793_100_000_000_000);
    let before = curve;
    let mut ledgers = fresh_ledgers();
    ledgers.fee_account = FeeAccount { received: 1_000, sent: 0 };
    let result = run_buy(
        &global,
        &mut curve,
        &mut ledgers,
        793_100_000_000_000,
        1_000_000_000_000,
        0,
        1_000_000_000,
        28_239,
    );
    assert!(matches!(result, Err(CurveLaunchpadError::FeeAccountStatusAbnormal)));
    assert_eq!(curve, before);
    assert_eq!(ledgers.fee_account, FeeAccount { received: 1_000, sent: 0 });
}

#[test]
fn buy_clamps_to_curve_holding_balance() {
    let global = test_global(50, 35, 15);
    let mut curve = test_curve(1_000_000, 2_000, 0, 1_000);
    let mut ledgers = fresh_ledgers();
    let settlement = run_buy(
        &global,
        &mut curve,
        &mut ledgers,
        600,
        100_000_000,
        0,
        1_000,
        100_000_000,
    )
    .unwrap();
    assert_eq!(settlement.token_amount, 600);
    // ceil(1_000_000 * 600 / (2_000 - 600)) == ceil(428_571.42) == 428_572
    assert_eq!(settlement.sol_amount, 428_572);
    assert_eq!(curve.real_token_reserves, 400);
}

#[test]
fn buy_that_drains_curve_emits_one_exhaustion_record() {
    let global = test_global(50, 35, 15);
    let mut curve = test_curve(1_000_000, 2_000, 0, 1_000);
    let mut ledgers = fresh_ledgers();
    let settlement = run_buy(
        &global,
        &mut curve,
        &mut ledgers,
        1_000,
        100_000_000,
        0,
        1_000,
        100_000_000,
    )
    .unwrap();
    // ceil(1_000_000 * 1_000 / 1_000) == 1_000_000
    assert_eq!(settlement.sol_amount, 1_000_000);
    assert_eq!(curve.real_token_reserves, 0);
    let complete = settlement.complete_event.expect("exhaustion record expected");
    assert_eq!(complete.user, Pubkey { id: 5 });
    assert_eq!(complete.mint, Pubkey { id: 4 });
    assert_eq!(complete.bonding_curve, Pubkey { id: 9 });

    // a subsequent buy is rejected at the precondition stage, with no record
    let result = run_buy(&global, &mut curve, &mut ledgers, 1_000, 100_000_000, 10_000, 1, 100);
    assert!(matches!(result, Err(CurveLaunchpadError::InsufficientTokens)));
    assert_eq!(curve.real_token_reserves, 0);
}

#[test]
fn sell_settles_with_fee_subtracted_from_proceeds() {
    let global = test_global(50, 35, 15);
    let mut curve = test_curve(2_000_000, 3_000, 1_000_000, 2_000);
    let mut ledgers = fresh_ledgers();
    let settlement = run_sell(&global, &mut curve, &mut ledgers, 1_000, 2_000, 0, 1_000, 495_000)
        .unwrap();
    // floor(2_000_000 * 1_000 / (3_000 + 1_000)) == 500_000
    assert_eq!(settlement.sol_amount, 500_000);
    assert_eq!(settlement.fee, 5_000);
    assert_eq!(settlement.token_amount, 1_000);
    assert_eq!(curve.virtual_sol_reserves, 1_500_000);
    assert_eq!(curve.virtual_token_reserves, 4_000);
    assert_eq!(curve.real_sol_reserves, 500_000);
    assert_eq!(curve.real_token_reserves, 3_000);
    assert_eq!(curve.update_time, 0);
    assert_eq!(ledgers.fee_account.received, 5_000);
    assert_eq!(ledgers.protocol.profit_claimable, 2_500);
    assert_eq!(ledgers.creator.profit_claimable, 1_750);
    assert_eq!(ledgers.parent.profit_claimable, 750);
    assert_eq!(ledgers.user.profit_to_parent, 750);
    assert!(!settlement.trade_event.is_buy);
}

#[test]
fn sell_below_minimum_proceeds_is_rejected_unchanged() {
    let global = test_global(50, 35, 15);
    let mut curve = test_curve(2_000_000, 3_000, 1_000_000, 2_000);
    let before = curve;
    let mut ledgers = fresh_ledgers();
    let result = run_sell(&global, &mut curve, &mut ledgers, 1_000, 2_000, 0, 1_000, 495_001);
    assert!(matches!(result, Err(CurveLaunchpadError::MinSOLOutputExceeded)));
    assert_eq!(curve, before);
    assert_eq!(ledgers.fee_account, FeeAccount { received: 0, sent: 0 });
}

#[test]
fn sell_precondition_errors() {
    let global = test_global(50, 35, 15);
    let mut curve = test_curve(2_000_000, 3_000, 1_000_000, 2_000);

    let mut ledgers = fresh_ledgers();
    ledgers.user.is_init = false;
    let result = run_sell(&global, &mut curve, &mut ledgers, 1_000, 2_000, 0, 1, 0);
    assert!(matches!(result, Err(CurveLaunchpadError::InviteAccountError)));

    let mut ledgers = fresh_ledgers();
    let result = run_sell(&global, &mut curve, &mut ledgers, 10, 2_000, 0, 11, 0);
    assert!(matches!(result, Err(CurveLaunchpadError::InsufficientTokens)));

    let result = run_sell(&global, &mut curve, &mut ledgers, 1_000, 500, 0, 900, 0);
    assert!(matches!(result, Err(CurveLaunchpadError::InsufficientTokens)));

    let result = run_sell(&global, &mut curve, &mut ledgers, 1_000, 2_000, 0, 0, 0);
    assert!(matches!(result, Err(CurveLaunchpadError::MinSell)));

    curve.complete = true;
    let result = run_sell(&global, &mut curve, &mut ledgers, 1_000, 2_000, 0, 1, 0);
    assert!(matches!(result, Err(CurveLaunchpadError::BondingCurveComplete)));
}

#[test]
fn zero_fee_round_trip_through_trades() {
    let global = test_global(0, 0, 0);
    let mut curve = test_curve(30_000_000_000, 1_073_000_000_000_000, 0, 793_100_000_000_000);
    let mut ledgers = fresh_ledgers();
    let bought = run_buy(
        &global,
        &mut curve,
        &mut ledgers,
        793_100_000_000_000,
        1_000_000_000_000,
        0,
        1_000_000_000,
        1_000_000_000_000,
    )
    .unwrap();
    assert_eq!(bought.fee, 0);
    let sold = run_sell(
        &global,
        &mut curve,
        &mut ledgers,
        1_000_000_000,
        793_099_000_000_000,
        0,
        1_000_000_000,
        0,
    )
    .unwrap();
    assert_eq!(sold.fee, 0);
    assert!(sold.sol_amount <= bought.sol_amount);
    assert!(bought.sol_amount - sold.sol_amount <= 1);
    assert_eq!(curve.virtual_token_reserves, 1_073_000_000_000_000);
    assert_eq!(curve.real_token_reserves, 793_100_000_000_000);
    assert!(curve.virtual_sol_reserves >= 30_000_000_000);
    assert!(curve.virtual_sol_reserves <= 30_000_000_001);
    assert_eq!(ledgers.fee_account, FeeAccount { received: 0, sent: 0 });
}
