//! Administration of the vault.

use subscription_vault::accounting::{add_total_accounted, get_total_accounted, sub_total_accounted};
use subscription_vault::admin::{
    add_accepted_token, batch_charge_result, check_recovery, do_get_admin, do_init,
    do_recover_stranded_funds, do_rotate_admin, do_set_grace_period, do_set_min_topup,
    get_grace_period, get_min_topup, get_protocol_fee_bps, get_token, get_token_decimals,
    get_treasury, is_token_accepted, list_accepted_tokens, remove_accepted_token, require_admin,
    require_admin_auth, require_stored_admin_auth, set_protocol_fee,
};
use subscription_vault::events::{Action, Event, Subject, Transfer};
use subscription_vault::types::{
    AcceptedToken, Address, BatchChargeResult, ChargeExecutionResult, Error, RecoveryReason,
};
use subscription_vault::vault::Vault;

fn account(key: u128) -> Address {
    Address { is_contract: false, key_high: 0, key_low: key }
}

fn contract(key: u128) -> Address {
    Address { is_contract: true, key_high: 0, key_low: key }
}

const ADMIN: u128 = 1;
const VAULT: u128 = 100;
const TOKEN: u128 = 200;

fn vault() -> Vault {
    let mut vault = Vault::new(contract(VAULT), 50);
    do_init(&mut vault, contract(TOKEN), 7, account(ADMIN), 1_000_000, 600).unwrap();
    vault.actions.clear();
    vault
}

#[test]
fn a_new_vault_has_no_settings() {
    let v = Vault::new(contract(VAULT), 0);
    assert_eq!(require_admin(&v), Err(Error::NotInitialized));
    assert_eq!(do_get_admin(&v), Err(Error::NotInitialized));
    assert_eq!(get_min_topup(&v), Err(Error::NotInitialized));
    assert_eq!(get_token(&v), Err(Error::NotFound));
    assert_eq!(get_token_decimals(&v, &contract(TOKEN)), Err(Error::NotFound));
    assert_eq!(get_protocol_fee_bps(&v), 0);
    assert_eq!(get_treasury(&v), None);
    assert!(!is_token_accepted(&v, &contract(TOKEN)));
    assert_eq!(list_accepted_tokens(&v).len(), 0);
}

#[test]
fn setting_up_stores_every_setting() {
    let v = vault();
    assert_eq!(do_get_admin(&v), Ok(account(ADMIN)));
    assert_eq!(get_min_topup(&v), Ok(1_000_000));
    assert_eq!(get_grace_period(&v), Ok(600));
    assert_eq!(get_token(&v), Ok(contract(TOKEN)));
    assert_eq!(get_token_decimals(&v, &contract(TOKEN)), Ok(7));
    assert_eq!(v.schema_version, Some(1));
    assert_eq!(
        list_accepted_tokens(&v),
        vec![AcceptedToken { token: contract(TOKEN), decimals: 7 }]
    );
}

#[test]
fn a_vault_is_set_up_only_once() {
    let mut v = vault();
    let again = do_init(&mut v, contract(201), 6, account(2), 5, 0);
    assert_eq!(again, Err(Error::AlreadyInitialized));
    assert_eq!(get_token(&v), Ok(contract(TOKEN)));
    assert_eq!(v.actions.len(), 0);
}

#[test]
fn a_negative_smallest_deposit_is_refused() {
    let mut v = Vault::new(contract(VAULT), 0);
    let result = do_init(&mut v, contract(TOKEN), 7, account(ADMIN), -1, 0);
    assert_eq!(result, Err(Error::InvalidAmount));
    assert_eq!(get_token(&v), Err(Error::NotFound));
}

#[test]
fn only_the_admin_changes_the_smallest_deposit() {
    let mut v = vault();
    assert_eq!(do_set_min_topup(&mut v, account(9), 7), Err(Error::Unauthorized));
    assert_eq!(get_min_topup(&v), Ok(1_000_000));
    assert_eq!(v.actions, vec![Action::RequireAuth(account(9))]);
    v.actions.clear();
    assert_eq!(do_set_min_topup(&mut v, account(ADMIN), 7), Ok(()));
    assert_eq!(get_min_topup(&v), Ok(7));
    assert_eq!(
        v.actions,
        vec![Action::RequireAuth(account(ADMIN)), Action::Publish(Event::MinTopupUpdated(7))]
    );
    assert_eq!(Event::MinTopupUpdated(7).name(), "min_topup_updated");
}

#[test]
fn the_grace_period_is_read_back() {
    let mut v = vault();
    assert_eq!(do_set_grace_period(&mut v, account(9), 7), Err(Error::Unauthorized));
    assert_eq!(do_set_grace_period(&mut v, account(ADMIN), 7), Ok(()));
    assert_eq!(get_grace_period(&v), Ok(7));
    assert_eq!(v.events().len(), 0);
}

#[test]
fn admin_checks() {
    let mut v = vault();
    assert_eq!(require_admin_auth(&mut v, &account(ADMIN)), Ok(()));
    assert_eq!(require_admin_auth(&mut v, &account(2)), Err(Error::Unauthorized));
    assert_eq!(require_stored_admin_auth(&mut v), Ok(account(ADMIN)));
    assert_eq!(
        v.actions,
        vec![
            Action::RequireAuth(account(ADMIN)),
            Action::RequireAuth(account(2)),
            Action::RequireAuth(account(ADMIN)),
        ]
    );
    let mut empty = Vault::new(contract(VAULT), 0);
    assert_eq!(require_admin_auth(&mut empty, &account(ADMIN)), Err(Error::NotInitialized));
    assert_eq!(require_stored_admin_auth(&mut empty), Err(Error::NotInitialized));
}

#[test]
fn tokens_are_accepted_and_removed() {
    let mut v = vault();
    let admin = account(ADMIN);
    assert_eq!(add_accepted_token(&mut v, account(9), contract(201), 6), Err(Error::Unauthorized));
    assert_eq!(add_accepted_token(&mut v, admin, contract(201), 6), Ok(()));
    assert_eq!(add_accepted_token(&mut v, admin, contract(202), 2), Ok(()));
    // Accepting a token again changes its decimals and keeps its place.
    assert_eq!(add_accepted_token(&mut v, admin, contract(201), 9), Ok(()));
    assert_eq!(
        list_accepted_tokens(&v),
        vec![
            AcceptedToken { token: contract(TOKEN), decimals: 7 },
            AcceptedToken { token: contract(201), decimals: 9 },
            AcceptedToken { token: contract(202), decimals: 2 },
        ]
    );
    assert_eq!(
        remove_accepted_token(&mut v, account(9), contract(201)),
        Err(Error::Unauthorized)
    );
    assert_eq!(remove_accepted_token(&mut v, admin, contract(201)), Ok(()));
    assert!(!is_token_accepted(&v, &contract(201)));
    assert_eq!(get_token_decimals(&v, &contract(201)), Err(Error::NotFound));
    assert_eq!(
        list_accepted_tokens(&v),
        vec![
            AcceptedToken { token: contract(TOKEN), decimals: 7 },
            AcceptedToken { token: contract(202), decimals: 2 },
        ]
    );
}

#[test]
fn the_default_token_cannot_be_removed() {
    let mut v = vault();
    let result = remove_accepted_token(&mut v, account(ADMIN), contract(TOKEN));
    assert_eq!(result, Err(Error::InvalidInput));
    assert!(is_token_accepted(&v, &contract(TOKEN)));
}

#[test]
fn administration_is_handed_over() {
    let mut v = vault();
    let admin = account(ADMIN);
    assert_eq!(do_rotate_admin(&mut v, account(9), account(2)), Err(Error::Unauthorized));
    assert_eq!(do_rotate_admin(&mut v, admin, admin), Err(Error::SelfRotation));
    assert_eq!(do_rotate_admin(&mut v, admin, contract(VAULT)), Err(Error::InvalidNewAdmin));
    assert_eq!(v.events().len(), 0);
    assert_eq!(do_rotate_admin(&mut v, admin, account(2)), Ok(()));
    assert_eq!(do_get_admin(&v), Ok(account(2)));
    match v.events().last() {
        Some(Event::AdminRotated(event)) => {
            assert_eq!(event.old_admin, admin);
            assert_eq!(event.new_admin, account(2));
            assert_eq!(event.timestamp, 50);
        }
        _ => panic!("another event"),
    }
    // The old admin has no say any more.
    assert_eq!(do_set_min_topup(&mut v, admin, 1), Err(Error::Unauthorized));
    assert_eq!(do_set_min_topup(&mut v, account(2), 1), Ok(()));
}

fn recover(
    v: &mut Vault,
    admin: Address,
    amount: i128,
    id: &str,
    balance: i128,
) -> Result<(), Error> {
    do_recover_stranded_funds(
        v,
        admin,
        contract(TOKEN),
        account(8),
        amount,
        id.to_string(),
        RecoveryReason::UserOverpayment,
        balance,
    )
}

#[test]
fn a_recovery_takes_only_what_belongs_to_no_one() {
    let mut v = vault();
    let admin = account(ADMIN);
    add_total_accounted(&mut v, &contract(TOKEN), 70).unwrap();
    assert_eq!(recover(&mut v, account(9), 1, "r1", 100), Err(Error::Unauthorized));
    assert_eq!(recover(&mut v, admin, 0, "r1", 100), Err(Error::InvalidRecoveryAmount));
    assert_eq!(recover(&mut v, admin, -1, "r1", 100), Err(Error::InvalidRecoveryAmount));
    assert_eq!(recover(&mut v, admin, 31, "r1", 100), Err(Error::InsufficientBalance));
    assert_eq!(v.events().len(), 0);
    let check = |v: &Vault, who, amount| check_recovery(v, &who, amount, &"r1".to_string());
    assert_eq!(check(&v, account(9), 1), Err(Error::Unauthorized));
    assert_eq!(check(&v, admin, 0), Err(Error::InvalidRecoveryAmount));
    assert_eq!(check(&v, admin, 31), Ok(()));
    v.actions.clear();
    assert_eq!(recover(&mut v, admin, 30, "r1", 100), Ok(()));
    assert_eq!(check(&v, admin, 1), Err(Error::Replay));
    assert_eq!(get_total_accounted(&v, &contract(TOKEN)), 70);
    assert_eq!(v.actions.len(), 3);
    assert_eq!(v.actions[0], Action::RequireAuth(admin));
    match v.actions[1] {
        Action::Publish(event) => {
            assert_eq!(event.name(), "recovery");
            assert_eq!(event.subject(), Subject::Account(admin));
        }
        _ => panic!("another action"),
    }
    assert_eq!(
        v.actions[2],
        Action::Transfer(Transfer {
            token: contract(TOKEN),
            from: contract(VAULT),
            to: account(8),
            amount: 30,
        })
    );
}

#[test]
fn a_recovery_cannot_be_replayed() {
    let mut v = vault();
    let admin = account(ADMIN);
    assert_eq!(recover(&mut v, admin, 30, "r1", 100), Ok(()));
    assert_eq!(recover(&mut v, admin, 30, "r1", 70), Err(Error::Replay));
    assert_eq!(recover(&mut v, admin, 30, "r2", 70), Ok(()));
    // Nor later, after other operations and by another admin.
    assert_eq!(do_set_min_topup(&mut v, admin, 5), Ok(()));
    assert_eq!(do_rotate_admin(&mut v, admin, account(2)), Ok(()));
    v.timestamp += 1_000_000;
    assert_eq!(recover(&mut v, account(2), 1, "r1", 70), Err(Error::Replay));
    assert_eq!(recover(&mut v, account(2), 1, "r2", 70), Err(Error::Replay));
    assert_eq!(recover(&mut v, account(2), 0, "r1", 70), Err(Error::InvalidRecoveryAmount));
    assert_eq!(recover(&mut v, admin, 1, "r1", 70), Err(Error::Unauthorized));
    assert_eq!(recover(&mut v, account(2), 1, "r3", 70), Ok(()));
}

#[test]
fn an_operation_tells_whose_authorization_it_demands() {
    let mut v = vault();
    let admin = account(ADMIN);
    v.actions.clear();
    assert_eq!(v.demands(), vec![]);
    assert_eq!(recover(&mut v, admin, 30, "r1", 100), Ok(()));
    assert_eq!(v.actions.len(), 3);
    assert_eq!(v.demands(), vec![admin]);
    assert_eq!(recover(&mut v, account(9), 1, "r2", 70), Err(Error::Unauthorized));
    assert_eq!(do_set_min_topup(&mut v, admin, 5), Ok(()));
    assert_eq!(v.demands(), vec![admin, account(9), admin]);
}

#[test]
fn a_recovery_reports_an_impossible_balance() {
    let mut v = vault();
    add_total_accounted(&mut v, &contract(TOKEN), 1).unwrap();
    let result = recover(&mut v, account(ADMIN), 1, "r1", i128::MIN);
    assert_eq!(result, Err(Error::Underflow));
}

#[test]
fn the_protocol_fee_is_at_most_everything() {
    let mut v = vault();
    let admin = account(ADMIN);
    assert_eq!(set_protocol_fee(&mut v, account(9), account(5), 10), Err(Error::Forbidden));
    assert_eq!(set_protocol_fee(&mut v, admin, account(5), 10_001), Err(Error::InvalidInput));
    assert_eq!(get_protocol_fee_bps(&v), 0);
    assert_eq!(set_protocol_fee(&mut v, admin, account(5), 10_000), Ok(()));
    assert_eq!(get_protocol_fee_bps(&v), 10_000);
    assert_eq!(get_treasury(&v), Some(account(5)));
    match v.events().last() {
        Some(Event::ProtocolFeeConfigured(event)) => {
            assert_eq!(event.treasury, account(5));
            assert_eq!(event.fee_bps, 10_000);
        }
        _ => panic!("another event"),
    }
    let mut empty = Vault::new(contract(VAULT), 0);
    assert_eq!(set_protocol_fee(&mut empty, admin, account(5), 1), Err(Error::NotInitialized));
}

#[test]
fn totals_report_overflow() {
    let mut v = vault();
    let token = contract(TOKEN);
    assert_eq!(get_total_accounted(&v, &token), 0);
    assert_eq!(add_total_accounted(&mut v, &token, i128::MAX), Ok(()));
    assert_eq!(add_total_accounted(&mut v, &token, 1), Err(Error::Overflow));
    assert_eq!(get_total_accounted(&v, &token), i128::MAX);
    assert_eq!(sub_total_accounted(&mut v, &token, i128::MAX), Ok(()));
    assert_eq!(sub_total_accounted(&mut v, &token, i128::MAX), Ok(()));
    assert_eq!(sub_total_accounted(&mut v, &token, 2), Err(Error::Underflow));
    assert_eq!(get_total_accounted(&v, &token), -i128::MAX);
}

#[test]
fn batch_reports() {
    assert_eq!(
        batch_charge_result(&Ok(ChargeExecutionResult::Charged)),
        BatchChargeResult { success: true, error_code: 0 }
    );
    assert_eq!(
        batch_charge_result(&Ok(ChargeExecutionResult::InsufficientBalance)),
        BatchChargeResult { success: false, error_code: 1003 }
    );
    assert_eq!(
        batch_charge_result(&Err(Error::MerchantPaused)),
        BatchChargeResult { success: false, error_code: 1019 }
    );
}
