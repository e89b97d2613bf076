use psp22::AccountId;
use psp22::CallContext;
use psp22::PSP22Error;
use psp22::PidChatPSP22;
use psp22::Psp22;
use psp22::Transfer;
use psp22::TransferRecord;

fn alice() -> AccountId {
    AccountId::from_bytes([1u8; 32])
}

fn bob() -> AccountId {
    AccountId::from_bytes([2u8; 32])
}

fn charlie() -> AccountId {
    AccountId::from_bytes([3u8; 32])
}

fn as_alice() -> CallContext {
    CallContext::new(alice(), 0)
}

fn as_bob() -> CallContext {
    CallContext::new(bob(), 0)
}

fn setup() -> PidChatPSP22 {
    let total_supply: u128 = 1_000_000;
    PidChatPSP22::new(
        &as_alice(),
        total_supply,
        Some("TestToken".to_string()),
        Some("TST".to_string()),
        18,
    )
}

#[test]
fn test_token_info() {
    let contract = setup();

    assert_eq!(contract.token_name(), "TestToken".as_bytes().to_vec());
    assert_eq!(contract.token_symbol(), "TST".as_bytes().to_vec());
    assert_eq!(contract.token_decimals(), 18);
    assert_eq!(contract.total_supply(), 1_000_000);
}

#[test]
fn test_initial_balance() {
    let contract = setup();

    assert_eq!(contract.balance_of(alice()), 1_000_000);
    assert_eq!(contract.balance_of(bob()), 0);
}

#[test]
fn test_transfer() {
    let mut contract = setup();

    assert!(contract.transfer(&as_alice(), bob(), 100).is_ok());

    assert_eq!(contract.balance_of(alice()), 1_000_000 - 100);
    assert_eq!(contract.balance_of(bob()), 100);
}

#[test]
fn test_transfer_insufficient_balance() {
    let mut contract = setup();

    let result = contract.transfer(&as_alice(), bob(), 2_000_000);
    assert_eq!(result, Err(PSP22Error::InsufficientBalance));
}

#[test]
fn test_approve_and_allowance() {
    let mut contract = setup();

    assert!(contract.approve(&as_alice(), bob(), 500).is_ok());

    assert_eq!(contract.allowance(alice(), bob()), 500);
}

#[test]
fn test_transfer_from() {
    let mut contract = setup();

    assert!(contract.approve(&as_alice(), bob(), 500).is_ok());

    assert!(contract.transfer_from(&as_bob(), alice(), charlie(), 300).is_ok());

    assert_eq!(contract.balance_of(alice()), 1_000_000 - 300);
    assert_eq!(contract.balance_of(charlie()), 300);
    assert_eq!(contract.allowance(alice(), bob()), 0);
}

#[test]
fn test_allowance_modifications() {
    let mut contract = setup();

    assert!(contract.approve(&as_alice(), bob(), 500).is_ok());

    assert!(contract.increase_allowance(&as_alice(), bob(), 200).is_ok());
    assert_eq!(contract.allowance(alice(), bob()), 700);

    assert!(contract.decrease_allowance(&as_alice(), bob(), 300).is_ok());
    assert_eq!(contract.allowance(alice(), bob()), 400);
}

#[test]
fn test_burn() {
    let mut contract = setup();

    assert!(contract.burn(&as_alice(), alice(), 100).is_ok());

    assert_eq!(contract.balance_of(alice()), 1_000_000 - 100);
    assert_eq!(contract.total_supply(), 1_000_000 - 100);
}

#[test]
fn test_transfer_history() {
    let mut contract = setup();

    assert!(contract.transfer(&as_alice(), bob(), 100).is_ok());
    assert!(contract.transfer(&as_alice(), charlie(), 200).is_ok());

    let history = contract.history(&as_alice(), 1, 10);
    assert_eq!(history.len(), 2);

    let TransferRecord { from, to, value, timestamp: _ } = history[0];
    assert_eq!(from, alice());
    assert_eq!(to, bob());
    assert_eq!(value, 100);
}

#[test]
fn test_history_pagination() {
    let mut contract = setup();

    for i in 0..5u128 {
        assert!(contract.transfer(&as_alice(), bob(), 100 + i).is_ok());
    }

    let page1 = contract.history(&as_alice(), 1, 2);
    assert_eq!(page1.len(), 2);

    let page2 = contract.history(&as_alice(), 2, 2);
    assert_eq!(page2.len(), 2);

    let page3 = contract.history(&as_alice(), 3, 2);
    assert_eq!(page3.len(), 1);

    let invalid_page = contract.history(&as_alice(), 10, 2);
    assert_eq!(invalid_page.len(), 0);
}

#[test]
fn test_max_history_size() {
    let mut contract = setup();

    for i in 0..200u128 {
        assert!(contract.transfer(&as_alice(), bob(), 100 + i).is_ok());
    }

    let history = contract.history(&as_alice(), 1, 100);
    assert_eq!(history.len(), 100);
}

#[test]
fn new_token_uses_default_name_and_symbol() {
    let contract = PidChatPSP22::new(&as_alice(), 5, None, None, 9);
    assert_eq!(contract.token_name(), "PidChat".as_bytes().to_vec());
    assert_eq!(contract.token_symbol(), "PID".as_bytes().to_vec());
    assert_eq!(contract.token_decimals(), 9);
    assert_eq!(contract.total_supply(), 5);
    assert_eq!(contract.balance_of(alice()), 5);
}

#[test]
fn new_token_has_no_allowances_and_no_history() {
    let contract = setup();
    assert_eq!(contract.allowance(alice(), bob()), 0);
    assert_eq!(contract.allowance(bob(), alice()), 0);
    assert!(contract.history(&as_alice(), 1, 10).is_empty());
    assert!(contract.history(&as_bob(), 1, 10).is_empty());
}

#[test]
fn transfer_hands_back_the_notice() {
    let mut contract = setup();
    let event = contract.transfer(&as_alice(), bob(), 100);
    assert_eq!(event, Ok(Transfer { from: Some(alice()), to: Some(bob()), value: 100 }));
    let event = contract.approve(&as_alice(), bob(), 40).and_then(|_| {
        contract.transfer_from(&as_bob(), alice(), charlie(), 40)
    });
    assert_eq!(event, Ok(Transfer { from: Some(alice()), to: Some(charlie()), value: 40 }));
}

#[test]
fn transfer_then_overdraw_leaves_balances_unchanged() {
    let mut contract = setup();
    assert!(contract.transfer(&as_alice(), bob(), 100).is_ok());
    assert_eq!(contract.balance_of(alice()), 999_900);
    assert_eq!(contract.balance_of(bob()), 100);

    let result = contract.transfer(&as_alice(), bob(), 2_000_000);
    assert_eq!(result, Err(PSP22Error::InsufficientBalance));
    assert_eq!(contract.balance_of(alice()), 999_900);
    assert_eq!(contract.balance_of(bob()), 100);
    assert_eq!(contract.total_supply(), 1_000_000);
    assert_eq!(contract.history(&as_alice(), 1, 10).len(), 1);
    assert_eq!(contract.history(&as_bob(), 1, 10).len(), 1);
}

#[test]
fn transfer_of_whole_balance_and_of_nothing() {
    let mut contract = setup();
    assert!(contract.transfer(&as_alice(), bob(), 1_000_000).is_ok());
    assert_eq!(contract.balance_of(alice()), 0);
    assert_eq!(contract.balance_of(bob()), 1_000_000);
    assert!(contract.transfer(&as_alice(), bob(), 0).is_ok());
    assert_eq!(contract.balance_of(alice()), 0);
    assert_eq!(
        contract.transfer(&as_alice(), bob(), 1),
        Err(PSP22Error::InsufficientBalance)
    );
    assert!(contract.transfer(&CallContext::new(charlie(), 0), bob(), 0).is_ok());
    assert_eq!(contract.balance_of(charlie()), 0);
}

#[test]
fn transfer_to_oneself_keeps_balance_and_is_remembered_once() {
    let mut contract = setup();
    assert!(contract.transfer(&CallContext::new(alice(), 77), alice(), 250).is_ok());
    assert_eq!(contract.balance_of(alice()), 1_000_000);
    assert_eq!(contract.total_supply(), 1_000_000);
    let history = contract.history(&as_alice(), 1, 10);
    assert_eq!(
        history,
        vec![TransferRecord { from: alice(), to: alice(), value: 250, timestamp: 77 }]
    );
    assert_eq!(
        contract.transfer(&as_alice(), alice(), 1_000_001),
        Err(PSP22Error::InsufficientBalance)
    );
}

#[test]
fn supply_stays_the_sum_of_balances() {
    let mut contract = setup();
    assert!(contract.transfer(&as_alice(), bob(), 300).is_ok());
    assert!(contract.transfer(&as_bob(), charlie(), 120).is_ok());
    assert!(contract.burn(&as_bob(), bob(), 80).is_ok());
    assert!(contract.transfer(&as_alice(), alice(), 5).is_ok());
    let sum: u128 = contract.balance_of(alice())
        + contract.balance_of(bob())
        + contract.balance_of(charlie());
    assert_eq!(contract.balance_of(alice()), 999_700);
    assert_eq!(contract.balance_of(bob()), 100);
    assert_eq!(contract.balance_of(charlie()), 120);
    assert_eq!(sum, 999_920);
    assert_eq!(contract.total_supply(), sum);
}

#[test]
fn transfer_from_uses_the_allowance_up() {
    let mut contract = setup();
    assert!(contract.approve(&as_alice(), bob(), 500).is_ok());
    assert_eq!(contract.allowance(alice(), bob()), 500);
    assert!(contract.transfer_from(&as_bob(), alice(), charlie(), 300).is_ok());
    assert_eq!(contract.balance_of(charlie()), 300);
    assert_eq!(contract.balance_of(alice()), 999_700);
    assert_eq!(contract.balance_of(bob()), 0);
    assert_eq!(contract.allowance(alice(), bob()), 0);
    assert_eq!(
        contract.transfer_from(&as_bob(), alice(), charlie(), 1),
        Err(PSP22Error::InsufficientAllowance)
    );
    assert_eq!(contract.balance_of(charlie()), 300);
}

#[test]
fn transfer_from_without_enough_allowance_changes_nothing() {
    let mut contract = setup();
    assert!(contract.approve(&as_alice(), bob(), 50).is_ok());
    assert_eq!(
        contract.transfer_from(&as_bob(), alice(), charlie(), 51),
        Err(PSP22Error::InsufficientAllowance)
    );
    assert_eq!(contract.allowance(alice(), bob()), 50);
    assert_eq!(contract.balance_of(alice()), 1_000_000);
    assert_eq!(contract.balance_of(charlie()), 0);
    assert!(contract.history(&as_alice(), 1, 10).is_empty());
    assert_eq!(
        contract.transfer_from(&CallContext::new(charlie(), 0), alice(), charlie(), 1),
        Err(PSP22Error::InsufficientAllowance)
    );
}

#[test]
fn transfer_from_without_enough_balance_keeps_the_allowance() {
    let mut contract = setup();
    assert!(contract.approve(&as_bob(), charlie(), 500).is_ok());
    assert_eq!(
        contract.transfer_from(&CallContext::new(charlie(), 0), bob(), alice(), 10),
        Err(PSP22Error::InsufficientBalance)
    );
    assert_eq!(contract.allowance(bob(), charlie()), 500);
    assert_eq!(contract.balance_of(alice()), 1_000_000);
    assert!(contract.history(&as_bob(), 1, 10).is_empty());
}

#[test]
fn transfer_from_is_remembered_for_owner_and_recipient() {
    let mut contract = setup();
    assert!(contract.approve(&as_alice(), bob(), 500).is_ok());
    assert!(contract
        .transfer_from(&CallContext::new(bob(), 42), alice(), charlie(), 300)
        .is_ok());
    let expected = vec![TransferRecord { from: alice(), to: charlie(), value: 300, timestamp: 42 }];
    assert_eq!(contract.history(&as_alice(), 1, 10), expected);
    assert_eq!(contract.history(&CallContext::new(charlie(), 0), 1, 10), expected);
    assert!(contract.history(&as_bob(), 1, 10).is_empty());
}

#[test]
fn approve_overwrites_the_allowance() {
    let mut contract = setup();
    assert_eq!(contract.approve(&as_alice(), bob(), 500), Ok(()));
    assert_eq!(contract.approve(&as_alice(), bob(), 20), Ok(()));
    assert_eq!(contract.allowance(alice(), bob()), 20);
    assert_eq!(contract.allowance(bob(), alice()), 0);
    assert_eq!(contract.allowance(alice(), charlie()), 0);
    assert_eq!(contract.approve(&as_alice(), bob(), 0), Ok(()));
    assert_eq!(contract.allowance(alice(), bob()), 0);
}

#[test]
fn increase_allowance_refuses_to_leave_the_range() {
    let mut contract = setup();
    assert!(contract.approve(&as_alice(), bob(), u128::MAX - 1).is_ok());
    assert_eq!(
        contract.increase_allowance(&as_alice(), bob(), 2),
        Err(PSP22Error::Overflow)
    );
    assert_eq!(contract.allowance(alice(), bob()), u128::MAX - 1);
    assert_eq!(contract.increase_allowance(&as_alice(), bob(), 1), Ok(()));
    assert_eq!(contract.allowance(alice(), bob()), u128::MAX);
}

#[test]
fn decrease_allowance_refuses_to_go_below_zero() {
    let mut contract = setup();
    assert!(contract.approve(&as_alice(), bob(), 10).is_ok());
    assert_eq!(
        contract.decrease_allowance(&as_alice(), bob(), 11),
        Err(PSP22Error::InsufficientAllowance)
    );
    assert_eq!(contract.allowance(alice(), bob()), 10);
    assert_eq!(contract.decrease_allowance(&as_alice(), bob(), 10), Ok(()));
    assert_eq!(contract.allowance(alice(), bob()), 0);
    assert_eq!(
        contract.decrease_allowance(&as_alice(), charlie(), 1),
        Err(PSP22Error::InsufficientAllowance)
    );
}

#[test]
fn burn_reduces_balance_and_supply_or_neither() {
    let mut contract = setup();
    assert_eq!(contract.burn(&as_alice(), alice(), 100), Ok(()));
    assert_eq!(contract.balance_of(alice()), 999_900);
    assert_eq!(contract.total_supply(), 999_900);

    assert_eq!(
        contract.burn(&as_alice(), alice(), 999_901),
        Err(PSP22Error::InsufficientBalance)
    );
    assert_eq!(contract.balance_of(alice()), 999_900);
    assert_eq!(contract.total_supply(), 999_900);
}

#[test]
fn burn_takes_from_the_caller_whoever_is_named() {
    let mut contract = setup();
    assert!(contract.transfer(&as_alice(), bob(), 500).is_ok());
    assert_eq!(contract.burn(&as_bob(), alice(), 200), Ok(()));
    assert_eq!(contract.balance_of(bob()), 300);
    assert_eq!(contract.balance_of(alice()), 999_500);
    assert_eq!(contract.total_supply(), 999_800);
    assert_eq!(
        contract.burn(&CallContext::new(charlie(), 0), alice(), 1),
        Err(PSP22Error::InsufficientBalance)
    );
    assert!(contract.history(&as_bob(), 2, 1).is_empty());
}

#[test]
fn history_pages_of_five_transfers() {
    let mut contract = setup();
    for i in 0..5u64 {
        let context = CallContext::new(alice(), 1000 + i);
        assert!(contract.transfer(&context, bob(), 100 + u128::from(i)).is_ok());
    }
    let record = |i: u64| TransferRecord {
        from: alice(),
        to: bob(),
        value: 100 + u128::from(i),
        timestamp: 1000 + i,
    };
    assert_eq!(contract.history(&as_alice(), 1, 2), vec![record(0), record(1)]);
    assert_eq!(contract.history(&as_alice(), 2, 2), vec![record(2), record(3)]);
    assert_eq!(contract.history(&as_alice(), 3, 2), vec![record(4)]);
    assert_eq!(contract.history(&as_alice(), 4, 2), vec![]);
    assert_eq!(
        contract.history(&as_bob(), 1, 5),
        vec![record(0), record(1), record(2), record(3), record(4)]
    );
    assert_eq!(contract.history(&as_bob(), 2, 3), vec![record(3), record(4)]);
    assert_eq!(contract.history(&as_bob(), 1, 1000).len(), 5);
}

#[test]
fn history_page_zero_and_limit_zero_are_empty() {
    let mut contract = setup();
    for _ in 0..3 {
        assert!(contract.transfer(&as_alice(), bob(), 1).is_ok());
    }
    assert!(contract.history(&as_alice(), 0, 2).is_empty());
    assert!(contract.history(&as_alice(), 2, 0).is_empty());
    assert!(contract.history(&as_alice(), 0, 0).is_empty());
    assert!(contract.history(&as_alice(), 0, u32::MAX).is_empty());
    assert!(contract.history(&as_alice(), u32::MAX, 0).is_empty());
}

#[test]
fn history_with_huge_page_and_limit_does_not_wrap() {
    let mut contract = setup();
    for _ in 0..3 {
        assert!(contract.transfer(&as_alice(), bob(), 1).is_ok());
    }
    assert!(contract.history(&as_alice(), u32::MAX, u32::MAX).is_empty());
    assert!(contract.history(&as_alice(), 65_537, 65_536).is_empty());
    assert!(contract.history(&as_alice(), 2, u32::MAX).is_empty());
    assert_eq!(contract.history(&as_alice(), 1, u32::MAX).len(), 3);
}

#[test]
fn history_asked_twice_answers_the_same() {
    let mut contract = setup();
    for i in 0..7u128 {
        assert!(contract.transfer(&as_alice(), bob(), 10 + i).is_ok());
    }
    let first = contract.history(&as_alice(), 2, 3);
    let second = contract.history(&as_alice(), 2, 3);
    assert_eq!(first.len(), 3);
    assert_eq!(first, second);
    assert_eq!(first[0].value, 13);
}

#[test]
fn history_keeps_the_most_recent_hundred() {
    let mut contract = setup();
    for i in 0..200u64 {
        let context = CallContext::new(alice(), i);
        assert!(contract.transfer(&context, bob(), 100 + u128::from(i)).is_ok());
    }
    let history = contract.history(&as_alice(), 1, 1000);
    assert_eq!(history.len(), 100);
    assert_eq!(
        history[0],
        TransferRecord { from: alice(), to: bob(), value: 200, timestamp: 100 }
    );
    assert_eq!(
        history[99],
        TransferRecord { from: alice(), to: bob(), value: 299, timestamp: 199 }
    );
    assert_eq!(contract.history(&as_alice(), 2, 100).len(), 0);
    assert_eq!(contract.history(&as_alice(), 10, 10)[9].value, 299);
    assert_eq!(contract.history(&as_bob(), 1, 1000), history);
}

#[test]
fn history_at_the_bound_evicts_one_record_per_transfer() {
    let mut contract = setup();
    for i in 0..100u128 {
        assert!(contract.transfer(&as_alice(), bob(), 1 + i).is_ok());
    }
    let full = contract.history(&as_alice(), 1, 200);
    assert_eq!(full.len(), 100);
    assert_eq!(full[0].value, 1);
    assert!(contract.transfer(&as_alice(), charlie(), 777).is_ok());
    let after = contract.history(&as_alice(), 1, 200);
    assert_eq!(after.len(), 100);
    assert_eq!(after[0].value, 2);
    assert_eq!(after[99].value, 777);
    let bobs = contract.history(&as_bob(), 1, 200);
    assert_eq!(bobs.len(), 100);
    assert_eq!(bobs[0].value, 1);
    assert_eq!(contract.history(&CallContext::new(charlie(), 0), 1, 200).len(), 1);
}

#[test]
fn token_taken_apart_and_put_together_is_the_same() {
    let mut contract = setup();
    assert!(contract.transfer(&CallContext::new(alice(), 3), bob(), 100).is_ok());
    assert!(contract.approve(&as_bob(), charlie(), 60).is_ok());
    let (metadata, ledger, allowances, history) = contract.into_parts();
    assert_eq!(metadata.name(), "TestToken");
    assert_eq!(ledger.total_supply(), 1_000_000);
    assert_eq!(ledger.balance_of(bob()), 100);
    assert_eq!(allowances.allowance(bob(), charlie()), 60);
    assert_eq!(history.query(bob(), 1, 10).len(), 1);

    let mut again = PidChatPSP22::from_parts(metadata, ledger, allowances, history);
    assert_eq!(again.token_name(), "TestToken".as_bytes().to_vec());
    assert_eq!(again.token_symbol(), "TST".as_bytes().to_vec());
    assert_eq!(again.token_decimals(), 18);
    assert_eq!(again.total_supply(), 1_000_000);
    assert_eq!(again.balance_of(alice()), 999_900);
    assert_eq!(again.balance_of(bob()), 100);
    assert_eq!(again.allowance(bob(), charlie()), 60);
    assert_eq!(
        again.history(&as_alice(), 1, 10),
        vec![TransferRecord { from: alice(), to: bob(), value: 100, timestamp: 3 }]
    );
    assert!(again
        .transfer_from(&CallContext::new(charlie(), 4), bob(), alice(), 60)
        .is_ok());
    assert_eq!(again.balance_of(alice()), 999_960);
}

fn pay_one<T: Psp22>(token: &mut T, context: &CallContext, to: AccountId) -> Result<u128, PSP22Error> {
    token.transfer(context, to, 1)?;
    Ok(token.balance_of(to))
}

#[test]
fn operations_are_reached_through_the_trait() {
    let mut contract = setup();
    assert_eq!(pay_one(&mut contract, &as_alice(), bob()), Ok(1));
    assert_eq!(pay_one(&mut contract, &as_alice(), bob()), Ok(2));
    assert_eq!(pay_one(&mut contract, &as_bob(), charlie()), Ok(1));
    assert_eq!(
        pay_one(&mut contract, &CallContext::new(AccountId::from_bytes([9u8; 32]), 0), bob()),
        Err(PSP22Error::InsufficientBalance)
    );
    assert_eq!(Psp22::total_supply(&contract), 1_000_000);
    assert_eq!(Psp22::balance_of(&contract, alice()), 999_998);
}
