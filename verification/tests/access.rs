use timelock_auction::access::{
    AccessAllowed, ComposableAccessRule, LimitExceeded, LimitedUseRule, RuleExecuted, RuleExecutor,
    RuleReport, Usage,
};
use timelock_auction::account::AccountId;

fn alice() -> AccountId {
    AccountId::new([1u8; 32])
}

fn bob() -> AccountId {
    AccountId::new([2u8; 32])
}

#[test]
fn can_create_new_contract_with_positive_limit() {
    let limit = 10;
    let limited_use_contract = LimitedUseRule::new(limit);
    assert_eq!(limit, limited_use_contract.get_limit());
}

#[test]
fn can_execute_and_increment_on_first_access() {
    let mut limited_use_contract = LimitedUseRule::new(2);
    limited_use_contract.execute(1, alice());
    let usage_tracker = limited_use_contract.usage_of(&alice()).unwrap();
    let usage_len = usage_tracker.len();
    assert_eq!(1, usage_len);
    assert_eq!(1, usage_tracker[0].asset_id);
    assert_eq!(1, usage_tracker[0].access_attempts);
}

#[test]
fn can_execute_and_increment_on_second_access() {
    let mut limited_use_contract = LimitedUseRule::new(2);
    limited_use_contract.execute(1, alice());
    let usage_tracker_1 = limited_use_contract.usage_of(&alice()).unwrap();
    assert_eq!(1, usage_tracker_1[0].access_attempts);
    limited_use_contract.execute(1, alice());
    let usage_tracker_2 = limited_use_contract.usage_of(&alice()).unwrap();
    assert_eq!(2, usage_tracker_2[0].access_attempts);
}

#[test]
fn can_execute_and_not_increment_when_limit_exceeded() {
    let mut limited_use_contract = LimitedUseRule::new(2);
    limited_use_contract.execute(1, alice());
    let usage_tracker_1 = limited_use_contract.usage_of(&alice()).unwrap();
    assert_eq!(1, usage_tracker_1[0].access_attempts);
    limited_use_contract.execute(1, alice());
    let usage_tracker_2 = limited_use_contract.usage_of(&alice()).unwrap();
    assert_eq!(2, usage_tracker_2[0].access_attempts);
    limited_use_contract.execute(1, alice());
    let usage_tracker_3 = limited_use_contract.usage_of(&alice()).unwrap();
    assert_eq!(2, usage_tracker_3[0].access_attempts);
}

#[test]
fn access_is_allowed_up_to_the_limit() {
    let mut rule = LimitedUseRule::new(2);
    assert_eq!(rule.usage_of(&alice()), None);
    assert_eq!(rule.try_access(7, alice()), Ok(AccessAllowed {}));
    assert_eq!(rule.try_access(7, alice()), Ok(AccessAllowed {}));
    assert_eq!(rule.try_access(7, alice()), Err(LimitExceeded {}));
    assert_eq!(rule.usage_of(&alice()), Some(vec![Usage { asset_id: 7, access_attempts: 2 }]));
    // each consumer is counted apart
    assert!(rule.execute(7, bob()));
    assert_eq!(rule.usage_of(&bob()), Some(vec![Usage { asset_id: 7, access_attempts: 1 }]));
}

#[test]
fn executor_allows_one_use() {
    let mut executor = RuleExecutor::new(3);
    assert_eq!(executor.get_version(), 3);
    assert_eq!(
        executor.execute(alice(), 5),
        (RuleExecuted {}, RuleReport { consumer: alice(), asset_id: 5, result: true })
    );
    assert_eq!(
        executor.execute(alice(), 5).1,
        RuleReport { consumer: alice(), asset_id: 5, result: false }
    );
    assert_eq!(
        executor.execute(bob(), 5).1,
        RuleReport { consumer: bob(), asset_id: 5, result: true }
    );
}

#[test]
fn rule_knows_whom_it_can_be_asked_about() {
    let mut rule = LimitedUseRule::new(2);
    assert!(rule.can_ask(7, &alice()));
    assert_eq!(rule.try_access(7, alice()), Ok(AccessAllowed {}));
    assert!(rule.can_ask(7, &alice()));
    assert!(!rule.can_ask(8, &alice()));
    assert!(rule.can_ask(8, &bob()));
    let mut executor = RuleExecutor::new(1);
    assert!(executor.can_ask(&alice(), 5));
    let _ = executor.execute(alice(), 5);
    assert!(executor.can_ask(&alice(), 5));
    assert!(!executor.can_ask(&alice(), 6));
}
