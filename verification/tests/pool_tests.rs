use angstrom_consensus::harness::{DevnetStateMachine, HookKind, StateMachineTestnet, WithCheck};
use angstrom_consensus::pool::{LimitOrderPool, LimitPoolError, PooledOrder};
use angstrom_consensus::sim::{task_kind_for, TaskKind, TransactionKind};
use angstrom_consensus::validation::{gas_in_token_zero, order_token_pair};

fn order(id: u64, pool: u64, size: usize) -> PooledOrder {
    PooledOrder { id, pool, size, priority: 0 }
}

#[test]
fn pool_admits_until_budget_is_reached() {
    let mut pool = LimitOrderPool::new(Some(100));
    assert!(pool.add_limit_order(order(1, 7, 60)).is_ok());
    assert_eq!(
        pool.add_limit_order(order(2, 7, 50)),
        Err(LimitPoolError::MaxSize(order(2, 7, 50)))
    );
    assert!(pool.add_limit_order(order(2, 7, 40)).is_ok());
}

#[test]
fn pool_refuses_duplicate_identity() {
    let mut pool = LimitOrderPool::new(None);
    assert!(pool.add_limit_order(order(1, 7, 10)).is_ok());
    assert_eq!(
        pool.add_limit_order(order(1, 8, 5)),
        Err(LimitPoolError::DuplicateNonce(1, order(1, 8, 5)))
    );
    // the two sub-pools have separate identity spaces
    assert!(pool.add_composable_order(order(1, 8, 5)).is_ok());
}

#[test]
fn removal_frees_budget() {
    let mut pool = LimitOrderPool::new(Some(100));
    assert!(pool.add_limit_order(order(1, 7, 60)).is_ok());
    assert!(pool.add_composable_order(order(2, 7, 40)).is_ok());
    assert_eq!(pool.add_limit_order(order(3, 7, 1)), Err(LimitPoolError::MaxSize(order(3, 7, 1))));
    assert_eq!(pool.remove_limit_order(1), Some(order(1, 7, 60)));
    assert_eq!(pool.remove_limit_order(1), None);
    assert!(pool.add_limit_order(order(3, 7, 60)).is_ok());
    assert_eq!(pool.remove_composable_limit_order(2), Some(order(2, 7, 40)));
}

#[test]
fn fetch_filters_by_pool() {
    let mut pool = LimitOrderPool::new(None);
    assert!(pool.add_limit_order(order(1, 7, 10)).is_ok());
    assert!(pool.add_limit_order(order(2, 8, 10)).is_ok());
    assert!(pool.add_limit_order(order(3, 7, 10)).is_ok());
    assert!(pool.add_composable_order(order(4, 7, 10)).is_ok());
    let (vanilla, composable) = pool.fetch_all_pool_orders(7);
    assert_eq!(vanilla, vec![order(1, 7, 10), order(3, 7, 10)]);
    assert_eq!(composable, vec![order(4, 7, 10)]);
    assert_eq!(pool.fetch_all_vanilla_orders().len(), 3);
    assert_eq!(pool.fetch_all_composable_orders(), vec![order(4, 7, 10)]);
}

#[test]
fn token_pair_is_ordered_canonically() {
    assert_eq!(order_token_pair(5, 3), (3, 5));
    assert_eq!(order_token_pair(3, 5), (3, 5));
    assert_eq!(order_token_pair(4, 4), (4, 4));
}

#[test]
fn gas_conversion_is_exact_and_checked() {
    assert_eq!(gas_in_token_zero(21000, 2), Some(42000));
    assert_eq!(gas_in_token_zero(0, u128::MAX), Some(0));
    assert_eq!(gas_in_token_zero(2, u128::MAX / 2 + 1), None);
}

#[test]
fn transactions_dispatch_to_their_task_kind() {
    assert_eq!(task_kind_for(TransactionKind::Single), TaskKind::Default);
    assert_eq!(task_kind_for(TransactionKind::Bundle), TaskKind::Blocking);
}

#[test]
fn hook_plan_keeps_registration_order() {
    let mut sm = StateMachineTestnet::new();
    sm.add_action("boot");
    sm.add_check("peers connected");
    sm.add_checked_action("advance block");
    let hooks = sm.take_hooks();
    assert_eq!(hooks.len(), 3);
    assert_eq!(hooks[0].name, "boot");
    assert_eq!(hooks[0].kind, HookKind::Action);
    assert_eq!(hooks[1].name, "peers connected");
    assert_eq!(hooks[1].kind, HookKind::Check);
    assert_eq!(hooks[2].name, "advance block");
    assert_eq!(hooks[2].kind, HookKind::CheckedAction);
    assert_eq!(sm.take_hooks().len(), 0);
}

#[test]
fn devnet_check_block_registers_a_named_check() {
    let mut devnet = DevnetStateMachine { state_machine: StateMachineTestnet::new() };
    devnet.check_block(5);
    let hooks = devnet.state_machine.take_hooks();
    assert_eq!(hooks.len(), 1);
    assert_eq!(hooks[0].name, "check block");
    assert_eq!(hooks[0].kind, HookKind::Check);
    assert_eq!(hooks[0].block_number, Some(5));
}
