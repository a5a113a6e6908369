use miden_transfer::errors::ConfirmationError;
use miden_transfer::tracker::{
    await_commitment, poll_absorb, reconcile_status, PollBudget, PollStep, TransactionStatus,
};

#[test]
fn zero_wait_times_out_without_consuming_a_lookup() {
    // Even a lookup answer that would have committed is never consulted:
    // the zero budget settles the wait first.
    let obs = vec![Some(TransactionStatus::Committed { block_num: 7 })];
    assert_eq!(await_commitment(&obs, 1, 0), Err(ConfirmationError::Timeout));
    let none: Vec<Option<TransactionStatus>> = vec![];
    assert_eq!(await_commitment(&none, 5, 0), Err(ConfirmationError::Timeout));
}

#[test]
fn pending_then_committed_yields_the_block_height() {
    let obs = vec![
        Some(TransactionStatus::Pending),
        Some(TransactionStatus::Committed { block_num: 42 }),
    ];
    assert_eq!(await_commitment(&obs, 1000, 2000), Ok(42));
}

#[test]
fn discarded_is_terminal_failure() {
    let obs = vec![
        Some(TransactionStatus::Pending),
        Some(TransactionStatus::Discarded { cause: 9 }),
    ];
    assert_eq!(
        await_commitment(&obs, 1, 2),
        Err(ConfirmationError::Discarded { cause: 9 })
    );
}

#[test]
fn missing_transaction_is_its_own_condition() {
    let obs = vec![None];
    assert_eq!(
        await_commitment(&obs, 1, 1),
        Err(ConfirmationError::TransactionNotFound)
    );
}

#[test]
fn budget_exhaustion_times_out() {
    let obs = vec![
        Some(TransactionStatus::Pending),
        Some(TransactionStatus::Pending),
        Some(TransactionStatus::Pending),
    ];
    assert_eq!(await_commitment(&obs, 1, 3), Err(ConfirmationError::Timeout));
}

#[test]
fn terminal_statuses_never_regress() {
    let committed = TransactionStatus::Committed { block_num: 5 };
    let discarded = TransactionStatus::Discarded { cause: 2 };
    assert_eq!(reconcile_status(committed, TransactionStatus::Pending), None);
    assert_eq!(reconcile_status(committed, discarded), None);
    assert_eq!(reconcile_status(discarded, TransactionStatus::Pending), None);
    assert_eq!(reconcile_status(discarded, committed), None);
    assert_eq!(reconcile_status(committed, committed), Some(committed));
    assert_eq!(reconcile_status(discarded, discarded), Some(discarded));
    assert_eq!(
        reconcile_status(TransactionStatus::Pending, committed),
        Some(committed)
    );
    assert!(committed.terminal());
    assert!(discarded.terminal());
    assert!(!TransactionStatus::Pending.terminal());
}

#[test]
fn poll_budget_advances_and_caps() {
    let b = PollBudget::begin(400, 1000);
    assert!(b.may_query());
    let b1 = b.after_sleep();
    assert_eq!(b1.waited_ms, 400);
    let b2 = b1.after_sleep();
    assert_eq!(b2.waited_ms, 800);
    let b3 = b2.after_sleep();
    assert_eq!(b3.waited_ms, 1000);
    assert!(!b3.may_query());
}

#[test]
fn absorb_settles_on_terminal_answers() {
    let b = PollBudget::begin(100, 1000);
    assert_eq!(
        poll_absorb(b, Some(TransactionStatus::Committed { block_num: 3 })),
        PollStep::Settled(Ok(3))
    );
    assert_eq!(
        poll_absorb(b, Some(TransactionStatus::Discarded { cause: 1 })),
        PollStep::Settled(Err(ConfirmationError::Discarded { cause: 1 }))
    );
    assert_eq!(
        poll_absorb(b, None),
        PollStep::Settled(Err(ConfirmationError::TransactionNotFound))
    );
    match poll_absorb(b, Some(TransactionStatus::Pending)) {
        PollStep::KeepWaiting(next) => assert_eq!(next.waited_ms, 100),
        PollStep::Settled(_) => panic!("a pending answer must keep waiting"),
    }
}
