use miden_amm::error::SettlementError;
use miden_amm::flow::{Stage, SwapFlow};

#[test]
fn successful_steps_run_in_order() {
    let mut flow = SwapFlow::new(2);
    assert_eq!(flow.current(), Stage::BroadcastMint);
    let expected = [
        Stage::AwaitMint,
        Stage::ConsumeMint,
        Stage::BroadcastSwap,
        Stage::AwaitPoolSwap,
        Stage::AwaitPayout,
        Stage::ConsumePayout,
        Stage::Done,
    ];
    for stage in expected {
        assert_eq!(flow.record(Ok(())), stage);
    }
    assert_eq!(flow.record(Ok(())), Stage::Done);
    assert_eq!(flow.record(Err(SettlementError::InvalidAmount)), Stage::Done);
}

#[test]
fn timeouts_are_retried_within_budget() {
    let mut flow = SwapFlow::new(2);
    flow.record(Ok(()));
    assert_eq!(flow.record(Err(SettlementError::VisibilityTimeout)), Stage::AwaitMint);
    assert_eq!(flow.record(Err(SettlementError::VisibilityTimeout)), Stage::AwaitMint);
    assert_eq!(
        flow.record(Err(SettlementError::VisibilityTimeout)),
        Stage::Aborted { error: SettlementError::VisibilityTimeout }
    );
    assert_eq!(flow.record(Ok(())), Stage::Aborted { error: SettlementError::VisibilityTimeout });
}

#[test]
fn retry_budget_is_per_step() {
    let mut flow = SwapFlow::new(1);
    flow.record(Ok(()));
    assert_eq!(flow.record(Err(SettlementError::VisibilityTimeout)), Stage::AwaitMint);
    assert_eq!(flow.record(Ok(())), Stage::ConsumeMint);
    assert_eq!(flow.record(Err(SettlementError::VisibilityTimeout)), Stage::ConsumeMint);
}

#[test]
fn other_failures_abort_at_once() {
    let mut flow = SwapFlow::new(5);
    flow.record(Ok(()));
    flow.record(Ok(()));
    flow.record(Ok(()));
    flow.record(Ok(()));
    assert_eq!(
        flow.record(Err(SettlementError::InsufficientLiquidity)),
        Stage::Aborted { error: SettlementError::InsufficientLiquidity }
    );
}
