use ping_dispatch::plan::{
    plan_creation, CreationPlan, PlanError, BATCH_SIZE, CHANNEL_AMOUNT, MAX_CHANNELS,
};

#[test]
fn plan_splits_into_batches_and_remainder() {
    assert_eq!(plan_creation(25), Ok(CreationPlan { batches: 2, remainder: 5 }));
    assert_eq!(plan_creation(11), Ok(CreationPlan { batches: 1, remainder: 1 }));
    assert_eq!(plan_creation(499), Ok(CreationPlan { batches: 49, remainder: 9 }));
}

#[test]
fn plan_of_multiple_of_batch_has_no_remainder() {
    assert_eq!(plan_creation(20), Ok(CreationPlan { batches: 2, remainder: 0 }));
    assert_eq!(plan_creation(500), Ok(CreationPlan { batches: 50, remainder: 0 }));
}

#[test]
fn plan_of_small_request_runs_on_calling_task() {
    assert_eq!(plan_creation(0), Ok(CreationPlan { batches: 0, remainder: 0 }));
    assert_eq!(plan_creation(1), Ok(CreationPlan { batches: 0, remainder: 1 }));
    assert_eq!(plan_creation(9), Ok(CreationPlan { batches: 0, remainder: 9 }));
    assert_eq!(plan_creation(10), Ok(CreationPlan { batches: 0, remainder: 10 }));
}

#[test]
fn plan_refuses_request_above_ceiling() {
    assert_eq!(plan_creation(501), Err(PlanError::CeilingExceeded));
    assert_eq!(plan_creation(1000), Err(PlanError::CeilingExceeded));
    assert_eq!(plan_creation(usize::MAX), Err(PlanError::CeilingExceeded));
}

#[test]
fn plan_total_equals_request_for_every_count_within_ceiling() {
    for requested in 0..=MAX_CHANNELS {
        let plan = plan_creation(requested).unwrap();
        assert_eq!(plan.total_calls(), requested);
        assert_eq!(plan.batches * BATCH_SIZE + plan.remainder, requested);
        if plan.batches > 0 {
            assert!(plan.remainder < BATCH_SIZE);
        }
    }
}

#[test]
fn plan_constants_have_their_documented_values() {
    assert_eq!(MAX_CHANNELS, 500);
    assert_eq!(BATCH_SIZE, 10);
    assert_eq!(CHANNEL_AMOUNT, 1000);
}

#[test]
fn built_in_channel_amount_is_above_ceiling() {
    assert_eq!(plan_creation(CHANNEL_AMOUNT), Err(PlanError::CeilingExceeded));
}
