use remitwise_migration::flow::{
    ContractCall, FlowDecision, FlowEvent, OperationFlow, OperationKind, OperationReply,
    RemittanceFlow,
};
use remitwise_migration::orchestrator::{
    AddressId, ExecutionState, ExecutionStats, FlowStep, Orchestrator, OrchestratorAuditEntry,
    OrchestratorError,
};

fn addr(s: &str) -> AddressId {
    AddressId { strkey: s.to_string() }
}

fn expect_call<T: std::fmt::Debug>(d: FlowDecision<T>) -> ContractCall {
    match d {
        FlowDecision::Call(c) => c,
        other => panic!("expected a call, got {:?}", other),
    }
}

fn expect_finish<T>(d: FlowDecision<T>) -> (Result<T, OrchestratorError>, FlowEvent, ExecutionState) {
    match d {
        FlowDecision::Finish { result, event, lock } => (result, event, lock),
        FlowDecision::Call(c) => panic!("expected the flow to finish, got call {:?}", c),
    }
}

fn start_remittance(total: i128) -> RemittanceFlow {
    RemittanceFlow::start(
        &addr("CORCH"),
        addr("GCALLER"),
        total,
        &addr("CFAMILY"),
        &addr("CSPLIT"),
        &addr("CSAVINGS"),
        &addr("CBILLS"),
        &addr("CINSURANCE"),
        7,
        8,
        9,
        1_000,
    )
}

#[test]
fn reentrancy_guard_refuses_nested_execution() {
    assert_eq!(Orchestrator::acquire_execution_lock(ExecutionState::Idle), Ok(ExecutionState::Executing));
    assert_eq!(
        Orchestrator::acquire_execution_lock(ExecutionState::Executing),
        Err(OrchestratorError::ReentrancyDetected)
    );
    assert_eq!(Orchestrator::release_execution_lock(), ExecutionState::Idle);
    assert_eq!(Orchestrator::get_execution_state(None), ExecutionState::Idle);
    assert_eq!(Orchestrator::get_execution_state(Some(ExecutionState::Executing)), ExecutionState::Executing);
}

#[test]
fn stats_default_to_zero() {
    let zero = ExecutionStats { total_flows_executed: 0, total_flows_failed: 0, total_amount_processed: 0, last_execution: 0 };
    assert_eq!(Orchestrator::get_execution_stats(None), zero);
    let some = ExecutionStats { total_flows_executed: 3, total_flows_failed: 1, total_amount_processed: 500, last_execution: 9 };
    assert_eq!(Orchestrator::get_execution_stats(Some(some)), some);
}

#[test]
fn error_codes_follow_declaration_order() {
    assert_eq!(OrchestratorError::PermissionDenied.code(), 1);
    assert_eq!(OrchestratorError::InsurancePaymentFailed.code(), 5);
    assert_eq!(OrchestratorError::ReentrancyDetected.code(), 10);
    assert_eq!(OrchestratorError::SelfReferenceNotAllowed.code(), 13);
    assert_eq!(FlowStep::Insurance.symbol(), "insuranc");
    assert_eq!(FlowStep::PermissionCheck.symbol(), "perm_chk");
}

#[test]
fn audit_log_pages() {
    let log: Vec<OrchestratorAuditEntry> = (0..5)
        .map(|i| OrchestratorAuditEntry {
            caller: addr("G"),
            operation: "flow".to_string(),
            amount: i,
            success: true,
            timestamp: i as u64,
            error_code: None,
        })
        .collect();
    let page = Orchestrator::get_audit_log(&log, 1, 2);
    assert_eq!(page.iter().map(|e| e.amount).collect::<Vec<_>>(), vec![1, 2]);
    let page = Orchestrator::get_audit_log(&log, 3, u32::MAX);
    assert_eq!(page.iter().map(|e| e.amount).collect::<Vec<_>>(), vec![3, 4]);
    assert!(Orchestrator::get_audit_log(&log, 9, 2).is_empty());
    assert!(Orchestrator::get_audit_log(&log, 2, 0).is_empty());
}

#[test]
fn address_validation() {
    let v = |cur: &str, a: [&str; 5]| {
        Orchestrator::validate_remittance_flow_addresses(
            &addr(cur), &addr(a[0]), &addr(a[1]), &addr(a[2]), &addr(a[3]), &addr(a[4]),
        )
    };
    assert_eq!(v("O", ["A", "B", "C", "D", "E"]), Ok(()));
    assert_eq!(v("O", ["A", "B", "O", "D", "E"]), Err(OrchestratorError::SelfReferenceNotAllowed));
    assert_eq!(v("O", ["A", "B", "C", "D", "A"]), Err(OrchestratorError::DuplicateContractAddress));
    assert_eq!(v("A", ["A", "B", "C", "D", "A"]), Err(OrchestratorError::SelfReferenceNotAllowed));
}

#[test]
fn savings_deposit_flow_succeeds_after_both_checks() {
    let mut f = OperationFlow::start(OperationKind::SavingsDeposit, addr("GCALLER"), 250, 4, 77);
    assert_eq!(expect_call(f.decide()), ContractCall::CheckSpendingLimit { amount: 250 });
    f.permission_reply = Some(true);
    assert_eq!(expect_call(f.decide()), ContractCall::CheckSpendingLimit { amount: 250 });
    f.limit_reply = Some(true);
    assert_eq!(expect_call(f.decide()), ContractCall::AddToGoal { goal_id: 4, amount: 250 });
    f.operation_reply = Some(OperationReply::Completed);
    let (result, event, lock) = expect_finish(f.decide());
    assert_eq!(result, Ok(()));
    assert_eq!(lock, ExecutionState::Idle);
    match event {
        FlowEvent::Completed(ev) => {
            assert_eq!(ev.allocations, vec![0, 250, 0, 0]);
            assert_eq!(ev.total_amount, 250);
            assert_eq!(ev.caller.strkey, "GCALLER");
            assert_eq!(ev.timestamp, 77);
        }
        other => panic!("unexpected event {:?}", other),
    }
}

#[test]
fn bill_payment_flow_stops_at_denied_permission() {
    let mut f = OperationFlow::start(OperationKind::BillPayment, addr("G"), 10, 2, 5);
    f.permission_reply = Some(false);
    let (result, event, lock) = expect_finish(f.decide());
    assert_eq!(result, Err(OrchestratorError::PermissionDenied));
    assert_eq!(lock, ExecutionState::Idle);
    match event {
        FlowEvent::Failed(ev) => {
            assert_eq!(ev.failed_step, FlowStep::PermissionCheck);
            assert_eq!(ev.error_code, 1);
        }
        other => panic!("unexpected event {:?}", other),
    }
}

#[test]
fn bill_payment_flow_stops_at_spending_limit() {
    let mut f = OperationFlow::start(OperationKind::BillPayment, addr("G"), 10, 2, 5);
    f.permission_reply = Some(true);
    f.limit_reply = Some(false);
    let (result, event, _) = expect_finish(f.decide());
    assert_eq!(result, Err(OrchestratorError::SpendingLimitExceeded));
    assert!(matches!(event, FlowEvent::Failed(ref ev) if ev.failed_step == FlowStep::SpendingLimit && ev.error_code == 2));
    f.limit_reply = Some(true);
    assert_eq!(expect_call(f.decide()), ContractCall::PayBill { bill_id: 2 });
    f.operation_reply = Some(OperationReply::Completed);
    let (result, event, _) = expect_finish(f.decide());
    assert_eq!(result, Ok(()));
    assert!(matches!(event, FlowEvent::Completed(ref ev) if ev.allocations == vec![0, 0, 10, 0]));
}

#[test]
fn insurance_flow_reports_unpaid_premium() {
    let mut f = OperationFlow::start(OperationKind::InsurancePayment, addr("G"), 30, 3, 5);
    f.permission_reply = Some(true);
    f.limit_reply = Some(true);
    assert_eq!(expect_call(f.decide()), ContractCall::PayPremium { policy_id: 3 });
    for reply in [OperationReply::PremiumPaid(false), OperationReply::PremiumError(4)] {
        f.operation_reply = Some(reply);
        let (result, event, _) = expect_finish(f.decide());
        assert_eq!(result, Err(OrchestratorError::InsurancePaymentFailed));
        assert!(matches!(event, FlowEvent::Failed(ref ev) if ev.failed_step == FlowStep::Insurance && ev.error_code == 5));
    }
    f.operation_reply = Some(OperationReply::PremiumPaid(true));
    let (result, event, _) = expect_finish(f.decide());
    assert_eq!(result, Ok(()));
    assert!(matches!(event, FlowEvent::Completed(ref ev) if ev.allocations == vec![0, 0, 0, 30]));
    assert_eq!(Orchestrator::pay_insurance_premium(Ok(true)), Ok(()));
    assert_eq!(Orchestrator::pay_insurance_premium(Err(9)), Err(OrchestratorError::InsurancePaymentFailed));
    assert_eq!(Orchestrator::check_family_wallet_permission(true), Ok(true));
    assert_eq!(Orchestrator::check_spending_limit(false), Err(OrchestratorError::SpendingLimitExceeded));
}

#[test]
fn remittance_flow_runs_all_steps() {
    let mut f = start_remittance(1_000);
    assert_eq!(expect_call(f.decide()), ContractCall::CheckSpendingLimit { amount: 1_000 });
    f.limit_reply = Some(true);
    assert_eq!(expect_call(f.decide()), ContractCall::CalculateSplit { total_amount: 1_000 });
    f.allocations = Some(vec![400, 300, 200, 100]);
    assert_eq!(expect_call(f.decide()), ContractCall::AddToGoal { goal_id: 7, amount: 300 });
    f.savings_done = true;
    assert_eq!(expect_call(f.decide()), ContractCall::PayBill { bill_id: 8 });
    f.bills_done = true;
    assert_eq!(expect_call(f.decide()), ContractCall::PayPremium { policy_id: 9 });
    f.premium_reply = Some(OperationReply::PremiumPaid(true));
    let (result, event, lock) = expect_finish(f.decide());
    let r = result.unwrap();
    assert_eq!((r.total_amount, r.spending_amount, r.savings_amount, r.bills_amount, r.insurance_amount), (1_000, 400, 300, 200, 100));
    assert!(r.savings_success && r.bills_success && r.insurance_success);
    assert_eq!(r.timestamp, 1_000);
    assert_eq!(lock, ExecutionState::Idle);
    assert!(matches!(event, FlowEvent::Completed(ref ev) if ev.allocations == vec![400, 300, 200, 100]));
}

#[test]
fn remittance_flow_short_split_defaults_to_zero() {
    let mut f = start_remittance(50);
    f.limit_reply = Some(true);
    f.allocations = Some(vec![50]);
    assert_eq!(expect_call(f.decide()), ContractCall::AddToGoal { goal_id: 7, amount: 0 });
    f.savings_done = true;
    f.bills_done = true;
    f.premium_reply = Some(OperationReply::PremiumPaid(true));
    let (result, _, _) = expect_finish(f.decide());
    let r = result.unwrap();
    assert_eq!((r.spending_amount, r.savings_amount, r.bills_amount, r.insurance_amount), (50, 0, 0, 0));
}

#[test]
fn remittance_flow_rejects_bad_input_before_calls() {
    let f = start_remittance(0);
    let (result, event, _) = expect_finish(f.decide());
    assert_eq!(result.err(), Some(OrchestratorError::InvalidAmount));
    assert!(matches!(event, FlowEvent::Failed(ref ev) if ev.failed_step == FlowStep::Flow && ev.error_code == 7));

    let f = RemittanceFlow::start(
        &addr("CORCH"), addr("G"), 10, &addr("CA"), &addr("CA"), &addr("CB"), &addr("CC"), &addr("CD"), 1, 2, 3, 4,
    );
    let (result, _, _) = expect_finish(f.decide());
    assert_eq!(result.err(), Some(OrchestratorError::DuplicateContractAddress));

    let mut f = start_remittance(10);
    f.limit_reply = Some(false);
    let (result, event, _) = expect_finish(f.decide());
    assert_eq!(result.err(), Some(OrchestratorError::SpendingLimitExceeded));
    assert!(matches!(event, FlowEvent::Failed(ref ev) if ev.error_code == 2));
}

#[test]
fn remittance_flow_reports_unpaid_premium() {
    for reply in [OperationReply::PremiumPaid(false), OperationReply::PremiumError(3)] {
        let mut f = start_remittance(100);
        f.limit_reply = Some(true);
        f.allocations = Some(vec![10, 20, 30, 40]);
        f.savings_done = true;
        f.bills_done = true;
        f.premium_reply = Some(reply);
        let (result, event, lock) = expect_finish(f.decide());
        let r = result.unwrap();
        assert!(r.savings_success && r.bills_success);
        assert!(!r.insurance_success);
        assert_eq!(r.insurance_amount, 40);
        assert_eq!(lock, ExecutionState::Idle);
        assert!(matches!(event, FlowEvent::Completed(_)));
    }
}
