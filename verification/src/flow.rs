//! The orchestrator's flows. A flow records the replies of the contracts it
//! has called so far; `decide` names the next contract call or the final
//! outcome: the result, the event to publish and the reentrancy-guard state
//! to store. The host performs each call, records its reply in the flow,
//! and asks again.

use vstd::prelude::*;
use crate::orchestrator::{
    AddressId, ExecutionState, FlowStep, OrchestratorError, Orchestrator, RemittanceFlowErrorEvent,
    RemittanceFlowEvent, RemittanceFlowResult, address_check_result, error_code_of, flow_addresses,
};

verus! {

/// A call into one of the downstream contracts.
#[derive(Copy, Clone, Debug, PartialEq, Eq, Structural)]
pub enum ContractCall {
    /// Ask the family wallet whether the caller may spend `amount`.
    CheckSpendingLimit { amount: i128 },
    /// Ask the remittance split contract how to divide `total_amount`.
    CalculateSplit { total_amount: i128 },
    /// Add `amount` to savings goal `goal_id`.
    AddToGoal { goal_id: u32, amount: i128 },
    /// Pay bill `bill_id`.
    PayBill { bill_id: u32 },
    /// Pay the premium of insurance policy `policy_id`.
    PayPremium { policy_id: u32 },
}

/// The event a finished flow publishes.
#[derive(Debug)]
pub enum FlowEvent {
    Completed(RemittanceFlowEvent),
    Failed(RemittanceFlowErrorEvent),
}

/// What a flow does next.
#[derive(Debug)]
pub enum FlowDecision<T> {
    /// Perform this contract call and record its reply.
    Call(ContractCall),
    /// The flow is over: return `result`, publish `event`, store `lock`.
    Finish { result: Result<T, OrchestratorError>, event: FlowEvent, lock: ExecutionState },
}

/// `d` finishes the flow with error `e`, an error event naming `step`, and
/// the reentrancy guard released.
pub open spec fn finishes_failed<T>(
    d: &FlowDecision<T>,
    caller: AddressId,
    step: FlowStep,
    e: OrchestratorError,
    timestamp: u64,
) -> bool {
    &&& d matches FlowDecision::Finish { result, event, lock }
    &&& d->result == Err::<T, OrchestratorError>(e)
    &&& d->lock == ExecutionState::Idle
    &&& d->event == FlowEvent::Failed(
        RemittanceFlowErrorEvent { caller, failed_step: step, error_code: error_code_of(e), timestamp },
    )
}

/// `d` finishes the flow with `value`, a completion event carrying the
/// caller, total, allocations and time, and the reentrancy guard released.
pub open spec fn finishes_completed<T>(
    d: &FlowDecision<T>,
    value: T,
    caller: AddressId,
    total: i128,
    allocations: Seq<i128>,
    timestamp: u64,
) -> bool {
    &&& d matches FlowDecision::Finish { result, event, lock }
    &&& d->result == Ok::<T, OrchestratorError>(value)
    &&& d->lock == ExecutionState::Idle
    &&& d->event matches FlowEvent::Completed(ev)
    &&& ev.caller == caller
    &&& ev.total_amount == total
    &&& ev.allocations@ == allocations
    &&& ev.timestamp == timestamp
}

fn failed<T>(caller: &AddressId, step: FlowStep, e: OrchestratorError, timestamp: u64) -> (d: FlowDecision<T>)
    ensures
        finishes_failed(&d, *caller, step, e, timestamp),
{
    let code = e.code();
    FlowDecision::Finish {
        result: Err(e),
        event: FlowEvent::Failed(
            RemittanceFlowErrorEvent { caller: caller.duplicate(), failed_step: step, error_code: code, timestamp },
        ),
        lock: Orchestrator::release_execution_lock(),
    }
}

fn completed<T>(value: T, caller: &AddressId, total: i128, allocations: Vec<i128>, timestamp: u64) -> (d:
    FlowDecision<T>)
    ensures
        finishes_completed(&d, value, *caller, total, allocations@, timestamp),
{
    FlowDecision::Finish {
        result: Ok(value),
        event: FlowEvent::Completed(
            RemittanceFlowEvent { caller: caller.duplicate(), total_amount: total, allocations, timestamp },
        ),
        lock: Orchestrator::release_execution_lock(),
    }
}

// ---------------------------------------------------------------------------
// Single operations: savings deposit, bill payment, insurance premium
// ---------------------------------------------------------------------------

/// The downstream operation that a single-operation flow performs.
#[derive(Copy, Clone, Debug, PartialEq, Eq, Structural)]
pub enum OperationKind {
    SavingsDeposit,
    BillPayment,
    InsurancePayment,
}

/// The reply of the downstream operation call.
#[derive(Copy, Clone, Debug, PartialEq, Eq)]
pub enum OperationReply {
    /// The savings or bills call returned.
    Completed,
    /// The insurance contract answered `Ok` with this flag.
    PremiumPaid(bool),
    /// The insurance contract answered with this error code.
    PremiumError(u32),
}

/// A savings deposit, bill payment or premium payment, gated by the family
/// wallet: first the permission check, then the spending-limit check (both
/// ask the wallet about the same amount), then the operation.
#[derive(Debug)]
pub struct OperationFlow {
    pub kind: OperationKind,
    pub caller: AddressId,
    pub amount: i128,
    /// The goal, bill or policy the operation targets.
    pub target_id: u32,
    pub timestamp: u64,
    pub permission_reply: Option<bool>,
    pub limit_reply: Option<bool>,
    pub operation_reply: Option<OperationReply>,
}

/// The call that performs the operation.
pub open spec fn operation_call(kind: OperationKind, target_id: u32, amount: i128) -> ContractCall {
    match kind {
        OperationKind::SavingsDeposit => ContractCall::AddToGoal { goal_id: target_id, amount },
        OperationKind::BillPayment => ContractCall::PayBill { bill_id: target_id },
        OperationKind::InsurancePayment => ContractCall::PayPremium { policy_id: target_id },
    }
}

/// The step that an operation failure names.
pub open spec fn operation_step(kind: OperationKind) -> FlowStep {
    match kind {
        OperationKind::SavingsDeposit => FlowStep::Savings,
        OperationKind::BillPayment => FlowStep::Bills,
        OperationKind::InsurancePayment => FlowStep::Insurance,
    }
}

/// How the amount of an operation shows in the completion event's
/// allocations `[spending, savings, bills, insurance]`.
pub open spec fn operation_allocations(kind: OperationKind, amount: i128) -> Seq<i128> {
    match kind {
        OperationKind::SavingsDeposit => seq![0i128, amount, 0i128, 0i128],
        OperationKind::BillPayment => seq![0i128, 0i128, amount, 0i128],
        OperationKind::InsurancePayment => seq![0i128, 0i128, 0i128, amount],
    }
}

/// Whether the operation succeeded: a premium payment only when the
/// insurance contract answered `Ok(true)`; a savings deposit or bill
/// payment whenever its call returned.
pub open spec fn operation_succeeded(kind: OperationKind, reply: OperationReply) -> bool {
    match kind {
        OperationKind::InsurancePayment => reply == OperationReply::PremiumPaid(true),
        _ => true,
    }
}

/// `d` is what the operation flow does next.
pub open spec fn is_operation_decision(f: &OperationFlow, d: &FlowDecision<()>) -> bool {
    match f.permission_reply {
        None => *d == FlowDecision::<()>::Call(ContractCall::CheckSpendingLimit { amount: f.amount }),
        Some(false) => finishes_failed(
            d,
            f.caller,
            FlowStep::PermissionCheck,
            OrchestratorError::PermissionDenied,
            f.timestamp,
        ),
        Some(true) => match f.limit_reply {
            None => *d == FlowDecision::<()>::Call(ContractCall::CheckSpendingLimit { amount: f.amount }),
            Some(false) => finishes_failed(
                d,
                f.caller,
                FlowStep::SpendingLimit,
                OrchestratorError::SpendingLimitExceeded,
                f.timestamp,
            ),
            Some(true) => match f.operation_reply {
                None => *d == FlowDecision::<()>::Call(operation_call(f.kind, f.target_id, f.amount)),
                Some(reply) => if operation_succeeded(f.kind, reply) {
                    finishes_completed(
                        d,
                        (),
                        f.caller,
                        f.amount,
                        operation_allocations(f.kind, f.amount),
                        f.timestamp,
                    )
                } else {
                    finishes_failed(
                        d,
                        f.caller,
                        operation_step(f.kind),
                        OrchestratorError::InsurancePaymentFailed,
                        f.timestamp,
                    )
                },
            },
        },
    }
}

impl OperationFlow {
    /// Starts a flow for `kind` on `target_id`, with no replies yet.
    pub fn start(kind: OperationKind, caller: AddressId, amount: i128, target_id: u32, timestamp: u64) -> (f:
        Self)
        ensures
            f.kind == kind,
            f.caller == caller,
            f.amount == amount,
            f.target_id == target_id,
            f.timestamp == timestamp,
            f.permission_reply is None,
            f.limit_reply is None,
            f.operation_reply is None,
    {
        OperationFlow {
            kind,
            caller,
            amount,
            target_id,
            timestamp,
            permission_reply: None,
            limit_reply: None,
            operation_reply: None,
        }
    }

    /// Records the family wallet's answer to a spending-limit query: the
    /// first answer is the permission check, the second the limit check.
    pub fn record_wallet_answer(&mut self, allowed: bool)
        ensures
            final(self).kind == old(self).kind,
            final(self).caller == old(self).caller,
            final(self).amount == old(self).amount,
            final(self).target_id == old(self).target_id,
            final(self).timestamp == old(self).timestamp,
            final(self).operation_reply == old(self).operation_reply,
            old(self).permission_reply is None ==> final(self).permission_reply == Some(allowed)
                && final(self).limit_reply == old(self).limit_reply,
            old(self).permission_reply is Some ==> final(self).permission_reply == old(self).permission_reply
                && final(self).limit_reply == Some(allowed),
    {
        if self.permission_reply.is_none() {
            self.permission_reply = Some(allowed);
        } else {
            self.limit_reply = Some(allowed);
        }
    }

    /// What the flow does next.
    pub fn decide(&self) -> (d: FlowDecision<()>)
        ensures
            is_operation_decision(self, &d),
    {
        match self.permission_reply {
            None => FlowDecision::Call(ContractCall::CheckSpendingLimit { amount: self.amount }),
            Some(has_permission) => match Orchestrator::check_family_wallet_permission(has_permission) {
                Err(e) => failed(&self.caller, FlowStep::PermissionCheck, e, self.timestamp),
                Ok(_) => match self.limit_reply {
                    None => FlowDecision::Call(ContractCall::CheckSpendingLimit { amount: self.amount }),
                    Some(within) => match Orchestrator::check_spending_limit(within) {
                        Err(e) => failed(&self.caller, FlowStep::SpendingLimit, e, self.timestamp),
                        Ok(()) => self.decide_operation(),
                    },
                },
            },
        }
    }

    fn decide_operation(&self) -> (d: FlowDecision<()>)
        requires
            self.permission_reply == Some(true),
            self.limit_reply == Some(true),
        ensures
            is_operation_decision(self, &d),
    {
        match self.operation_reply {
            None => {
                let call = match self.kind {
                    OperationKind::SavingsDeposit => ContractCall::AddToGoal {
                        goal_id: self.target_id,
                        amount: self.amount,
                    },
                    OperationKind::BillPayment => ContractCall::PayBill { bill_id: self.target_id },
                    OperationKind::InsurancePayment => ContractCall::PayPremium { policy_id: self.target_id },
                };
                FlowDecision::Call(call)
            },
            Some(reply) => {
                let outcome = match (self.kind, reply) {
                    (OperationKind::InsurancePayment, OperationReply::PremiumPaid(paid)) =>
                        Orchestrator::pay_insurance_premium(Ok(paid)),
                    (OperationKind::InsurancePayment, OperationReply::PremiumError(code)) =>
                        Orchestrator::pay_insurance_premium(Err(code)),
                    (OperationKind::InsurancePayment, OperationReply::Completed) => Err(
                        OrchestratorError::InsurancePaymentFailed,
                    ),
                    _ => Ok(()),
                };
                match outcome {
                    Err(e) => {
                        let step = match self.kind {
                            OperationKind::SavingsDeposit => FlowStep::Savings,
                            OperationKind::BillPayment => FlowStep::Bills,
                            OperationKind::InsurancePayment => FlowStep::Insurance,
                        };
                        failed(&self.caller, step, e, self.timestamp)
                    },
                    Ok(()) => {
                        let mut allocations: Vec<i128> = Vec::new();
                        allocations.push(0);
                        allocations.push(if self.kind == OperationKind::SavingsDeposit { self.amount } else { 0 });
                        allocations.push(if self.kind == OperationKind::BillPayment { self.amount } else { 0 });
                        allocations.push(if self.kind == OperationKind::InsurancePayment { self.amount } else { 0 });
                        assert(allocations@ =~= operation_allocations(self.kind, self.amount));
                        completed((), &self.caller, self.amount, allocations, self.timestamp)
                    },
                }
            },
        }
    }
}

// ---------------------------------------------------------------------------
// The complete remittance flow
// ---------------------------------------------------------------------------

/// A complete remittance: validate the contract addresses and the amount,
/// check the caller's spending limit for the total, ask the split contract
/// for the allocations `[spending, savings, bills, insurance]`, then deposit
/// the savings allocation, pay the bill and pay the premium. The result
/// reports the premium as paid only when the insurer answered `Ok(true)`.
#[derive(Debug)]
pub struct RemittanceFlow {
    pub caller: AddressId,
    pub total_amount: i128,
    pub goal_id: u32,
    pub bill_id: u32,
    pub policy_id: u32,
    pub timestamp: u64,
    /// The outcome of validating the five contract addresses.
    pub address_check: Result<(), OrchestratorError>,
    pub limit_reply: Option<bool>,
    pub allocations: Option<Vec<i128>>,
    pub savings_done: bool,
    pub bills_done: bool,
    /// What the insurance contract answered to the premium payment.
    pub premium_reply: Option<OperationReply>,
}

/// Allocation `i`, or zero when the split returned fewer entries.
pub open spec fn allocation_or_zero(a: Seq<i128>, i: int) -> i128 {
    if 0 <= i < a.len() {
        a[i]
    } else {
        0
    }
}

/// Whether the premium payment of a remittance succeeded: only when the
/// insurance contract answered `Ok(true)`.
pub open spec fn premium_paid(reply: Option<OperationReply>) -> bool {
    reply == Some(OperationReply::PremiumPaid(true))
}

/// The result of a completed remittance flow with allocations `a`.
pub open spec fn flow_result(f: &RemittanceFlow, a: Seq<i128>) -> RemittanceFlowResult {
    RemittanceFlowResult {
        total_amount: f.total_amount,
        spending_amount: allocation_or_zero(a, 0),
        savings_amount: allocation_or_zero(a, 1),
        bills_amount: allocation_or_zero(a, 2),
        insurance_amount: allocation_or_zero(a, 3),
        savings_success: true,
        bills_success: true,
        insurance_success: premium_paid(f.premium_reply),
        timestamp: f.timestamp,
    }
}

/// `d` is what the remittance flow does next.
pub open spec fn is_remittance_decision(f: &RemittanceFlow, d: &FlowDecision<RemittanceFlowResult>) -> bool {
    if f.address_check is Err {
        finishes_failed(d, f.caller, FlowStep::Flow, f.address_check->Err_0, f.timestamp)
    } else if f.total_amount <= 0 {
        finishes_failed(d, f.caller, FlowStep::Flow, OrchestratorError::InvalidAmount, f.timestamp)
    } else {
        match f.limit_reply {
            None => *d == FlowDecision::<RemittanceFlowResult>::Call(
                ContractCall::CheckSpendingLimit { amount: f.total_amount },
            ),
            Some(false) => finishes_failed(
                d,
                f.caller,
                FlowStep::Flow,
                OrchestratorError::SpendingLimitExceeded,
                f.timestamp,
            ),
            Some(true) => match f.allocations {
                None => *d == FlowDecision::<RemittanceFlowResult>::Call(
                    ContractCall::CalculateSplit { total_amount: f.total_amount },
                ),
                Some(a) => if !f.savings_done {
                    *d == FlowDecision::<RemittanceFlowResult>::Call(
                        ContractCall::AddToGoal { goal_id: f.goal_id, amount: allocation_or_zero(a@, 1) },
                    )
                } else if !f.bills_done {
                    *d == FlowDecision::<RemittanceFlowResult>::Call(ContractCall::PayBill { bill_id: f.bill_id })
                } else if f.premium_reply is None {
                    *d == FlowDecision::<RemittanceFlowResult>::Call(
                        ContractCall::PayPremium { policy_id: f.policy_id },
                    )
                } else {
                    finishes_completed(d, flow_result(f, a@), f.caller, f.total_amount, a@, f.timestamp)
                },
            },
        }
    }
}

fn allocation_at(a: &Vec<i128>, i: usize) -> (r: i128)
    ensures
        r == allocation_or_zero(a@, i as int),
{
    if i < a.len() {
        a[i]
    } else {
        0
    }
}

impl RemittanceFlow {
    /// Starts a remittance flow, validating its five contract addresses
    /// against each other and against `current`, the orchestrator's own.
    pub fn start(
        current: &AddressId,
        caller: AddressId,
        total_amount: i128,
        family: &AddressId,
        split: &AddressId,
        savings: &AddressId,
        bills: &AddressId,
        insurance: &AddressId,
        goal_id: u32,
        bill_id: u32,
        policy_id: u32,
        timestamp: u64,
    ) -> (f: Self)
        ensures
            f.caller == caller,
            f.total_amount == total_amount,
            f.goal_id == goal_id,
            f.bill_id == bill_id,
            f.policy_id == policy_id,
            f.timestamp == timestamp,
            f.address_check == address_check_result(
                current.strkey@,
                flow_addresses(family, split, savings, bills, insurance),
            ),
            f.limit_reply is None,
            f.allocations is None,
            !f.savings_done,
            !f.bills_done,
            f.premium_reply is None,
    {
        let address_check = Orchestrator::validate_remittance_flow_addresses(
            current,
            family,
            split,
            savings,
            bills,
            insurance,
        );
        RemittanceFlow {
            caller,
            total_amount,
            goal_id,
            bill_id,
            policy_id,
            timestamp,
            address_check,
            limit_reply: None,
            allocations: None,
            savings_done: false,
            bills_done: false,
            premium_reply: None,
        }
    }

    /// What the flow does next.
    pub fn decide(&self) -> (d: FlowDecision<RemittanceFlowResult>)
        ensures
            is_remittance_decision(self, &d),
    {
        match self.address_check {
            Err(e) => {
                return failed(&self.caller, FlowStep::Flow, e, self.timestamp);
            },
            Ok(()) => {},
        }
        if self.total_amount <= 0 {
            return failed(&self.caller, FlowStep::Flow, OrchestratorError::InvalidAmount, self.timestamp);
        }
        match self.limit_reply {
            None => FlowDecision::Call(ContractCall::CheckSpendingLimit { amount: self.total_amount }),
            Some(within) => match Orchestrator::check_spending_limit(within) {
                Err(e) => failed(&self.caller, FlowStep::Flow, e, self.timestamp),
                Ok(()) => match &self.allocations {
                    None => FlowDecision::Call(ContractCall::CalculateSplit { total_amount: self.total_amount }),
                    Some(a) => {
                        if !self.savings_done {
                            FlowDecision::Call(
                                ContractCall::AddToGoal { goal_id: self.goal_id, amount: allocation_at(a, 1) },
                            )
                        } else if !self.bills_done {
                            FlowDecision::Call(ContractCall::PayBill { bill_id: self.bill_id })
                        } else if self.premium_reply.is_none() {
                            FlowDecision::Call(ContractCall::PayPremium { policy_id: self.policy_id })
                        } else {
                            let insurance_success = match self.premium_reply {
                                Some(OperationReply::PremiumPaid(paid)) => Orchestrator::pay_insurance_premium(
                                    Ok(paid),
                                ).is_ok(),
                                Some(OperationReply::PremiumError(code)) => Orchestrator::pay_insurance_premium(
                                    Err(code),
                                ).is_ok(),
                                _ => false,
                            };
                            let result = RemittanceFlowResult {
                                total_amount: self.total_amount,
                                spending_amount: allocation_at(a, 0),
                                savings_amount: allocation_at(a, 1),
                                bills_amount: allocation_at(a, 2),
                                insurance_amount: allocation_at(a, 3),
                                savings_success: true,
                                bills_success: true,
                                insurance_success,
                                timestamp: self.timestamp,
                            };
                            let mut copy: Vec<i128> = Vec::new();
                            let n = a.len();
                            let mut i: usize = 0;
                            while i < n
                                invariant
                                    n == a@.len(),
                                    i <= n,
                                    copy@ == a@.subrange(0, i as int),
                                decreases n - i,
                            {
                                copy.push(a[i]);
                                i = i + 1;
                                assert(copy@ =~= a@.subrange(0, i as int));
                            }
                            assert(copy@ =~= a@);
                            completed(result, &self.caller, self.total_amount, copy, self.timestamp)
                        }
                    },
                },
            },
        }
    }
}

// ---------------------------------------------------------------------------
// Laws
// ---------------------------------------------------------------------------

/// Permission gate: an operation flow calls the savings, bills or insurance
/// contract only after the family wallet granted permission and confirmed
/// the spending limit, both for the operation's amount.
pub proof fn law_operation_gated_by_family_wallet(f: &OperationFlow, d: &FlowDecision<()>)
    requires
        is_operation_decision(f, d),
        d matches FlowDecision::Call(c) && !(c is CheckSpendingLimit),
    ensures
        f.permission_reply == Some(true),
        f.limit_reply == Some(true),
        d == FlowDecision::<()>::Call(operation_call(f.kind, f.target_id, f.amount)),
{
}

/// A single-operation flow never asks the split contract: its calls are the
/// two wallet queries and the one operation.
pub proof fn law_operation_never_asks_for_split(f: &OperationFlow, d: &FlowDecision<()>)
    requires
        is_operation_decision(f, d),
        d is Call,
    ensures
        !(d->Call_0 is CalculateSplit),
{
}

/// Every finished flow releases the reentrancy guard and publishes exactly
/// one event: a completion event when it succeeds, an error event carrying
/// the error's code when it fails.
pub proof fn law_finished_operation_releases_lock(f: &OperationFlow, d: &FlowDecision<()>)
    requires
        is_operation_decision(f, d),
        d is Finish,
    ensures
        d->lock == ExecutionState::Idle,
        d->result is Ok <==> d->event is Completed,
        d->result is Err ==> (d->event matches FlowEvent::Failed(ev) && ev.error_code == error_code_of(
            d->result->Err_0,
        ) && ev.caller == f.caller && ev.timestamp == f.timestamp),
{
}

/// The same for the complete remittance flow.
pub proof fn law_finished_remittance_releases_lock(f: &RemittanceFlow, d: &FlowDecision<RemittanceFlowResult>)
    requires
        is_remittance_decision(f, d),
        d is Finish,
    ensures
        d->lock == ExecutionState::Idle,
        d->result is Ok <==> d->event is Completed,
        d->result is Err ==> (d->event matches FlowEvent::Failed(ev) && ev.error_code == error_code_of(
            d->result->Err_0,
        ) && ev.failed_step == FlowStep::Flow),
{
}

/// A remittance flow with invalid addresses or a non-positive amount fails
/// before calling any contract; a flow calls the split contract and the
/// downstream contracts only once the spending limit for the total is
/// confirmed.
pub proof fn law_remittance_validates_before_calls(f: &RemittanceFlow, d: &FlowDecision<RemittanceFlowResult>)
    requires
        is_remittance_decision(f, d),
    ensures
        (f.address_check is Err || f.total_amount <= 0) ==> d is Finish && d->result is Err,
        (d matches FlowDecision::Call(c) && !(c is CheckSpendingLimit)) ==> f.limit_reply == Some(true)
            && f.address_check is Ok && f.total_amount > 0,
{
}

/// A completed remittance reports the split's allocations, a missing
/// allocation as zero, the total it was asked to split, and a successful
/// premium payment only when the insurer answered `Ok(true)`.
pub proof fn law_remittance_result_follows_split(f: &RemittanceFlow, d: &FlowDecision<RemittanceFlowResult>)
    requires
        is_remittance_decision(f, d),
        d matches FlowDecision::Finish { result, .. } && result is Ok,
    ensures
        f.allocations is Some,
        d->result->Ok_0.total_amount == f.total_amount,
        d->result->Ok_0.spending_amount == allocation_or_zero(f.allocations->Some_0@, 0),
        d->result->Ok_0.savings_amount == allocation_or_zero(f.allocations->Some_0@, 1),
        d->result->Ok_0.bills_amount == allocation_or_zero(f.allocations->Some_0@, 2),
        d->result->Ok_0.insurance_amount == allocation_or_zero(f.allocations->Some_0@, 3),
        d->result->Ok_0.savings_success && d->result->Ok_0.bills_success,
        d->result->Ok_0.insurance_success == (f.premium_reply == Some(OperationReply::PremiumPaid(true))),
{
}

/// Both wallet queries of an operation flow, the permission check and the
/// spending-limit check, are about the operation's own amount, for every
/// kind of operation: the flow asks exactly that while an answer is missing.
pub proof fn law_operation_wallet_queries_use_amount(f: &OperationFlow, d: &FlowDecision<()>)
    requires
        is_operation_decision(f, d),
    ensures
        d matches FlowDecision::Call(ContractCall::CheckSpendingLimit { amount }) ==> amount == f.amount,
        f.permission_reply is None ==> *d == FlowDecision::<()>::Call(
            ContractCall::CheckSpendingLimit { amount: f.amount },
        ),
        f.permission_reply == Some(true) && f.limit_reply is None ==> *d == FlowDecision::<()>::Call(
            ContractCall::CheckSpendingLimit { amount: f.amount },
        ),
        d matches FlowDecision::Call(ContractCall::AddToGoal { goal_id, amount }) ==> amount == f.amount
            && goal_id == f.target_id && f.kind == OperationKind::SavingsDeposit,
        d matches FlowDecision::Call(ContractCall::PayBill { bill_id }) ==> bill_id == f.target_id && f.kind
            == OperationKind::BillPayment,
        d matches FlowDecision::Call(ContractCall::PayPremium { policy_id }) ==> policy_id == f.target_id
            && f.kind == OperationKind::InsurancePayment,
{
}

/// The spending-limit query of a remittance flow is about its total.
pub proof fn law_remittance_limit_query_uses_total(f: &RemittanceFlow, d: &FlowDecision<RemittanceFlowResult>)
    requires
        is_remittance_decision(f, d),
    ensures
        d matches FlowDecision::Call(ContractCall::CheckSpendingLimit { amount }) ==> amount == f.total_amount,
        d matches FlowDecision::Call(ContractCall::CalculateSplit { total_amount }) ==> total_amount
            == f.total_amount,
{
}

/// Once the split is known, a valid remittance flow makes the three
/// downstream calls in order, each exactly once and whatever the
/// allocations: the savings deposit of the savings allocation, then the bill
/// payment, then the premium payment, and finishes only after all three.
pub proof fn law_remittance_calls_in_order(f: &RemittanceFlow, d: &FlowDecision<RemittanceFlowResult>)
    requires
        is_remittance_decision(f, d),
        f.address_check is Ok,
        f.total_amount > 0,
        f.limit_reply == Some(true),
        f.allocations is Some,
    ensures
        !f.savings_done ==> *d == FlowDecision::<RemittanceFlowResult>::Call(
            ContractCall::AddToGoal {
                goal_id: f.goal_id,
                amount: if f.allocations->Some_0@.len() > 1 { f.allocations->Some_0@[1] } else { 0 },
            },
        ),
        f.savings_done && !f.bills_done ==> *d == FlowDecision::<RemittanceFlowResult>::Call(
            ContractCall::PayBill { bill_id: f.bill_id },
        ),
        f.savings_done && f.bills_done && f.premium_reply is None ==> *d
            == FlowDecision::<RemittanceFlowResult>::Call(ContractCall::PayPremium { policy_id: f.policy_id }),
        d is Finish ==> f.savings_done && f.bills_done && f.premium_reply is Some && d->result is Ok,
{
}

/// A remittance flow completes only after the address check, a positive
/// total, a confirmed spending limit, the split, the savings deposit, the
/// bill payment and the insurer's answer to the premium payment.
pub proof fn law_completed_remittance_made_every_call(f: &RemittanceFlow, d: &FlowDecision<RemittanceFlowResult>)
    requires
        is_remittance_decision(f, d),
        d matches FlowDecision::Finish { result, .. } && result is Ok,
    ensures
        f.address_check is Ok,
        f.total_amount > 0,
        f.limit_reply == Some(true),
        f.allocations is Some,
        f.savings_done,
        f.bills_done,
        f.premium_reply is Some,
{
}

/// How an operation flow ends. A refused permission fails with
/// `PermissionDenied` at the permission check; a granted permission with an
/// exceeded limit fails with `SpendingLimitExceeded` at the limit check.
/// Once the operation's contract answered, a savings deposit or bill payment
/// succeeds, and a premium payment succeeds exactly when the insurer
/// answered `Ok(true)` (otherwise `InsurancePaymentFailed` at the insurance
/// step); a success reports the amount in the allocation slot of its kind
/// (`[spending, savings, bills, insurance]`).
pub proof fn law_operation_outcomes(f: &OperationFlow, d: &FlowDecision<()>)
    requires
        is_operation_decision(f, d),
    ensures
        f.permission_reply == Some(false) ==> (d matches FlowDecision::Finish {
            result,
            event: FlowEvent::Failed(ev),
            ..
        } && result == Err::<(), OrchestratorError>(OrchestratorError::PermissionDenied) && ev.failed_step
            == FlowStep::PermissionCheck && ev.caller == f.caller),
        f.permission_reply == Some(true) && f.limit_reply == Some(false) ==> (d matches FlowDecision::Finish {
            result,
            event: FlowEvent::Failed(ev),
            ..
        } && result == Err::<(), OrchestratorError>(OrchestratorError::SpendingLimitExceeded) && ev.failed_step
            == FlowStep::SpendingLimit && ev.caller == f.caller),
        f.permission_reply == Some(true) && f.limit_reply == Some(true) && f.operation_reply is Some ==> (
        d is Finish && (d->result is Ok <==> (f.kind != OperationKind::InsurancePayment || f.operation_reply
            == Some(OperationReply::PremiumPaid(true))))),
        f.kind == OperationKind::InsurancePayment && d is Finish && d->result is Err && f.permission_reply
            == Some(true) && f.limit_reply == Some(true) ==> (d->result == Err::<(), OrchestratorError>(OrchestratorError::InsurancePaymentFailed) && (
        d->event matches FlowEvent::Failed(ev) && ev.failed_step == FlowStep::Insurance)),
        d matches FlowDecision::Finish { result, event: FlowEvent::Completed(ev), .. } ==> result is Ok
            && ev.total_amount == f.amount && ev.caller == f.caller && ev.allocations@.len() == 4
            && ev.allocations@[0] == 0 && ev.allocations@[1] == (if f.kind == OperationKind::SavingsDeposit {
            f.amount
        } else {
            0
        }) && ev.allocations@[2] == (if f.kind == OperationKind::BillPayment {
            f.amount
        } else {
            0
        }) && ev.allocations@[3] == (if f.kind == OperationKind::InsurancePayment {
            f.amount
        } else {
            0
        }),
{
}

/// How a remittance flow ends. Invalid addresses fail with the address
/// check's error, a non-positive total with `InvalidAmount`, an exceeded
/// limit with `SpendingLimitExceeded`, all before any other call; a
/// completed flow publishes the caller, the total and exactly the split's
/// allocations.
pub proof fn law_remittance_outcomes(f: &RemittanceFlow, d: &FlowDecision<RemittanceFlowResult>)
    requires
        is_remittance_decision(f, d),
    ensures
        f.address_check is Err ==> d is Finish && d->result == Err::<RemittanceFlowResult, OrchestratorError>(
            f.address_check->Err_0,
        ),
        f.address_check is Ok && f.total_amount <= 0 ==> d is Finish && d->result == Err::<
            RemittanceFlowResult,
            OrchestratorError,
        >(OrchestratorError::InvalidAmount),
        f.address_check is Ok && f.total_amount > 0 && f.limit_reply == Some(false) ==> d is Finish && d->result
            == Err::<RemittanceFlowResult, OrchestratorError>(OrchestratorError::SpendingLimitExceeded),
        d matches FlowDecision::Finish { result, event: FlowEvent::Completed(ev), .. } ==> result is Ok
            && f.allocations is Some && ev.allocations@ == f.allocations->Some_0@ && ev.total_amount
            == f.total_amount && ev.caller == f.caller,
{
}

} // verus!
