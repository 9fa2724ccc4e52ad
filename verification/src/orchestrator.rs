//! Decision logic of the cross-contract remittance orchestrator.
//!
//! The orchestrator coordinates a remittance across the family wallet,
//! remittance split, savings goals, bill payments and insurance contracts.
//! Each operation is a flow: a value that records the replies of the
//! contracts called so far, and that decides the next contract call or the
//! final outcome (result, ledger event, released lock). The host runs the
//! flow: it performs each call and records its reply.

use vstd::prelude::*;

verus! {

// ---------------------------------------------------------------------------
// Errors, addresses, execution state
// ---------------------------------------------------------------------------

/// Orchestrator errors; `code` gives each its contract error number.
#[derive(Copy, Clone, Debug, PartialEq, Eq, Structural)]
pub enum OrchestratorError {
    PermissionDenied,
    SpendingLimitExceeded,
    SavingsDepositFailed,
    BillPaymentFailed,
    InsurancePaymentFailed,
    RemittanceSplitFailed,
    InvalidAmount,
    InvalidContractAddress,
    CrossContractCallFailed,
    ReentrancyDetected,
    DuplicateContractAddress,
    ContractNotConfigured,
    SelfReferenceNotAllowed,
}

/// The contract error number of an error.
pub open spec fn error_code_of(e: OrchestratorError) -> u32 {
    match e {
        OrchestratorError::PermissionDenied => 1,
        OrchestratorError::SpendingLimitExceeded => 2,
        OrchestratorError::SavingsDepositFailed => 3,
        OrchestratorError::BillPaymentFailed => 4,
        OrchestratorError::InsurancePaymentFailed => 5,
        OrchestratorError::RemittanceSplitFailed => 6,
        OrchestratorError::InvalidAmount => 7,
        OrchestratorError::InvalidContractAddress => 8,
        OrchestratorError::CrossContractCallFailed => 9,
        OrchestratorError::ReentrancyDetected => 10,
        OrchestratorError::DuplicateContractAddress => 11,
        OrchestratorError::ContractNotConfigured => 12,
        OrchestratorError::SelfReferenceNotAllowed => 13,
    }
}

impl OrchestratorError {
    /// The contract error number of this error.
    pub fn code(&self) -> (c: u32)
        ensures
            c == error_code_of(*self),
    {
        match self {
            OrchestratorError::PermissionDenied => 1,
            OrchestratorError::SpendingLimitExceeded => 2,
            OrchestratorError::SavingsDepositFailed => 3,
            OrchestratorError::BillPaymentFailed => 4,
            OrchestratorError::InsurancePaymentFailed => 5,
            OrchestratorError::RemittanceSplitFailed => 6,
            OrchestratorError::InvalidAmount => 7,
            OrchestratorError::InvalidContractAddress => 8,
            OrchestratorError::CrossContractCallFailed => 9,
            OrchestratorError::ReentrancyDetected => 10,
            OrchestratorError::DuplicateContractAddress => 11,
            OrchestratorError::ContractNotConfigured => 12,
            OrchestratorError::SelfReferenceNotAllowed => 13,
        }
    }
}

/// A contract or account address, by its strkey text.
#[derive(Debug)]
pub struct AddressId {
    pub strkey: String,
}

impl AddressId {
    /// A copy of this address.
    pub fn duplicate(&self) -> (r: Self)
        ensures
            r == *self,
    {
        AddressId { strkey: self.strkey.clone() }
    }

    /// Whether two addresses are the same.
    pub fn same_as(&self, other: &AddressId) -> (r: bool)
        ensures
            r == (self.strkey@ == other.strkey@),
    {
        self.strkey == other.strkey
    }
}

/// Reentrancy guard state.
#[derive(Copy, Clone, Debug, PartialEq, Eq, Structural)]
pub enum ExecutionState {
    Idle,
    Executing,
}

/// Execution statistics kept by the orchestrator.
#[derive(Copy, Clone, Debug, PartialEq, Eq, Structural)]
pub struct ExecutionStats {
    pub total_flows_executed: u64,
    pub total_flows_failed: u64,
    pub total_amount_processed: i128,
    pub last_execution: u64,
}

/// The outcome of a complete remittance flow.
#[derive(Copy, Clone, Debug, PartialEq, Eq, Structural)]
pub struct RemittanceFlowResult {
    pub total_amount: i128,
    pub spending_amount: i128,
    pub savings_amount: i128,
    pub bills_amount: i128,
    pub insurance_amount: i128,
    pub savings_success: bool,
    pub bills_success: bool,
    pub insurance_success: bool,
    pub timestamp: u64,
}

/// The step of a flow that an error event names.
#[derive(Copy, Clone, Debug, PartialEq, Eq, Structural)]
pub enum FlowStep {
    PermissionCheck,
    SpendingLimit,
    Savings,
    Bills,
    Insurance,
    Flow,
}

/// The short symbol under which an error event names a step.
pub open spec fn step_symbol_text(s: FlowStep) -> Seq<char> {
    match s {
        FlowStep::PermissionCheck => "perm_chk"@,
        FlowStep::SpendingLimit => "spend_lm"@,
        FlowStep::Savings => "savings"@,
        FlowStep::Bills => "bills"@,
        FlowStep::Insurance => "insuranc"@,
        FlowStep::Flow => "flow"@,
    }
}

impl FlowStep {
    /// The short symbol under which an error event names this step.
    pub fn symbol(&self) -> (r: &'static str)
        ensures
            r@ == step_symbol_text(*self),
    {
        match self {
            FlowStep::PermissionCheck => "perm_chk",
            FlowStep::SpendingLimit => "spend_lm",
            FlowStep::Savings => "savings",
            FlowStep::Bills => "bills",
            FlowStep::Insurance => "insuranc",
            FlowStep::Flow => "flow",
        }
    }
}

/// Event published when a flow completes.
#[derive(Debug)]
pub struct RemittanceFlowEvent {
    pub caller: AddressId,
    pub total_amount: i128,
    pub allocations: Vec<i128>,
    pub timestamp: u64,
}

/// Event published when a flow fails.
#[derive(Debug)]
pub struct RemittanceFlowErrorEvent {
    pub caller: AddressId,
    pub failed_step: FlowStep,
    pub error_code: u32,
    pub timestamp: u64,
}

/// One entry of the orchestrator's audit log.
#[derive(Debug)]
pub struct OrchestratorAuditEntry {
    pub caller: AddressId,
    pub operation: String,
    pub amount: i128,
    pub success: bool,
    pub timestamp: u64,
    pub error_code: Option<u32>,
}

impl OrchestratorAuditEntry {
    /// A copy of this entry.
    pub fn duplicate(&self) -> (r: Self)
        ensures
            r == *self,
    {
        OrchestratorAuditEntry {
            caller: self.caller.duplicate(),
            operation: self.operation.clone(),
            amount: self.amount,
            success: self.success,
            timestamp: self.timestamp,
            error_code: self.error_code,
        }
    }
}

// ---------------------------------------------------------------------------
// Orchestrator decisions
// ---------------------------------------------------------------------------

/// The cross-contract orchestrator.
pub struct Orchestrator;

/// The state stored for the reentrancy guard, `Idle` when none is stored.
pub open spec fn stored_state_or_idle(stored: Option<ExecutionState>) -> ExecutionState {
    match stored {
        Some(s) => s,
        None => ExecutionState::Idle,
    }
}

/// The statistics before any flow has run.
pub open spec fn zero_stats() -> ExecutionStats {
    ExecutionStats { total_flows_executed: 0, total_flows_failed: 0, total_amount_processed: 0, last_execution: 0 }
}

/// The end (exclusive) of an audit-log page: `from_index + limit`,
/// saturating at `u32::MAX`, and at most the log length.
pub open spec fn audit_page_end(len: nat, from_index: u32, limit: u32) -> nat {
    let wanted: nat = if from_index + limit > u32::MAX { u32::MAX as nat } else { (from_index + limit) as nat };
    if wanted < len { wanted } else { len }
}

/// The page of the audit log `log` from `from_index` to its end.
pub open spec fn audit_page(log: Seq<OrchestratorAuditEntry>, from_index: u32, limit: u32) -> Seq<
    OrchestratorAuditEntry,
> {
    if from_index < audit_page_end(log.len(), from_index, limit) {
        log.subrange(from_index as int, audit_page_end(log.len(), from_index, limit) as int)
    } else {
        Seq::<OrchestratorAuditEntry>::empty()
    }
}

/// Whether five remittance-flow contract addresses are all different.
pub open spec fn addresses_distinct(a: Seq<Seq<char>>) -> bool {
    forall|i: int, j: int| 0 <= i < j < a.len() ==> a[i] != a[j]
}

/// The outcome of validating the five contract addresses of a remittance
/// flow against each other and against the orchestrator's own address.
pub open spec fn address_check_result(current: Seq<char>, a: Seq<Seq<char>>) -> Result<(), OrchestratorError> {
    if a.contains(current) {
        Err(OrchestratorError::SelfReferenceNotAllowed)
    } else if !addresses_distinct(a) {
        Err(OrchestratorError::DuplicateContractAddress)
    } else {
        Ok(())
    }
}

/// The addresses of a remittance flow in order: family wallet, remittance
/// split, savings, bills, insurance.
pub open spec fn flow_addresses(
    family: &AddressId,
    split: &AddressId,
    savings: &AddressId,
    bills: &AddressId,
    insurance: &AddressId,
) -> Seq<Seq<char>> {
    seq![family.strkey@, split.strkey@, savings.strkey@, bills.strkey@, insurance.strkey@]
}

impl Orchestrator {
    /// Reentrancy guard: an idle orchestrator becomes executing; one that is
    /// already executing refuses.
    pub fn acquire_execution_lock(state: ExecutionState) -> (r: Result<ExecutionState, OrchestratorError>)
        ensures
            state == ExecutionState::Executing ==> r == Err::<ExecutionState, OrchestratorError>(
                OrchestratorError::ReentrancyDetected,
            ),
            state == ExecutionState::Idle ==> r == Ok::<ExecutionState, OrchestratorError>(
                ExecutionState::Executing,
            ),
    {
        match state {
            ExecutionState::Executing => Err(OrchestratorError::ReentrancyDetected),
            ExecutionState::Idle => Ok(ExecutionState::Executing),
        }
    }

    /// Reentrancy guard: the state after a flow ends.
    pub fn release_execution_lock() -> (s: ExecutionState)
        ensures
            s == ExecutionState::Idle,
    {
        ExecutionState::Idle
    }

    /// The current reentrancy-guard state from what storage holds.
    pub fn get_execution_state(stored: Option<ExecutionState>) -> (s: ExecutionState)
        ensures
            s == stored_state_or_idle(stored),
    {
        match stored {
            Some(s) => s,
            None => ExecutionState::Idle,
        }
    }

    /// The execution statistics from what storage holds, zero when nothing is stored.
    pub fn get_execution_stats(stored: Option<ExecutionStats>) -> (s: ExecutionStats)
        ensures
            s == match stored {
                Some(st) => st,
                None => zero_stats(),
            },
    {
        match stored {
            Some(st) => st,
            None => ExecutionStats {
                total_flows_executed: 0,
                total_flows_failed: 0,
                total_amount_processed: 0,
                last_execution: 0,
            },
        }
    }

    /// A page of the audit log: the entries from `from_index` up to
    /// `from_index + limit` (saturating), as far as the log goes.
    pub fn get_audit_log(log: &Vec<OrchestratorAuditEntry>, from_index: u32, limit: u32) -> (r: Vec<
        OrchestratorAuditEntry,
    >)
        requires
            log@.len() <= u32::MAX,
        ensures
            r@ == audit_page(log@, from_index, limit),
    {
        let len = log.len() as u32;
        let end = if from_index.saturating_add(limit) < len {
            from_index.saturating_add(limit)
        } else {
            len
        };
        let mut out: Vec<OrchestratorAuditEntry> = Vec::new();
        if from_index >= end {
            return out;
        }
        let mut i = from_index;
        while i < end
            invariant
                end <= len,
                len == log@.len(),
                end == audit_page_end(log@.len(), from_index, limit),
                from_index <= i <= end,
                out@ == log@.subrange(from_index as int, i as int),
            decreases end - i,
        {
            let e = log[i as usize].duplicate();
            out.push(e);
            i = i + 1;
            assert(out@ =~= log@.subrange(from_index as int, i as int));
        }
        out
    }

    /// The permission gate: the family wallet's answer for the caller and amount.
    pub fn check_family_wallet_permission(has_permission: bool) -> (r: Result<bool, OrchestratorError>)
        ensures
            has_permission ==> r == Ok::<bool, OrchestratorError>(true),
            !has_permission ==> r == Err::<bool, OrchestratorError>(OrchestratorError::PermissionDenied),
    {
        if has_permission {
            Ok(true)
        } else {
            Err(OrchestratorError::PermissionDenied)
        }
    }

    /// The spending-limit check: the family wallet's answer for the amount.
    pub fn check_spending_limit(within_limit: bool) -> (r: Result<(), OrchestratorError>)
        ensures
            within_limit ==> r == Ok::<(), OrchestratorError>(()),
            !within_limit ==> r == Err::<(), OrchestratorError>(OrchestratorError::SpendingLimitExceeded),
    {
        if within_limit {
            Ok(())
        } else {
            Err(OrchestratorError::SpendingLimitExceeded)
        }
    }

    /// The insurance contract's reply to a premium payment: paid only when
    /// it answered `Ok(true)`.
    pub fn pay_insurance_premium(reply: Result<bool, u32>) -> (r: Result<(), OrchestratorError>)
        ensures
            reply == Ok::<bool, u32>(true) ==> r == Ok::<(), OrchestratorError>(()),
            reply != Ok::<bool, u32>(true) ==> r == Err::<(), OrchestratorError>(
                OrchestratorError::InsurancePaymentFailed,
            ),
    {
        match reply {
            Ok(success) => {
                if success {
                    Ok(())
                } else {
                    Err(OrchestratorError::InsurancePaymentFailed)
                }
            },
            Err(_) => Err(OrchestratorError::InsurancePaymentFailed),
        }
    }

    /// Validate that all remittance flow contract addresses are distinct and
    /// do not reference the orchestrator itself (self-reference is reported
    /// first).
    pub fn validate_remittance_flow_addresses(
        current: &AddressId,
        family: &AddressId,
        split: &AddressId,
        savings: &AddressId,
        bills: &AddressId,
        insurance: &AddressId,
    ) -> (r: Result<(), OrchestratorError>)
        ensures
            r == address_check_result(current.strkey@, flow_addresses(family, split, savings, bills, insurance)),
    {
        let ghost a = flow_addresses(family, split, savings, bills, insurance);
        if family.same_as(current) || split.same_as(current) || savings.same_as(current) || bills.same_as(current)
            || insurance.same_as(current) {
            proof {
                if family.strkey@ == current.strkey@ {
                    assert(a[0] == current.strkey@);
                } else if split.strkey@ == current.strkey@ {
                    assert(a[1] == current.strkey@);
                } else if savings.strkey@ == current.strkey@ {
                    assert(a[2] == current.strkey@);
                } else if bills.strkey@ == current.strkey@ {
                    assert(a[3] == current.strkey@);
                } else {
                    assert(a[4] == current.strkey@);
                }
            }
            return Err(OrchestratorError::SelfReferenceNotAllowed);
        }
        assert(!a.contains(current.strkey@)) by {
            if a.contains(current.strkey@) {
                let i = choose|i: int| 0 <= i < a.len() && a[i] == current.strkey@;
                assert(0 <= i < 5);
            }
        }
        if family.same_as(split) || family.same_as(savings) || family.same_as(bills) || family.same_as(insurance)
            || split.same_as(savings) || split.same_as(bills) || split.same_as(insurance)
            || savings.same_as(bills) || savings.same_as(insurance) || bills.same_as(insurance) {
            return Err(OrchestratorError::DuplicateContractAddress);
        }
        assert(addresses_distinct(a)) by {
            assert forall|i: int, j: int| 0 <= i < j < a.len() implies a[i] != a[j] by {
                assert(0 <= i < j < 5);
            }
        }
        Ok(())
    }
}

// ---------------------------------------------------------------------------
// Laws
// ---------------------------------------------------------------------------

/// The address check of a remittance flow succeeds exactly when none of the
/// five contract addresses is the orchestrator's own and no two of them are
/// the same. An address equal to the orchestrator's is reported as
/// `SelfReferenceNotAllowed`; otherwise any two equal addresses, whichever
/// they are, as `DuplicateContractAddress`.
pub proof fn law_address_check(
    current: &AddressId,
    family: &AddressId,
    split: &AddressId,
    savings: &AddressId,
    bills: &AddressId,
    insurance: &AddressId,
)
    ensures
        ({
            let r = address_check_result(current.strkey@, flow_addresses(family, split, savings, bills, insurance));
            let (c, f, sp, sa, b, i) = (
                current.strkey@,
                family.strkey@,
                split.strkey@,
                savings.strkey@,
                bills.strkey@,
                insurance.strkey@,
            );
            let self_ref = c == f || c == sp || c == sa || c == b || c == i;
            let dup = f == sp || f == sa || f == b || f == i || sp == sa || sp == b || sp == i || sa == b
                || sa == i || b == i;
            &&& r is Ok <==> !self_ref && !dup
            &&& self_ref ==> r == Err::<(), OrchestratorError>(OrchestratorError::SelfReferenceNotAllowed)
            &&& !self_ref && dup ==> r == Err::<(), OrchestratorError>(
                OrchestratorError::DuplicateContractAddress,
            )
        }),
{
    let a = flow_addresses(family, split, savings, bills, insurance);
    let c = current.strkey@;
    if a.contains(c) {
        let k = choose|k: int| 0 <= k < a.len() && a[k] == c;
        assert(0 <= k < 5);
    } else {
        assert(a[0] != c && a[1] != c && a[2] != c && a[3] != c && a[4] != c);
    }
    if !addresses_distinct(a) {
        let (k, l) = choose|k: int, l: int| 0 <= k < l < a.len() && a[k] == a[l];
        assert(0 <= k < l < 5);
    } else {
        assert(a[0] != a[1] && a[0] != a[2] && a[0] != a[3] && a[0] != a[4]);
        assert(a[1] != a[2] && a[1] != a[3] && a[1] != a[4]);
        assert(a[2] != a[3] && a[2] != a[4] && a[3] != a[4]);
    }
}

/// A page of the audit log holds the entries from `from_index` on, in log
/// order, at most `limit` of them: exactly `limit` when the log reaches that
/// far, the rest of the log when it does not, none when `from_index` is past
/// its end.
pub proof fn law_audit_page(log: Seq<OrchestratorAuditEntry>, from_index: u32, limit: u32)
    requires
        log.len() <= u32::MAX,
    ensures
        ({
            let page = audit_page(log, from_index, limit);
            &&& page.len() <= limit
            &&& forall|k: int| 0 <= k < page.len() ==> #[trigger] page[k] == log[from_index + k]
            &&& from_index + limit <= log.len() ==> page.len() == limit
            &&& from_index < log.len() < from_index + limit ==> page.len() == log.len() - from_index
            &&& from_index >= log.len() ==> page.len() == 0
        }),
{
}

} // verus!
