use vstd::prelude::*;
use crate::errors::AppError;

verus! {

/// Compute units requested when a priority fee is paid.
pub const COMPUTE_UNIT_LIMIT: u32 = 200_000;
/// Micro-units of the fee currency in one unit.
pub const MICRO_PER_UNIT: u64 = 1_000_000;

/// The three kinds of zero-knowledge proof that a staging account can hold.
#[derive(Clone, Copy, Debug, PartialEq, Eq, Structural)]
pub enum ProofKind {
    Equality,
    CiphertextValidity,
    Range,
}

/// Where a staging account stands in its life.
#[derive(Clone, Copy, Debug, PartialEq, Eq, Structural)]
pub enum ContextState {
    Allocated,
    Verified,
    Consumed,
    Closed,
}

/// One instruction of a planned transaction.
#[derive(Clone, Copy, Debug, PartialEq, Eq, Structural)]
pub enum PlannedInstruction {
    /// Sets the compute-unit limit of the transaction.
    SetComputeUnitLimit { units: u32 },
    /// Sets the price of a compute unit, in micro-units of the fee currency.
    SetComputeUnitPrice { micro_lamports: u64 },
    /// Creates the staging account of a proof, paid by the operation's owner
    /// and owned by the proof-verification program.
    CreateContextAccount { kind: ProofKind, lamports: u64, space: u64 },
    /// Verifies a proof into its staging account.
    VerifyProof { kind: ProofKind },
    /// The confidential transfer, reading its proofs from the three staging
    /// accounts.
    Transfer,
    /// The confidential withdrawal, reading its proofs from the equality and
    /// range staging accounts.
    Withdraw,
    /// Closes a staging account and returns its rent to the owner.
    CloseContextAccount { kind: ProofKind },
}

/// One planned transaction: its instructions in order, and the staging
/// accounts whose own keys must sign it besides the wallet.
#[derive(Debug, PartialEq, Eq)]
pub struct PlannedTransaction {
    pub instructions: Vec<PlannedInstruction>,
    pub cosigners: Vec<ProofKind>,
}

/// Rent and size of the staging account of each proof.
#[derive(Clone, Copy, Debug, PartialEq, Eq, Structural)]
pub struct StagingCost {
    pub lamports: u64,
    pub space: u64,
}

/// The instruction uses the staging account of `k`.
pub open spec fn references(i: PlannedInstruction, k: ProofKind) -> bool {
    match i {
        PlannedInstruction::CreateContextAccount { kind, .. } => kind == k,
        PlannedInstruction::VerifyProof { kind } => kind == k,
        PlannedInstruction::CloseContextAccount { kind } => kind == k,
        PlannedInstruction::Transfer => true,
        PlannedInstruction::Withdraw => k != ProofKind::CiphertextValidity,
        _ => false,
    }
}

/// The instruction creates the staging account of `k`.
pub open spec fn creates(i: PlannedInstruction, k: ProofKind) -> bool {
    match i {
        PlannedInstruction::CreateContextAccount { kind, .. } => kind == k,
        _ => false,
    }
}

/// The state of the staging account of `k` after `i`, from `s` (`None`: it
/// does not exist yet), or `None` where `i` is not allowed in state `s`.
pub open spec fn step(s: Option<ContextState>, i: PlannedInstruction, k: ProofKind) -> Option<
    Option<ContextState>,
> {
    if !references(i, k) {
        Some(s)
    } else {
        match (i, s) {
            (PlannedInstruction::CreateContextAccount { .. }, None) => Some(
                Some(ContextState::Allocated),
            ),
            (PlannedInstruction::VerifyProof { .. }, Some(ContextState::Allocated)) => Some(
                Some(ContextState::Verified),
            ),
            (PlannedInstruction::Transfer, Some(ContextState::Verified)) => Some(
                Some(ContextState::Consumed),
            ),
            (PlannedInstruction::Withdraw, Some(ContextState::Verified)) => Some(
                Some(ContextState::Consumed),
            ),
            (PlannedInstruction::CloseContextAccount { .. }, Some(ContextState::Consumed)) => Some(
                Some(ContextState::Closed),
            ),
            _ => None,
        }
    }
}

/// The state of the staging account of `k` after the instructions of `is`
/// from position `i` on, in order, from `s`; `None` where one of them is not
/// allowed.
pub open spec fn run_from(
    s: Option<ContextState>,
    is: Seq<PlannedInstruction>,
    i: int,
    k: ProofKind,
) -> Option<Option<ContextState>>
    decreases is.len() - i,
{
    if !(0 <= i < is.len()) {
        Some(s)
    } else {
        match step(s, is[i], k) {
            Some(t) => run_from(t, is, i + 1, k),
            None => None,
        }
    }
}

/// The instructions of a batch, in the order in which they run.
pub open spec fn flatten(txs: Seq<Seq<PlannedInstruction>>) -> Seq<PlannedInstruction>
    decreases txs.len(),
{
    if txs.len() == 0 {
        Seq::empty()
    } else {
        flatten(txs.drop_last()) + txs.last()
    }
}

/// The instructions of each planned transaction.
pub open spec fn instructions_of(txs: Seq<PlannedTransaction>) -> Seq<Seq<PlannedInstruction>> {
    txs.map_values(|t: PlannedTransaction| t.instructions@)
}

/// Every staging account that a later transaction uses is created in the
/// first one.
pub open spec fn created_first(txs: Seq<Seq<PlannedInstruction>>) -> bool {
    forall|t: int, j: int, k: ProofKind|
        1 <= t < txs.len() && 0 <= j < txs[t].len() && #[trigger] references(txs[t][j], k)
            ==> exists|c: int| 0 <= c < txs[0].len() && #[trigger] creates(txs[0][c], k)
}

/// Run in order, the batch takes the staging account of `k` from nothing
/// through allocation, verification and use to closing.
pub open spec fn lifecycle_complete(txs: Seq<Seq<PlannedInstruction>>, k: ProofKind) -> bool {
    run_from(None, flatten(txs), 0, k) == Some(Some(ContextState::Closed))
}

/// The priority-fee instructions for a fee, in micro-units per compute unit.
pub open spec fn fee_prefix(fee: u64) -> Seq<PlannedInstruction> {
    if fee == 0 {
        Seq::empty()
    } else {
        seq![
            PlannedInstruction::SetComputeUnitLimit { units: COMPUTE_UNIT_LIMIT },
            PlannedInstruction::SetComputeUnitPrice {
                micro_lamports: (fee as int * MICRO_PER_UNIT as int / COMPUTE_UNIT_LIMIT as int) as u64,
            },
        ]
    }
}

/// The five transactions of a confidential transfer.
pub open spec fn transfer_plan(
    fee: u64,
    equality: StagingCost,
    validity: StagingCost,
    range: StagingCost,
) -> Seq<Seq<PlannedInstruction>> {
    seq![
        fee_prefix(fee) + seq![
            PlannedInstruction::CreateContextAccount {
                kind: ProofKind::Range,
                lamports: range.lamports,
                space: range.space,
            },
            PlannedInstruction::CreateContextAccount {
                kind: ProofKind::Equality,
                lamports: equality.lamports,
                space: equality.space,
            },
            PlannedInstruction::CreateContextAccount {
                kind: ProofKind::CiphertextValidity,
                lamports: validity.lamports,
                space: validity.space,
            },
        ],
        seq![PlannedInstruction::VerifyProof { kind: ProofKind::Range }],
        seq![
            PlannedInstruction::VerifyProof { kind: ProofKind::Equality },
            PlannedInstruction::VerifyProof { kind: ProofKind::CiphertextValidity },
        ],
        seq![PlannedInstruction::Transfer],
        seq![
            PlannedInstruction::CloseContextAccount { kind: ProofKind::Equality },
            PlannedInstruction::CloseContextAccount { kind: ProofKind::CiphertextValidity },
            PlannedInstruction::CloseContextAccount { kind: ProofKind::Range },
        ],
    ]
}

/// The four transactions of a confidential withdrawal.
pub open spec fn withdraw_plan(equality: StagingCost, range: StagingCost) -> Seq<
    Seq<PlannedInstruction>,
> {
    seq![
        seq![
            PlannedInstruction::CreateContextAccount {
                kind: ProofKind::Equality,
                lamports: equality.lamports,
                space: equality.space,
            },
            PlannedInstruction::VerifyProof { kind: ProofKind::Equality },
            PlannedInstruction::CreateContextAccount {
                kind: ProofKind::Range,
                lamports: range.lamports,
                space: range.space,
            },
        ],
        seq![PlannedInstruction::VerifyProof { kind: ProofKind::Range }],
        seq![PlannedInstruction::Withdraw],
        seq![
            PlannedInstruction::CloseContextAccount { kind: ProofKind::Equality },
            PlannedInstruction::CloseContextAccount { kind: ProofKind::Range },
        ],
    ]
}

/// A fee is small enough that its price per compute unit can be computed.
pub open spec fn fee_in_range(fee: u64) -> bool {
    fee as int * MICRO_PER_UNIT as int <= u64::MAX as int
}

/// The instructions that set the compute budget for a priority fee: none for
/// a zero fee, else a unit limit and the fee spread over that many units.
pub fn priority_fee_instructions(fee: u64) -> (r: Result<Vec<PlannedInstruction>, AppError>)
    ensures
        fee_in_range(fee) ==> r is Ok && r->Ok_0@ == fee_prefix(fee),
        !fee_in_range(fee) ==> r == Err::<Vec<PlannedInstruction>, AppError>(
            AppError::InvalidAmount,
        ),
{
    let mut out: Vec<PlannedInstruction> = Vec::new();
    if fee == 0 {
        assert(out@ =~= fee_prefix(fee));
        return Ok(out);
    }
    if fee > u64::MAX / MICRO_PER_UNIT {
        return Err(AppError::InvalidAmount);
    }
    let micro_lamports = fee * MICRO_PER_UNIT / (COMPUTE_UNIT_LIMIT as u64);
    out.push(PlannedInstruction::SetComputeUnitLimit { units: COMPUTE_UNIT_LIMIT });
    out.push(PlannedInstruction::SetComputeUnitPrice { micro_lamports });
    assert(out@ =~= fee_prefix(fee));
    Ok(out)
}

/// Plans a confidential transfer as five transactions, to be submitted in
/// order: create the three staging accounts (after any priority-fee
/// instructions; signed also by the staging accounts' own keys), verify the
/// range proof alone, verify the equality and ciphertext-validity proofs,
/// transfer, and close the three staging accounts.
pub fn plan_transfer(
    fee: u64,
    equality: StagingCost,
    validity: StagingCost,
    range: StagingCost,
) -> (r: Result<Vec<PlannedTransaction>, AppError>)
    ensures
        fee_in_range(fee) ==> r is Ok,
        !fee_in_range(fee) ==> r == Err::<Vec<PlannedTransaction>, AppError>(
            AppError::InvalidAmount,
        ),
        r matches Ok(txs) ==> {
            &&& instructions_of(txs@) == transfer_plan(fee, equality, validity, range)
            &&& txs@[0].cosigners@ == seq![
                ProofKind::Range,
                ProofKind::Equality,
                ProofKind::CiphertextValidity,
            ]
            &&& forall|t: int| 1 <= t < txs@.len() ==> (#[trigger] txs@[t]).cosigners@.len() == 0
        },
{
    let mut first = match priority_fee_instructions(fee) {
        Ok(v) => v,
        Err(e) => return Err(e),
    };
    first.push(
        PlannedInstruction::CreateContextAccount {
            kind: ProofKind::Range,
            lamports: range.lamports,
            space: range.space,
        },
    );
    first.push(
        PlannedInstruction::CreateContextAccount {
            kind: ProofKind::Equality,
            lamports: equality.lamports,
            space: equality.space,
        },
    );
    first.push(
        PlannedInstruction::CreateContextAccount {
            kind: ProofKind::CiphertextValidity,
            lamports: validity.lamports,
            space: validity.space,
        },
    );
    let tx1 = PlannedTransaction {
        instructions: first,
        cosigners: vec![ProofKind::Range, ProofKind::Equality, ProofKind::CiphertextValidity],
    };
    let tx2 = PlannedTransaction {
        instructions: vec![PlannedInstruction::VerifyProof { kind: ProofKind::Range }],
        cosigners: Vec::new(),
    };
    let tx3 = PlannedTransaction {
        instructions: vec![
            PlannedInstruction::VerifyProof { kind: ProofKind::Equality },
            PlannedInstruction::VerifyProof { kind: ProofKind::CiphertextValidity },
        ],
        cosigners: Vec::new(),
    };
    let tx4 = PlannedTransaction {
        instructions: vec![PlannedInstruction::Transfer],
        cosigners: Vec::new(),
    };
    let tx5 = PlannedTransaction {
        instructions: vec![
            PlannedInstruction::CloseContextAccount { kind: ProofKind::Equality },
            PlannedInstruction::CloseContextAccount { kind: ProofKind::CiphertextValidity },
            PlannedInstruction::CloseContextAccount { kind: ProofKind::Range },
        ],
        cosigners: Vec::new(),
    };
    let ghost plan = transfer_plan(fee, equality, validity, range);
    assert(tx1.instructions@ =~= plan[0]);
    assert(tx2.instructions@ =~= plan[1]);
    assert(tx3.instructions@ =~= plan[2]);
    assert(tx4.instructions@ =~= plan[3]);
    assert(tx5.instructions@ =~= plan[4]);
    let txs = vec![tx1, tx2, tx3, tx4, tx5];
    assert(instructions_of(txs@) =~= plan);
    Ok(txs)
}

/// Plans a confidential withdrawal as four transactions, to be submitted in
/// order: create the equality staging account and verify into it, and create
/// the range staging account (signed also by both staging accounts' keys);
/// verify the range proof; withdraw; close both staging accounts.
pub fn plan_withdraw(equality: StagingCost, range: StagingCost) -> (r: Vec<PlannedTransaction>)
    ensures
        instructions_of(r@) == withdraw_plan(equality, range),
        r@[0].cosigners@ == seq![ProofKind::Range, ProofKind::Equality],
        forall|t: int| 1 <= t < r@.len() ==> (#[trigger] r@[t]).cosigners@.len() == 0,
{
    let tx1 = PlannedTransaction {
        instructions: vec![
            PlannedInstruction::CreateContextAccount {
                kind: ProofKind::Equality,
                lamports: equality.lamports,
                space: equality.space,
            },
            PlannedInstruction::VerifyProof { kind: ProofKind::Equality },
            PlannedInstruction::CreateContextAccount {
                kind: ProofKind::Range,
                lamports: range.lamports,
                space: range.space,
            },
        ],
        cosigners: vec![ProofKind::Range, ProofKind::Equality],
    };
    let tx2 = PlannedTransaction {
        instructions: vec![PlannedInstruction::VerifyProof { kind: ProofKind::Range }],
        cosigners: Vec::new(),
    };
    let tx3 = PlannedTransaction {
        instructions: vec![PlannedInstruction::Withdraw],
        cosigners: Vec::new(),
    };
    let tx4 = PlannedTransaction {
        instructions: vec![
            PlannedInstruction::CloseContextAccount { kind: ProofKind::Equality },
            PlannedInstruction::CloseContextAccount { kind: ProofKind::Range },
        ],
        cosigners: Vec::new(),
    };
    let ghost plan = withdraw_plan(equality, range);
    assert(tx1.instructions@ =~= plan[0]);
    assert(tx2.instructions@ =~= plan[1]);
    assert(tx3.instructions@ =~= plan[2]);
    assert(tx4.instructions@ =~= plan[3]);
    let txs = vec![tx1, tx2, tx3, tx4];
    assert(instructions_of(txs@) =~= plan);
    txs
}

/// The five transactions of a transfer are ordered: each staging account
/// that a later transaction uses is created in the first, and run in order
/// the batch takes each of the three staging accounts through allocation,
/// verification, use and closing.
pub proof fn lemma_transfer_plan_ordered(
    fee: u64,
    equality: StagingCost,
    validity: StagingCost,
    range: StagingCost,
)
    ensures
        transfer_plan(fee, equality, validity, range).len() == 5,
        created_first(transfer_plan(fee, equality, validity, range)),
        lifecycle_complete(transfer_plan(fee, equality, validity, range), ProofKind::Equality),
        lifecycle_complete(
            transfer_plan(fee, equality, validity, range),
            ProofKind::CiphertextValidity,
        ),
        lifecycle_complete(transfer_plan(fee, equality, validity, range), ProofKind::Range),
{
    let plan = transfer_plan(fee, equality, validity, range);
    let p = fee_prefix(fee);
    let n = p.len() as int;
    assert(plan[0][n] == PlannedInstruction::CreateContextAccount {
        kind: ProofKind::Range,
        lamports: range.lamports,
        space: range.space,
    });
    assert(creates(plan[0][n], ProofKind::Range));
    assert(creates(plan[0][n + 1], ProofKind::Equality));
    assert(creates(plan[0][n + 2], ProofKind::CiphertextValidity));
    assert forall|t: int, j: int, k: ProofKind|
        1 <= t < plan.len() && 0 <= j < plan[t].len() && #[trigger] references(plan[t][j], k)
        implies exists|c: int| 0 <= c < plan[0].len() && #[trigger] creates(plan[0][c], k) by {
        match k {
            ProofKind::Range => assert(creates(plan[0][n], k)),
            ProofKind::Equality => assert(creates(plan[0][n + 1], k)),
            ProofKind::CiphertextValidity => assert(creates(plan[0][n + 2], k)),
        }
    }
    reveal_with_fuel(flatten, 6);
    let f = flatten(plan);
    assert(plan.drop_last().drop_last().drop_last().drop_last().drop_last() =~= Seq::<
        Seq<PlannedInstruction>,
    >::empty());
    assert(f =~= plan[0] + plan[1] + plan[2] + plan[3] + plan[4]);
    assert(f.len() == n + 10);
    assert forall|i: int| 0 <= i < n implies !references(#[trigger] f[i], ProofKind::Range)
        && !references(f[i], ProofKind::Equality) && !references(
        f[i],
        ProofKind::CiphertextValidity,
    ) by {
        assert(f[i] == p[i]);
    }
    lemma_run_skips_prefix(f, n, ProofKind::Range);
    lemma_run_skips_prefix(f, n, ProofKind::Equality);
    lemma_run_skips_prefix(f, n, ProofKind::CiphertextValidity);
    reveal_with_fuel(run_from, 12);
    assert(f[n] == plan[0][n]);
    assert(f[n + 1] == plan[0][n + 1]);
    assert(f[n + 2] == plan[0][n + 2]);
    assert(f[n + 3] == plan[1][0]);
    assert(f[n + 4] == plan[2][0]);
    assert(f[n + 5] == plan[2][1]);
    assert(f[n + 6] == plan[3][0]);
    assert(f[n + 7] == plan[4][0]);
    assert(f[n + 8] == plan[4][1]);
    assert(f[n + 9] == plan[4][2]);
}

/// The four transactions of a withdrawal are ordered: each staging account
/// that a later transaction uses is created in the first, run in order the
/// batch takes the equality and range staging accounts through allocation,
/// verification, use and closing, and no instruction uses a
/// ciphertext-validity staging account.
pub proof fn lemma_withdraw_plan_ordered(equality: StagingCost, range: StagingCost)
    ensures
        withdraw_plan(equality, range).len() == 4,
        created_first(withdraw_plan(equality, range)),
        lifecycle_complete(withdraw_plan(equality, range), ProofKind::Equality),
        lifecycle_complete(withdraw_plan(equality, range), ProofKind::Range),
        forall|t: int, j: int|
            0 <= t < 4 && 0 <= j < withdraw_plan(equality, range)[t].len() ==> !references(
                #[trigger] withdraw_plan(equality, range)[t][j],
                ProofKind::CiphertextValidity,
            ),
{
    let plan = withdraw_plan(equality, range);
    assert(creates(plan[0][0], ProofKind::Equality));
    assert(creates(plan[0][2], ProofKind::Range));
    assert forall|t: int, j: int, k: ProofKind|
        1 <= t < plan.len() && 0 <= j < plan[t].len() && #[trigger] references(plan[t][j], k)
        implies exists|c: int| 0 <= c < plan[0].len() && #[trigger] creates(plan[0][c], k) by {
        match k {
            ProofKind::Range => assert(creates(plan[0][2], k)),
            ProofKind::Equality => assert(creates(plan[0][0], k)),
            ProofKind::CiphertextValidity => {},
        }
    }
    reveal_with_fuel(flatten, 5);
    let f = flatten(plan);
    assert(plan.drop_last().drop_last().drop_last().drop_last() =~= Seq::<
        Seq<PlannedInstruction>,
    >::empty());
    assert(f =~= plan[0] + plan[1] + plan[2] + plan[3]);
    reveal_with_fuel(run_from, 10);
    assert(f[0] == plan[0][0]);
    assert(f[1] == plan[0][1]);
    assert(f[2] == plan[0][2]);
    assert(f[3] == plan[1][0]);
    assert(f[4] == plan[2][0]);
    assert(f[5] == plan[3][0]);
    assert(f[6] == plan[3][1]);
}

/// Instructions that do not use the staging account of `k` leave its state
/// as it is.
proof fn lemma_run_skips_prefix(f: Seq<PlannedInstruction>, n: int, k: ProofKind)
    requires
        0 <= n <= f.len(),
        forall|i: int| 0 <= i < n ==> !references(#[trigger] f[i], k),
    ensures
        run_from(None, f, 0, k) == run_from(None, f, n, k),
    decreases n,
{
    if n > 0 {
        lemma_run_skips_prefix_from(f, 0, n, k);
    }
}

proof fn lemma_run_skips_prefix_from(f: Seq<PlannedInstruction>, i: int, n: int, k: ProofKind)
    requires
        0 <= i <= n <= f.len(),
        forall|j: int| 0 <= j < n ==> !references(#[trigger] f[j], k),
    ensures
        run_from(None, f, i, k) == run_from(None, f, n, k),
    decreases n - i,
{
    if i < n {
        lemma_run_skips_prefix_from(f, i + 1, n, k);
    }
}

} // verus!
