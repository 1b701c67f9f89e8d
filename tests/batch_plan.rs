use confidential_balances::errors::AppError;
use confidential_balances::instruction_data::{
    compute_unit_limit_data, compute_unit_price_data, create_account_data,
};
use confidential_balances::plan::{
    plan_transfer, plan_withdraw, priority_fee_instructions, PlannedInstruction, ProofKind,
    StagingCost,
};

fn cost(lamports: u64, space: u64) -> StagingCost {
    StagingCost { lamports, space }
}

fn created_in_first(first: &[PlannedInstruction], k: ProofKind) -> bool {
    first.iter().any(|i| matches!(i, PlannedInstruction::CreateContextAccount { kind, .. } if *kind == k))
}

#[test]
fn transfer_plan_has_five_ordered_transactions() {
    let txs = plan_transfer(0, cost(1, 161), cost(2, 385), cost(3, 297)).unwrap();
    assert_eq!(txs.len(), 5);
    assert_eq!(
        txs[0].instructions,
        vec![
            PlannedInstruction::CreateContextAccount { kind: ProofKind::Range, lamports: 3, space: 297 },
            PlannedInstruction::CreateContextAccount { kind: ProofKind::Equality, lamports: 1, space: 161 },
            PlannedInstruction::CreateContextAccount {
                kind: ProofKind::CiphertextValidity,
                lamports: 2,
                space: 385
            },
        ]
    );
    assert_eq!(txs[0].cosigners, vec![ProofKind::Range, ProofKind::Equality, ProofKind::CiphertextValidity]);
    assert_eq!(txs[1].instructions, vec![PlannedInstruction::VerifyProof { kind: ProofKind::Range }]);
    assert_eq!(
        txs[2].instructions,
        vec![
            PlannedInstruction::VerifyProof { kind: ProofKind::Equality },
            PlannedInstruction::VerifyProof { kind: ProofKind::CiphertextValidity },
        ]
    );
    assert_eq!(txs[3].instructions, vec![PlannedInstruction::Transfer]);
    assert_eq!(txs[4].instructions.len(), 3);
    for t in &txs[1..] {
        assert!(t.cosigners.is_empty());
        for i in &t.instructions {
            if let PlannedInstruction::VerifyProof { kind } | PlannedInstruction::CloseContextAccount { kind } = i {
                assert!(created_in_first(&txs[0].instructions, *kind));
            }
        }
    }
}

#[test]
fn transfer_plan_with_fee_sets_compute_budget() {
    let txs = plan_transfer(10_000_000, cost(1, 161), cost(2, 385), cost(3, 297)).unwrap();
    assert_eq!(txs[0].instructions[0], PlannedInstruction::SetComputeUnitLimit { units: 200_000 });
    assert_eq!(txs[0].instructions[1], PlannedInstruction::SetComputeUnitPrice { micro_lamports: 50_000_000 });
    assert_eq!(txs[0].instructions.len(), 5);
}

#[test]
fn oversized_fee_is_refused() {
    assert_eq!(priority_fee_instructions(u64::MAX).unwrap_err(), AppError::InvalidAmount);
    assert!(plan_transfer(u64::MAX, cost(1, 161), cost(2, 385), cost(3, 297)).is_err());
    assert_eq!(priority_fee_instructions(0).unwrap(), vec![]);
}

#[test]
fn withdraw_plan_has_four_ordered_transactions() {
    let txs = plan_withdraw(cost(1, 161), cost(3, 297));
    assert_eq!(txs.len(), 4);
    assert_eq!(
        txs[0].instructions,
        vec![
            PlannedInstruction::CreateContextAccount { kind: ProofKind::Equality, lamports: 1, space: 161 },
            PlannedInstruction::VerifyProof { kind: ProofKind::Equality },
            PlannedInstruction::CreateContextAccount { kind: ProofKind::Range, lamports: 3, space: 297 },
        ]
    );
    assert_eq!(txs[0].cosigners, vec![ProofKind::Range, ProofKind::Equality]);
    assert_eq!(txs[1].instructions, vec![PlannedInstruction::VerifyProof { kind: ProofKind::Range }]);
    assert_eq!(txs[2].instructions, vec![PlannedInstruction::Withdraw]);
    assert_eq!(
        txs[3].instructions,
        vec![
            PlannedInstruction::CloseContextAccount { kind: ProofKind::Equality },
            PlannedInstruction::CloseContextAccount { kind: ProofKind::Range },
        ]
    );
}

#[test]
fn instruction_data_is_little_endian() {
    let d = create_account_data(0x0102, 161, &[7u8; 32]);
    assert_eq!(d.len(), 52);
    assert_eq!(&d[0..4], &[0, 0, 0, 0]);
    assert_eq!(&d[4..12], &[2, 1, 0, 0, 0, 0, 0, 0]);
    assert_eq!(&d[12..20], &[161, 0, 0, 0, 0, 0, 0, 0]);
    assert_eq!(&d[20..], &[7u8; 32]);
    assert_eq!(compute_unit_limit_data(200_000), vec![2, 0x40, 0x0d, 0x03, 0x00]);
    assert_eq!(compute_unit_price_data(5), vec![3, 5, 0, 0, 0, 0, 0, 0, 0]);
}
