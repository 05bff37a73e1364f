use canonical_swap::{
    next_step, Address, Authorization, AuthorityType, LedgerCall, LedgerOutcome, Step, SwapError,
};

fn key(tag: u8) -> Address {
    Address::new([tag; 32])
}

fn debit() -> LedgerCall {
    LedgerCall::Burn {
        mint: key(1),
        from: key(2),
        authority: Authorization::Signer { key: key(3) },
        amount: 5,
    }
}

fn credit() -> LedgerCall {
    LedgerCall::Transfer {
        from: key(4),
        to: key(5),
        authority: Authorization::Signer { key: key(3) },
        amount: 5_000,
    }
}

#[test]
fn calls_are_made_in_order_while_the_ledger_accepts() {
    let calls = vec![debit(), credit()];
    assert_eq!(next_step(&calls, &vec![]), Step::Perform(debit()));
    assert_eq!(next_step(&calls, &vec![LedgerOutcome::Accepted]), Step::Perform(credit()));
    assert_eq!(
        next_step(&calls, &vec![LedgerOutcome::Accepted, LedgerOutcome::Accepted]),
        Step::Finished(Ok(()))
    );
}

#[test]
fn rejected_call_ends_the_operation_with_a_ledger_failure() {
    let calls = vec![debit(), credit()];
    let failed = Step::Finished(Err(SwapError::LedgerFailure));
    assert_eq!(next_step(&calls, &vec![LedgerOutcome::Rejected]), failed);
    assert_eq!(
        next_step(&calls, &vec![LedgerOutcome::Accepted, LedgerOutcome::Rejected]),
        failed
    );
    assert_eq!(
        next_step(&calls, &vec![LedgerOutcome::Rejected, LedgerOutcome::Accepted]),
        failed
    );
}

#[test]
fn operation_without_calls_is_finished_at_once() {
    assert_eq!(next_step(&vec![], &vec![]), Step::Finished(Ok(())));
    assert_eq!(
        next_step(&vec![], &vec![LedgerOutcome::Rejected]),
        Step::Finished(Err(SwapError::LedgerFailure))
    );
}

#[test]
fn single_call_of_a_registration_is_performed_once() {
    let install = LedgerCall::SetAuthority {
        account_or_mint: key(1),
        authority_type: AuthorityType::MintTokens,
        current_authority: key(2),
        new_authority: key(3),
    };
    let calls = vec![install];
    assert_eq!(next_step(&calls, &vec![]), Step::Perform(install));
    assert_eq!(next_step(&calls, &vec![LedgerOutcome::Accepted]), Step::Finished(Ok(())));
}
