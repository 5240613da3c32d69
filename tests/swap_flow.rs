use ecoswap::amount::{decode_amount, scale_amount, SCALE_FACTOR};
use ecoswap::authority::{check_authority, derive_authority, DelegatedAuthority};
use ecoswap::error::{Leg, SwapError};
use ecoswap::ledger::{same_key, LedgerCall};
use ecoswap::swap::{accounts_from_keys, Outcome, Receipt, Stage, Swap, SwapAccounts};

fn key(n: u8) -> [u8; 32] {
    [n; 32]
}

fn token_program() -> [u8; 32] {
    spl_token::id().to_bytes()
}

fn accounts() -> SwapAccounts {
    SwapAccounts {
        requester: key(1),
        payee: key(2),
        system_program: solana_program::system_program::id().to_bytes(),
        mint: key(4),
        token_program: token_program(),
        holding_service: spl_associated_token_account::id().to_bytes(),
        vault_owner: key(7),
        vault_holding: key(8),
        requester_holding: key(9),
    }
}

/// Runs a swap against a ledger that answers its calls with `answers` in
/// order, and returns the finished swap with the calls it asked for.
fn drive(input: &[u8], answers: &[Result<(), u64>]) -> (Swap, Vec<LedgerCall>) {
    let mut swap = Swap::begin(&key(99), accounts(), input, &None);
    let mut calls = Vec::new();
    let mut next = 0;
    while let Some(call) = swap.next_call() {
        calls.push(call);
        swap.record(answers[next]);
        next += 1;
    }
    (swap, calls)
}

#[test]
fn completed_swap_has_both_receipts() {
    let (swap, calls) = drive(&1_000_000u64.to_le_bytes(), &[Ok(()), Ok(()), Ok(())]);
    let receipt = swap.receipt().unwrap();
    assert_eq!(receipt.outcome, Outcome::Completed);
    let moved = 1_000_000_000_000_000u64;
    assert_eq!(receipt.leg1_receipt, Some(Receipt { leg: Leg::Forward, amount: moved }));
    assert_eq!(receipt.leg2_receipt, Some(Receipt { leg: Leg::Reverse, amount: moved }));
    assert_eq!(calls.len(), 3);
    assert!(matches!(calls[0], LedgerCall::TransferNative { from, to, lamports }
        if from == key(1) && to == key(2) && lamports == moved));
    assert!(matches!(calls[1], LedgerCall::EnsureHoldingAccount { funder, owner, mint, .. }
        if funder == key(1) && owner == key(1) && mint == key(4)));
    assert!(matches!(calls[2], LedgerCall::TransferToken { source, destination, authority, amount, .. }
        if source == key(8) && destination == key(9) && authority == key(7) && amount == moved));
    assert_eq!(swap.result(), Ok(()));
}

#[test]
fn insufficient_native_balance_rejects() {
    let (swap, calls) = drive(&500u64.to_le_bytes(), &[Err(1)]);
    let receipt = swap.receipt().unwrap();
    assert_eq!(receipt.outcome, Outcome::Rejected);
    assert_eq!(receipt.leg1_receipt, None);
    assert_eq!(receipt.leg2_receipt, None);
    assert_eq!(calls.len(), 1);
    assert!(!calls.iter().any(|c| matches!(c, LedgerCall::TransferToken { .. })));
    assert_eq!(
        swap.result(),
        Err(SwapError::TransferFailed { leg: Leg::Forward, code: 1 })
    );
}

#[test]
fn insufficient_vault_balance_partially_commits() {
    let (swap, calls) = drive(&2_000u64.to_le_bytes(), &[Ok(()), Ok(()), Err(1)]);
    let receipt = swap.receipt().unwrap();
    assert_eq!(receipt.outcome, Outcome::PartiallyCommitted);
    assert_eq!(
        receipt.leg1_receipt,
        Some(Receipt { leg: Leg::Forward, amount: 2_000_000_000_000 })
    );
    assert_eq!(receipt.leg2_receipt, None);
    assert_eq!(calls.len(), 3);
    assert_eq!(
        swap.result(),
        Err(SwapError::TransferFailed { leg: Leg::Reverse, code: 1 })
    );
}

#[test]
fn five_byte_payload_is_malformed() {
    let (swap, calls) = drive(&[1, 2, 3, 4, 5], &[]);
    assert!(calls.is_empty());
    assert_eq!(swap.receipt().unwrap().outcome, Outcome::Rejected);
    assert_eq!(swap.result(), Err(SwapError::MalformedInput));
}

#[test]
fn every_short_payload_is_malformed() {
    for n in 0..8usize {
        let input = vec![7u8; n];
        assert_eq!(decode_amount(&input), Err(SwapError::MalformedInput));
        let (swap, calls) = drive(&input, &[]);
        assert!(calls.is_empty());
        assert_eq!(swap.error, Some(SwapError::MalformedInput));
    }
}

#[test]
fn zero_amount_is_invalid_without_ledger_calls() {
    let (swap, calls) = drive(&0u64.to_le_bytes(), &[]);
    assert!(calls.is_empty());
    assert_eq!(swap.stage, Stage::Finished(Outcome::Rejected));
    assert_eq!(swap.result(), Err(SwapError::InvalidAmount));
}

#[test]
fn amount_too_large_to_scale_is_invalid() {
    let limit = u64::MAX / SCALE_FACTOR;
    assert_eq!(scale_amount(limit), Ok(limit * SCALE_FACTOR));
    assert_eq!(scale_amount(limit + 1), Err(SwapError::InvalidAmount));
    let (swap, calls) = drive(&(limit + 1).to_le_bytes(), &[]);
    assert!(calls.is_empty());
    assert_eq!(swap.result(), Err(SwapError::InvalidAmount));
}

#[test]
fn decoding_reads_first_eight_bytes_little_endian() {
    assert_eq!(decode_amount(&[1, 2, 0, 0, 0, 0, 0, 0]), Ok(513));
    assert_eq!(decode_amount(&[0xff; 8]), Ok(u64::MAX));
    assert_eq!(decode_amount(&[5, 0, 0, 0, 0, 0, 0, 0, 9, 9]), Ok(5));
}

#[test]
fn scale_factor_is_exact() {
    assert_eq!(SCALE_FACTOR, 1_000_000_000);
    assert_eq!(scale_amount(1), Ok(1_000_000_000));
    assert_eq!(scale_amount(2_000), Ok(2_000_000_000_000));
}

#[test]
fn holding_account_failure_partially_commits() {
    let (swap, calls) = drive(&3u64.to_le_bytes(), &[Ok(()), Err(4)]);
    assert_eq!(calls.len(), 2);
    assert_eq!(swap.stage, Stage::Finished(Outcome::PartiallyCommitted));
    assert_eq!(swap.result(), Err(SwapError::HoldingAccountFailed { code: 4 }));
}

#[test]
fn finished_swap_ignores_further_answers() {
    let (mut swap, _) = drive(&3u64.to_le_bytes(), &[Err(2)]);
    let before = swap;
    swap.record(Ok(()));
    assert_eq!(swap.stage, before.stage);
    assert_eq!(swap.leg1, None);
    assert!(swap.next_call().is_none());
}

#[test]
fn unfinished_swap_has_no_receipt() {
    let mut swap = Swap::begin(&key(99), accounts(), &10u64.to_le_bytes(), &None);
    assert_eq!(swap.stage, Stage::AmountValidated);
    assert!(swap.receipt().is_none());
    swap.record(Ok(()));
    assert_eq!(swap.stage, Stage::Leg1Committed);
    assert!(swap.receipt().is_none());
}

#[test]
fn wrong_token_program_is_rejected_before_any_call() {
    let mut roles = accounts();
    roles.token_program = key(5);
    let swap = Swap::begin(&key(99), roles, &10u64.to_le_bytes(), &None);
    assert!(swap.next_call().is_none());
    assert_eq!(swap.result(), Err(SwapError::IncorrectProgramId));
}

#[test]
fn accounts_are_read_in_order() {
    let keys: Vec<[u8; 32]> = (1..=9u8).map(key).collect();
    let roles = accounts_from_keys(&keys).unwrap();
    assert_eq!(roles.requester, key(1));
    assert_eq!(roles.payee, key(2));
    assert_eq!(roles.mint, key(4));
    assert_eq!(roles.vault_owner, key(7));
    assert_eq!(roles.requester_holding, key(9));
    assert!(matches!(accounts_from_keys(&keys[..8]), Err(SwapError::NotEnoughAccounts)));
}

#[test]
fn native_transfer_instruction_carries_lamports() {
    let call = LedgerCall::TransferNative { from: key(1), to: key(2), lamports: 42 };
    let ix = call.instruction().unwrap();
    assert_eq!(ix.program_id, solana_program::system_program::id());
    assert_eq!(ix.accounts[0].pubkey.to_bytes(), key(1));
    assert_eq!(ix.accounts[1].pubkey.to_bytes(), key(2));
    assert_eq!(&ix.data[4..12], &42u64.to_le_bytes());
}

#[test]
fn holding_account_instruction_is_idempotent_variant() {
    let call = LedgerCall::EnsureHoldingAccount {
        funder: key(1),
        owner: key(1),
        mint: key(4),
        token_program: token_program(),
    };
    let ix = call.instruction().unwrap();
    assert_eq!(ix.program_id, spl_associated_token_account::id());
    assert_eq!(ix.data, vec![1u8]);
    let again = call.instruction().unwrap();
    assert_eq!(ix, again);
}

#[test]
fn token_transfer_instruction_needs_token_program() {
    let call = LedgerCall::TransferToken {
        token_program: token_program(),
        source: key(8),
        destination: key(9),
        authority: key(7),
        amount: 77,
    };
    let ix = call.instruction().unwrap();
    assert_eq!(ix.program_id, spl_token::id());
    assert_eq!(ix.data[0], 3);
    assert_eq!(&ix.data[1..9], &77u64.to_le_bytes());
    let wrong = LedgerCall::TransferToken {
        token_program: key(5),
        source: key(8),
        destination: key(9),
        authority: key(7),
        amount: 77,
    };
    assert!(wrong.instruction().is_none());
}

#[test]
fn derived_authority_passes_its_check() {
    let program = key(99);
    let seed = b"vault".to_vec();
    let authority = derive_authority(&program, &seed).unwrap();
    assert_eq!(authority.seed, seed);
    assert_eq!(check_authority(&program, &authority, &authority.address), Ok(()));
    let expected = solana_program::pubkey::Pubkey::find_program_address(
        &[b"vault"],
        &solana_program::pubkey::Pubkey::new_from_array(program),
    );
    assert_eq!(authority.address, expected.0.to_bytes());
    assert_eq!(authority.bump, expected.1);
    assert_ne!(authority.address, key(99));
}

#[test]
fn wrong_seeds_give_authority_mismatch() {
    let program = key(99);
    let authority = derive_authority(&program, &b"vault".to_vec()).unwrap();
    let forged = DelegatedAuthority { seed: b"other".to_vec(), ..authority.clone() };
    assert_eq!(
        check_authority(&program, &forged, &authority.address),
        Err(SwapError::AuthorityMismatch)
    );
    let long = DelegatedAuthority { seed: vec![0u8; 33], ..authority.clone() };
    assert_eq!(
        check_authority(&program, &long, &authority.address),
        Err(SwapError::AuthorityMismatch)
    );
}

#[test]
fn swap_with_delegated_authority_checks_vault_owner() {
    let program = key(99);
    let authority = derive_authority(&program, &b"vault".to_vec()).unwrap();
    let mut roles = accounts();
    roles.vault_owner = authority.address;
    let ok = Swap::begin(&program, roles, &10u64.to_le_bytes(), &Some(authority.clone()));
    assert_eq!(ok.stage, Stage::AmountValidated);
    let bad = Swap::begin(&program, accounts(), &10u64.to_le_bytes(), &Some(authority));
    assert!(bad.next_call().is_none());
    assert_eq!(bad.result(), Err(SwapError::AuthorityMismatch));
}

#[test]
fn keys_compare_byte_for_byte() {
    assert!(same_key(&key(3), &key(3)));
    let mut k = key(3);
    k[31] = 4;
    assert!(!same_key(&key(3), &k));
}
