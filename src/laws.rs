use vstd::prelude::*;

use crate::amount::{decoded, AMOUNT_LEN, SCALE_FACTOR};
use crate::authority::DelegatedAuthority;
use crate::error::{Leg, SwapError};
use crate::ledger::{holding_account_of, LedgerCall};
use crate::swap::{begun, next_call_of, recorded, run, well_formed, Outcome, Receipt, Stage, Swap, SwapAccounts};

verus! {

/// A finished swap stays as it is, whatever the ledger says after.
proof fn lemma_finished_stays(s: Swap, results: Seq<Result<(), u64>>)
    requires
        s.stage is Finished,
    ensures
        run(s, results) == s,
    decreases results.len(),
{
    if results.len() > 0 {
        lemma_finished_stays(recorded(s, results[0]), results.drop_first());
    }
}

/// Running a swap keeps it well formed and never changes its accounts or
/// amounts.
proof fn lemma_run_keeps(s: Swap, results: Seq<Result<(), u64>>)
    requires
        well_formed(s),
    ensures
        well_formed(run(s, results)),
        run(s, results).accounts == s.accounts,
        run(s, results).amount == s.amount,
        run(s, results).scaled == s.scaled,
    decreases results.len(),
{
    if results.len() > 0 {
        lemma_run_keeps(recorded(s, results[0]), results.drop_first());
    }
}

/// A payload shorter than eight bytes is malformed: the swap is rejected at
/// once and asks for no ledger call, whatever the ledger would answer.
pub proof fn short_payload_makes_no_call(
    program: Seq<u8>,
    accounts: SwapAccounts,
    input: Seq<u8>,
    authority: Option<DelegatedAuthority>,
    results: Seq<Result<(), u64>>,
)
    requires
        input.len() < AMOUNT_LEN,
    ensures
        ({
            let s = run(begun(program, accounts, input, authority), results);
            &&& s.error == Some(SwapError::MalformedInput)
            &&& s.stage == Stage::Finished(Outcome::Rejected)
            &&& next_call_of(s) is None
        }),
{
    lemma_finished_stays(begun(program, accounts, input, authority), results);
}

/// A zero amount is invalid: the swap is rejected at once and asks for no
/// ledger call, whatever the ledger would answer.
pub proof fn zero_amount_makes_no_call(
    program: Seq<u8>,
    accounts: SwapAccounts,
    input: Seq<u8>,
    authority: Option<DelegatedAuthority>,
    results: Seq<Result<(), u64>>,
)
    requires
        decoded(input) == Ok::<u64, SwapError>(0),
    ensures
        ({
            let s = run(begun(program, accounts, input, authority), results);
            &&& s.error == Some(SwapError::InvalidAmount)
            &&& s.stage == Stage::Finished(Outcome::Rejected)
            &&& next_call_of(s) is None
        }),
{
    lemma_finished_stays(begun(program, accounts, input, authority), results);
}

/// The token transfer out of the vault is asked for only after the native
/// transfer was asked for first and went through: its receipt is then
/// present.
pub proof fn reverse_leg_follows_forward(
    program: Seq<u8>,
    accounts: SwapAccounts,
    input: Seq<u8>,
    authority: Option<DelegatedAuthority>,
    results: Seq<Result<(), u64>>,
)
    ensures
        ({
            let s0 = begun(program, accounts, input, authority);
            let s = run(s0, results);
            next_call_of(s) matches Some(LedgerCall::TransferToken { .. }) ==> {
                &&& next_call_of(s0) matches Some(LedgerCall::TransferNative { .. })
                &&& results.len() >= 1
                &&& results[0] is Ok
                &&& s.leg1 == Some(Receipt { leg: Leg::Forward, amount: s.scaled })
            }
        }),
{
    let s0 = begun(program, accounts, input, authority);
    let s = run(s0, results);
    lemma_run_keeps(s0, results);
    if s0.stage is Finished {
        lemma_finished_stays(s0, results);
    } else if results.len() >= 1 && results[0] is Err {
        let s1 = recorded(s0, results[0]);
        assert(run(s0, results) == run(s1, results.drop_first()));
        lemma_finished_stays(s1, results.drop_first());
    }
}

/// Both legs move the requested amount times `SCALE_FACTOR`, exactly.
pub proof fn both_legs_move_scaled_amount(
    program: Seq<u8>,
    accounts: SwapAccounts,
    input: Seq<u8>,
    authority: Option<DelegatedAuthority>,
    results: Seq<Result<(), u64>>,
)
    ensures
        ({
            let s = run(begun(program, accounts, input, authority), results);
            &&& next_call_of(s) matches Some(LedgerCall::TransferNative { lamports, .. })
                ==> decoded(input) is Ok && lamports == decoded(input)->Ok_0 * SCALE_FACTOR
            &&& next_call_of(s) matches Some(LedgerCall::TransferToken { amount, .. })
                ==> decoded(input) is Ok && amount == decoded(input)->Ok_0 * SCALE_FACTOR
        }),
{
    let s0 = begun(program, accounts, input, authority);
    lemma_run_keeps(s0, results);
    if s0.stage is Finished {
        lemma_finished_stays(s0, results);
    }
}

/// Ensuring the holding account is the same call each time for the same
/// requester and asset: two swaps at that step ask for identical calls, and
/// the instruction of each is the creation that leaves an existing account
/// as it is.
pub proof fn holding_call_is_repeatable(s: Swap, t: Swap)
    requires
        s.stage == Stage::Leg1Committed,
        t.stage == Stage::Leg1Committed,
        s.accounts.requester == t.accounts.requester,
        s.accounts.mint == t.accounts.mint,
        s.accounts.token_program == t.accounts.token_program,
    ensures
        next_call_of(s) == next_call_of(t),
        next_call_of(s) is Some,
        next_call_of(s)->Some_0.instruction_spec() == Some(
            holding_account_of(
                s.accounts.requester@,
                s.accounts.requester@,
                s.accounts.mint@,
                s.accounts.token_program@,
            ),
        ),
{
}

} // verus!
