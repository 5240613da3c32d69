use vstd::prelude::*;

use crate::amount::{decode_amount, decoded, scale_amount, scaled, amount_in_range, SCALE_FACTOR};
use crate::authority::{check_authority, reproduces, DelegatedAuthority};
use crate::error::{Leg, SwapError};
use crate::ledger::{is_token_program, token_program_check, LedgerCall};

verus! {

/// Number of account references that a swap reads, in this order.
pub const ACCOUNT_COUNT: usize = 9;

/// The accounts that take part in a swap, by role.
#[derive(Clone, Copy, Debug)]
pub struct SwapAccounts {
    /// Pays the native currency and receives the tokens; signs the call.
    pub requester: [u8; 32],
    /// Receives the native currency.
    pub payee: [u8; 32],
    /// The native-currency transfer service.
    pub system_program: [u8; 32],
    /// The token's mint.
    pub mint: [u8; 32],
    /// The token-transfer service.
    pub token_program: [u8; 32],
    /// The holding-account creation service.
    pub holding_service: [u8; 32],
    /// The vault's owner: the one signer allowed to move the vault's tokens.
    pub vault_owner: [u8; 32],
    /// The vault's token holding account.
    pub vault_holding: [u8; 32],
    /// The requester's token holding account.
    pub requester_holding: [u8; 32],
}

/// The roles of `keys`, read in their fixed order.
pub open spec fn accounts_of(keys: Seq<[u8; 32]>) -> SwapAccounts
    recommends
        keys.len() >= ACCOUNT_COUNT,
{
    SwapAccounts {
        requester: keys[0],
        payee: keys[1],
        system_program: keys[2],
        mint: keys[3],
        token_program: keys[4],
        holding_service: keys[5],
        vault_owner: keys[6],
        vault_holding: keys[7],
        requester_holding: keys[8],
    }
}

/// Reads the roles from an ordered list of account addresses; the list must
/// hold at least `ACCOUNT_COUNT` of them, and any after those are ignored.
pub fn accounts_from_keys(keys: &[[u8; 32]]) -> (r: Result<SwapAccounts, SwapError>)
    ensures
        r is Ok <==> keys@.len() >= ACCOUNT_COUNT,
        r is Ok ==> r->Ok_0 == accounts_of(keys@),
        r is Err ==> r == Err::<SwapAccounts, SwapError>(SwapError::NotEnoughAccounts),
{
    if keys.len() < ACCOUNT_COUNT {
        return Err(SwapError::NotEnoughAccounts);
    }
    Ok(SwapAccounts {
        requester: keys[0],
        payee: keys[1],
        system_program: keys[2],
        mint: keys[3],
        token_program: keys[4],
        holding_service: keys[5],
        vault_owner: keys[6],
        vault_holding: keys[7],
        requester_holding: keys[8],
    })
}

/// How a swap ended.
#[derive(Clone, Copy, Debug, PartialEq, Eq, Structural)]
pub enum Outcome {
    /// Both legs went through.
    Completed,
    /// The native currency was paid, but the tokens did not follow. No
    /// refund is attempted here, and neither leg is retried: a blind retry
    /// could charge the requester twice. The surrounding system reconciles,
    /// by refunding the payment or by retrying the token transfer once its
    /// cause is mended.
    PartiallyCommitted,
    /// Nothing was moved.
    Rejected,
}

/// Where a swap stands.
#[derive(Clone, Copy, Debug, PartialEq, Eq, Structural)]
pub enum Stage {
    /// The request was decoded and checked; no ledger call has been made.
    AmountValidated,
    /// The native currency reached the payee.
    Leg1Committed,
    /// The requester's holding account exists.
    HoldingEnsured,
    /// No further call will be asked for.
    Finished(Outcome),
}

/// A ledger's confirmation of one transfer.
#[derive(Clone, Copy, Debug, PartialEq, Eq, Structural)]
pub struct Receipt {
    pub leg: Leg,
    /// Base units moved.
    pub amount: u64,
}

/// What a finished swap reports.
#[derive(Clone, Copy, Debug, PartialEq, Eq, Structural)]
pub struct SwapReceipt {
    pub leg1_receipt: Option<Receipt>,
    pub leg2_receipt: Option<Receipt>,
    pub outcome: Outcome,
}

/// One swap in progress. The host asks `next_call` what to do, does it on
/// the ledger, and hands the result to `record`, until the swap is finished.
#[derive(Clone, Copy, Debug)]
pub struct Swap {
    pub accounts: SwapAccounts,
    /// Units requested, as decoded (zero where the payload was malformed).
    pub amount: u64,
    /// Base units that each leg moves (zero where the request was refused).
    pub scaled: u64,
    pub stage: Stage,
    pub leg1: Option<Receipt>,
    pub leg2: Option<Receipt>,
    /// Why the swap did not complete, once that is known.
    pub error: Option<SwapError>,
}

/// A swap refused before any ledger call.
pub open spec fn rejected(accounts: SwapAccounts, amount: u64, e: SwapError) -> Swap {
    Swap {
        accounts,
        amount,
        scaled: 0,
        stage: Stage::Finished(Outcome::Rejected),
        leg1: None,
        leg2: None,
        error: Some(e),
    }
}

/// The swap that a request starts: the payload is decoded, the amount
/// checked and scaled, the token service and, where one is given, the
/// delegated authority of the vault checked, in that order.
pub open spec fn begun(
    program: Seq<u8>,
    accounts: SwapAccounts,
    input: Seq<u8>,
    authority: Option<DelegatedAuthority>,
) -> Swap {
    match decoded(input) {
        Err(e) => rejected(accounts, 0, e),
        Ok(amount) => match scaled(amount) {
            Err(e) => rejected(accounts, amount, e),
            Ok(s) => if !is_token_program(accounts.token_program@) {
                rejected(accounts, amount, SwapError::IncorrectProgramId)
            } else if authority is Some && !reproduces(
                program,
                authority->Some_0,
                accounts.vault_owner@,
            ) {
                rejected(accounts, amount, SwapError::AuthorityMismatch)
            } else {
                Swap {
                    accounts,
                    amount,
                    scaled: s,
                    stage: Stage::AmountValidated,
                    leg1: None,
                    leg2: None,
                    error: None,
                }
            },
        },
    }
}

/// The ledger call that a swap asks for next, if any.
pub open spec fn next_call_of(s: Swap) -> Option<LedgerCall> {
    let a = s.accounts;
    match s.stage {
        Stage::AmountValidated => Some(
            LedgerCall::TransferNative { from: a.requester, to: a.payee, lamports: s.scaled },
        ),
        Stage::Leg1Committed => Some(
            LedgerCall::EnsureHoldingAccount {
                funder: a.requester,
                owner: a.requester,
                mint: a.mint,
                token_program: a.token_program,
            },
        ),
        Stage::HoldingEnsured => Some(
            LedgerCall::TransferToken {
                token_program: a.token_program,
                source: a.vault_holding,
                destination: a.requester_holding,
                authority: a.vault_owner,
                amount: s.scaled,
            },
        ),
        Stage::Finished(_) => None,
    }
}

/// The swap after the ledger answered its next call with `result` (an error
/// code on failure). A finished swap stays as it is.
pub open spec fn recorded(s: Swap, result: Result<(), u64>) -> Swap {
    match s.stage {
        Stage::AmountValidated => match result {
            Ok(_) => Swap {
                stage: Stage::Leg1Committed,
                leg1: Some(Receipt { leg: Leg::Forward, amount: s.scaled }),
                ..s
            },
            Err(code) => Swap {
                stage: Stage::Finished(Outcome::Rejected),
                error: Some(SwapError::TransferFailed { leg: Leg::Forward, code }),
                ..s
            },
        },
        Stage::Leg1Committed => match result {
            Ok(_) => Swap { stage: Stage::HoldingEnsured, ..s },
            Err(code) => Swap {
                stage: Stage::Finished(Outcome::PartiallyCommitted),
                error: Some(SwapError::HoldingAccountFailed { code }),
                ..s
            },
        },
        Stage::HoldingEnsured => match result {
            Ok(_) => Swap {
                stage: Stage::Finished(Outcome::Completed),
                leg2: Some(Receipt { leg: Leg::Reverse, amount: s.scaled }),
                ..s
            },
            Err(code) => Swap {
                stage: Stage::Finished(Outcome::PartiallyCommitted),
                error: Some(SwapError::TransferFailed { leg: Leg::Reverse, code }),
                ..s
            },
        },
        Stage::Finished(_) => s,
    }
}

/// The swap after the ledger answered its calls with `results`, in order.
pub open spec fn run(s: Swap, results: Seq<Result<(), u64>>) -> Swap
    decreases results.len(),
{
    if results.len() == 0 {
        s
    } else {
        run(recorded(s, results[0]), results.drop_first())
    }
}

/// What holds of a swap at every stage: receipts are present exactly for the
/// legs that went through, each for the scaled amount, and an error exactly
/// when the swap did not complete.
pub open spec fn well_formed(s: Swap) -> bool {
    let forward = Some(Receipt { leg: Leg::Forward, amount: s.scaled });
    let reverse = Some(Receipt { leg: Leg::Reverse, amount: s.scaled });
    let valid = amount_in_range(s.amount) && s.scaled == s.amount * SCALE_FACTOR;
    match s.stage {
        Stage::AmountValidated => valid && s.leg1 is None && s.leg2 is None && s.error is None,
        Stage::Leg1Committed => valid && s.leg1 == forward && s.leg2 is None && s.error is None,
        Stage::HoldingEnsured => valid && s.leg1 == forward && s.leg2 is None && s.error is None,
        Stage::Finished(Outcome::Completed) => valid && s.leg1 == forward && s.leg2 == reverse
            && s.error is None,
        Stage::Finished(Outcome::PartiallyCommitted) => valid && s.leg1 == forward && s.leg2 is None
            && s.error is Some,
        Stage::Finished(Outcome::Rejected) => s.leg1 is None && s.leg2 is None && s.error is Some,
    }
}

/// The report of a finished swap.
pub open spec fn receipt_of(s: Swap) -> Option<SwapReceipt> {
    match s.stage {
        Stage::Finished(outcome) => Some(
            SwapReceipt { leg1_receipt: s.leg1, leg2_receipt: s.leg2, outcome },
        ),
        _ => None,
    }
}

impl Swap {
    /// Starts a swap on `accounts` from the raw payload `input`. Every check
    /// comes before any ledger call: a payload shorter than eight bytes, a
    /// zero or too large amount, a token service that is not the token
    /// program, or a delegated authority whose seeds do not derive the vault
    /// owner under `program`, gives a rejected swap with its error.
    pub fn begin(
        program: &[u8; 32],
        accounts: SwapAccounts,
        input: &[u8],
        authority: &Option<DelegatedAuthority>,
    ) -> (r: Swap)
        ensures
            r == begun(program@, accounts, input@, *authority),
            well_formed(r),
    {
        let amount = match decode_amount(input) {
            Ok(a) => a,
            Err(e) => {
                return Swap {
                    accounts,
                    amount: 0,
                    scaled: 0,
                    stage: Stage::Finished(Outcome::Rejected),
                    leg1: None,
                    leg2: None,
                    error: Some(e),
                };
            },
        };
        let refuse = Swap {
            accounts,
            amount,
            scaled: 0,
            stage: Stage::Finished(Outcome::Rejected),
            leg1: None,
            leg2: None,
            error: None,
        };
        let s = match scale_amount(amount) {
            Ok(s) => s,
            Err(e) => {
                return Swap { error: Some(e), ..refuse };
            },
        };
        if !token_program_check(&accounts.token_program) {
            return Swap { error: Some(SwapError::IncorrectProgramId), ..refuse };
        }
        if let Some(a) = authority {
            if check_authority(program, a, &accounts.vault_owner).is_err() {
                return Swap { error: Some(SwapError::AuthorityMismatch), ..refuse };
            }
        }
        Swap {
            accounts,
            amount,
            scaled: s,
            stage: Stage::AmountValidated,
            leg1: None,
            leg2: None,
            error: None,
        }
    }

    /// The ledger call to make next: the native transfer, then the holding
    /// account, then the token transfer from the vault; none once finished.
    pub fn next_call(&self) -> (r: Option<LedgerCall>)
        ensures
            r == next_call_of(*self),
    {
        let a = &self.accounts;
        match self.stage {
            Stage::AmountValidated => Some(
                LedgerCall::TransferNative {
                    from: a.requester,
                    to: a.payee,
                    lamports: self.scaled,
                },
            ),
            Stage::Leg1Committed => Some(
                LedgerCall::EnsureHoldingAccount {
                    funder: a.requester,
                    owner: a.requester,
                    mint: a.mint,
                    token_program: a.token_program,
                },
            ),
            Stage::HoldingEnsured => Some(
                LedgerCall::TransferToken {
                    token_program: a.token_program,
                    source: a.vault_holding,
                    destination: a.requester_holding,
                    authority: a.vault_owner,
                    amount: self.scaled,
                },
            ),
            Stage::Finished(_) => None,
        }
    }

    /// Takes the ledger's answer to the call that `next_call` asked for: `Ok`
    /// where it went through, else its error code. A failed native transfer
    /// rejects the swap; a failure after it leaves the swap partially
    /// committed. A finished swap is left as it is.
    pub fn record(&mut self, result: Result<(), u64>)
        requires
            well_formed(*old(self)),
        ensures
            *final(self) == recorded(*old(self), result),
            well_formed(*final(self)),
    {
        match self.stage {
            Stage::AmountValidated => match result {
                Ok(_) => {
                    self.stage = Stage::Leg1Committed;
                    self.leg1 = Some(Receipt { leg: Leg::Forward, amount: self.scaled });
                },
                Err(code) => {
                    self.stage = Stage::Finished(Outcome::Rejected);
                    self.error = Some(SwapError::TransferFailed { leg: Leg::Forward, code });
                },
            },
            Stage::Leg1Committed => match result {
                Ok(_) => {
                    self.stage = Stage::HoldingEnsured;
                },
                Err(code) => {
                    self.stage = Stage::Finished(Outcome::PartiallyCommitted);
                    self.error = Some(SwapError::HoldingAccountFailed { code });
                },
            },
            Stage::HoldingEnsured => match result {
                Ok(_) => {
                    self.stage = Stage::Finished(Outcome::Completed);
                    self.leg2 = Some(Receipt { leg: Leg::Reverse, amount: self.scaled });
                },
                Err(code) => {
                    self.stage = Stage::Finished(Outcome::PartiallyCommitted);
                    self.error = Some(SwapError::TransferFailed { leg: Leg::Reverse, code });
                },
            },
            Stage::Finished(_) => {},
        }
    }

    /// The report, once the swap is finished.
    pub fn receipt(&self) -> (r: Option<SwapReceipt>)
        ensures
            r == receipt_of(*self),
    {
        match self.stage {
            Stage::Finished(outcome) => Some(
                SwapReceipt { leg1_receipt: self.leg1, leg2_receipt: self.leg2, outcome },
            ),
            _ => None,
        }
    }

    /// What the invocation returns once the swap is finished: success only
    /// for a completed swap, and otherwise its error, so that a partial
    /// commit is never taken for success.
    pub fn result(&self) -> (r: Result<(), SwapError>)
        requires
            well_formed(*self),
            self.stage is Finished,
        ensures
            r is Ok <==> self.stage == Stage::Finished(Outcome::Completed),
            r is Err ==> self.error == Some(r->Err_0),
    {
        match self.stage {
            Stage::Finished(Outcome::Completed) => Ok(()),
            _ => match self.error {
                Some(e) => Err(e),
                None => Err(SwapError::InvalidAmount),
            },
        }
    }
}

} // verus!
