use vstd::prelude::*;

use solana_program::instruction::Instruction;
use solana_program::pubkey::Pubkey;

verus! {

#[verifier::external_type_specification]
#[verifier::external_body]
pub struct ExInstruction(Instruction);

/// The native-currency transfer instruction for these arguments.
pub uninterp spec fn system_transfer_of(from: Seq<u8>, to: Seq<u8>, lamports: u64) -> Instruction;

/// The instruction that creates a holding account unless it already exists.
pub uninterp spec fn holding_account_of(
    funder: Seq<u8>,
    owner: Seq<u8>,
    mint: Seq<u8>,
    token_program: Seq<u8>,
) -> Instruction;

/// The token transfer instruction for these arguments, where it can be built.
pub uninterp spec fn token_transfer_of(
    token_program: Seq<u8>,
    source: Seq<u8>,
    destination: Seq<u8>,
    authority: Seq<u8>,
    amount: u64,
) -> Instruction;

/// Whether an address is the token program's.
pub uninterp spec fn is_token_program(key: Seq<u8>) -> bool;

/// Relies on solana_program::system_instruction::transfer, which only builds
/// the instruction from its arguments.
#[verifier::external_body]
fn system_transfer(from: &[u8; 32], to: &[u8; 32], lamports: u64) -> (r: Instruction)
    ensures
        r == system_transfer_of(from@, to@, lamports),
{
    solana_program::system_instruction::transfer(
        &Pubkey::new_from_array(*from),
        &Pubkey::new_from_array(*to),
        lamports,
    )
}

/// Relies on spl_associated_token_account::instruction::
/// create_associated_token_account_idempotent, which only builds the
/// instruction from its arguments.
#[verifier::external_body]
fn holding_account_instruction(
    funder: &[u8; 32],
    owner: &[u8; 32],
    mint: &[u8; 32],
    token_program: &[u8; 32],
) -> (r: Instruction)
    ensures
        r == holding_account_of(funder@, owner@, mint@, token_program@),
{
    spl_associated_token_account::instruction::create_associated_token_account_idempotent(
        &Pubkey::new_from_array(*funder),
        &Pubkey::new_from_array(*owner),
        &Pubkey::new_from_array(*mint),
        &Pubkey::new_from_array(*token_program),
    )
}

/// Relies on spl_token::instruction::transfer, with the authority also listed
/// as the one signer: it fails exactly when the program named is not the
/// token program (spl_token::check_program_account), and otherwise only
/// builds the instruction from its arguments.
#[verifier::external_body]
fn token_transfer(
    token_program: &[u8; 32],
    source: &[u8; 32],
    destination: &[u8; 32],
    authority: &[u8; 32],
    amount: u64,
) -> (r: Option<Instruction>)
    ensures
        r is Some <==> is_token_program(token_program@),
        r is Some ==> r->Some_0 == token_transfer_of(
            token_program@,
            source@,
            destination@,
            authority@,
            amount,
        ),
{
    let authority = Pubkey::new_from_array(*authority);
    spl_token::instruction::transfer(
        &Pubkey::new_from_array(*token_program),
        &Pubkey::new_from_array(*source),
        &Pubkey::new_from_array(*destination),
        &authority,
        &[&authority],
        amount,
    ).ok()
}

/// Relies on spl_token::check_id: whether the address is the token program's.
#[verifier::external_body]
pub(crate) fn token_program_check(key: &[u8; 32]) -> (r: bool)
    ensures
        r == is_token_program(key@),
{
    spl_token::check_id(&Pubkey::new_from_array(*key))
}

/// Whether two account addresses are the same, byte for byte.
pub fn same_key(a: &[u8; 32], b: &[u8; 32]) -> (r: bool)
    ensures
        r == (a@ == b@),
{
    let mut i: usize = 0;
    while i < 32
        invariant
            i <= 32,
            a@.len() == 32,
            b@.len() == 32,
            forall|j: int| 0 <= j < i ==> a@[j] == b@[j],
        decreases 32 - i,
    {
        if a[i] != b[i] {
            return false;
        }
        i = i + 1;
    }
    assert(a@ =~= b@);
    true
}

/// One call on a ledger that the swap asks the host to make.
#[derive(Clone, Copy, Debug)]
pub enum LedgerCall {
    /// Move `lamports` of the native currency from `from` to `to`.
    TransferNative { from: [u8; 32], to: [u8; 32], lamports: u64 },
    /// Make sure `owner` has a holding account for `mint`, paid by `funder`;
    /// an account that already exists is left as it is.
    EnsureHoldingAccount {
        funder: [u8; 32],
        owner: [u8; 32],
        mint: [u8; 32],
        token_program: [u8; 32],
    },
    /// Move `amount` base units of the token from `source` to `destination`
    /// under the signature of `authority`.
    TransferToken {
        token_program: [u8; 32],
        source: [u8; 32],
        destination: [u8; 32],
        authority: [u8; 32],
        amount: u64,
    },
}

impl LedgerCall {
    /// The host instruction that performs this call, if it can be built.
    pub open spec fn instruction_spec(&self) -> Option<Instruction> {
        match *self {
            LedgerCall::TransferNative { from, to, lamports } => Some(
                system_transfer_of(from@, to@, lamports),
            ),
            LedgerCall::EnsureHoldingAccount { funder, owner, mint, token_program } => Some(
                holding_account_of(funder@, owner@, mint@, token_program@),
            ),
            LedgerCall::TransferToken { token_program, source, destination, authority, amount } => {
                if is_token_program(token_program@) {
                    Some(token_transfer_of(token_program@, source@, destination@, authority@, amount))
                } else {
                    None
                }
            },
        }
    }

    /// Builds the host instruction for this call; a token transfer through a
    /// program other than the token program cannot be built.
    pub fn instruction(&self) -> (r: Option<Instruction>)
        ensures
            r == self.instruction_spec(),
    {
        match self {
            LedgerCall::TransferNative { from, to, lamports } => Some(
                system_transfer(from, to, *lamports),
            ),
            LedgerCall::EnsureHoldingAccount { funder, owner, mint, token_program } => Some(
                holding_account_instruction(funder, owner, mint, token_program),
            ),
            LedgerCall::TransferToken { token_program, source, destination, authority, amount } => {
                token_transfer(token_program, source, destination, authority, *amount)
            },
        }
    }
}

} // verus!
