use vstd::prelude::*;

use crate::errors::FlashLoanArbitrageError;

verus! {

/// A ledger account or program identity: 32 bytes.
#[derive(Debug, Clone, Copy)]
pub struct Address {
    pub bytes: [u8; 32],
}

impl View for Address {
    type V = Seq<u8>;

    open spec fn view(&self) -> Seq<u8> {
        self.bytes@
    }
}

impl Address {
    pub fn new(bytes: [u8; 32]) -> (r: Address)
        ensures
            r@ == bytes@,
    {
        Address { bytes }
    }

    /// Whether the two addresses hold the same bytes.
    pub fn same_as(&self, other: &Address) -> (r: bool)
        ensures
            r == (self@ == other@),
    {
        let mut i: usize = 0;
        while i < 32
            invariant
                i <= 32,
                self@.len() == 32,
                other@.len() == 32,
                forall|j: int| 0 <= j < i ==> self@[j] == other@[j],
            decreases 32 - i,
        {
            if self.bytes[i] != other.bytes[i] {
                return false;
            }
            i = i + 1;
        }
        proof {
            assert(self@ =~= other@);
        }
        true
    }
}

/// The two keys of a token account that the checks read.
#[derive(Debug, Clone, Copy)]
pub struct TokenAccountKeys {
    /// Who may move the account's tokens.
    pub owner: Address,
    /// Which asset the account holds.
    pub mint: Address,
}

/// The identities a run works with, as read from the ledger before it starts.
#[derive(Debug, Clone, Copy)]
pub struct AccountSet {
    /// The signer that executes the arbitrage.
    pub authority: Address,
    pub lending_program: Address,
    /// Owner of the lender's reserve account.
    pub loan_reserve_owner: Address,
    /// Owner of the lender's fee account.
    pub lending_fee_owner: Address,
    /// The account that receives the loan and pays it back.
    pub loan_token_account: TokenAccountKeys,
    pub dex_a_program: Address,
    /// Owner of venue A's pool account.
    pub dex_a_pool_owner: Address,
    pub dex_a_input_token_account: TokenAccountKeys,
    pub dex_a_output_token_account: TokenAccountKeys,
    pub dex_b_program: Address,
    /// Owner of venue B's pool account.
    pub dex_b_pool_owner: Address,
    pub dex_b_input_token_account: TokenAccountKeys,
    pub dex_b_output_token_account: TokenAccountKeys,
}

/// The outcome of the token-account checks, first failure first: every
/// working account belongs to the authority, venue A takes the loaned asset,
/// venue B takes what venue A gives, and venue B gives the loaned asset back.
pub open spec fn token_accounts_outcome(a: AccountSet) -> Result<(), FlashLoanArbitrageError> {
    if a.loan_token_account.owner@ != a.authority@ {
        Err(FlashLoanArbitrageError::TokenAccountOwnerMismatch)
    } else if a.dex_a_input_token_account.mint@ != a.loan_token_account.mint@ {
        Err(FlashLoanArbitrageError::TokenAccountMintMismatch)
    } else if a.dex_a_input_token_account.owner@ != a.authority@ {
        Err(FlashLoanArbitrageError::TokenAccountOwnerMismatch)
    } else if a.dex_a_output_token_account.owner@ != a.authority@ {
        Err(FlashLoanArbitrageError::TokenAccountOwnerMismatch)
    } else if a.dex_b_input_token_account.mint@ != a.dex_a_output_token_account.mint@ {
        Err(FlashLoanArbitrageError::TokenAccountMintMismatch)
    } else if a.dex_b_input_token_account.owner@ != a.authority@ {
        Err(FlashLoanArbitrageError::TokenAccountOwnerMismatch)
    } else if a.dex_b_output_token_account.mint@ != a.loan_token_account.mint@ {
        Err(FlashLoanArbitrageError::TokenAccountMintMismatch)
    } else if a.dex_b_output_token_account.owner@ != a.authority@ {
        Err(FlashLoanArbitrageError::TokenAccountOwnerMismatch)
    } else {
        Ok(())
    }
}

/// Both lender accounts that the loan touches belong to the lending program.
pub open spec fn lender_owns_accounts(a: AccountSet) -> bool {
    a.loan_reserve_owner@ == a.lending_program@ && a.lending_fee_owner@ == a.lending_program@
}

/// Checks the token accounts of a run before anything else happens.
pub fn check_token_accounts(a: &AccountSet) -> (r: Result<(), FlashLoanArbitrageError>)
    ensures
        r == token_accounts_outcome(*a),
{
    if !a.loan_token_account.owner.same_as(&a.authority) {
        Err(FlashLoanArbitrageError::TokenAccountOwnerMismatch)
    } else if !a.dex_a_input_token_account.mint.same_as(&a.loan_token_account.mint) {
        Err(FlashLoanArbitrageError::TokenAccountMintMismatch)
    } else if !a.dex_a_input_token_account.owner.same_as(&a.authority) {
        Err(FlashLoanArbitrageError::TokenAccountOwnerMismatch)
    } else if !a.dex_a_output_token_account.owner.same_as(&a.authority) {
        Err(FlashLoanArbitrageError::TokenAccountOwnerMismatch)
    } else if !a.dex_b_input_token_account.mint.same_as(&a.dex_a_output_token_account.mint) {
        Err(FlashLoanArbitrageError::TokenAccountMintMismatch)
    } else if !a.dex_b_input_token_account.owner.same_as(&a.authority) {
        Err(FlashLoanArbitrageError::TokenAccountOwnerMismatch)
    } else if !a.dex_b_output_token_account.mint.same_as(&a.loan_token_account.mint) {
        Err(FlashLoanArbitrageError::TokenAccountMintMismatch)
    } else if !a.dex_b_output_token_account.owner.same_as(&a.authority) {
        Err(FlashLoanArbitrageError::TokenAccountOwnerMismatch)
    } else {
        Ok(())
    }
}

/// Checks that the lender's reserve and fee accounts belong to the lending
/// program, before the loan is requested.
pub fn check_lender_accounts(a: &AccountSet) -> (r: Result<(), FlashLoanArbitrageError>)
    ensures
        r is Ok <==> lender_owns_accounts(*a),
        r is Err ==> r == Err::<(), _>(FlashLoanArbitrageError::LendingPoolOwnerMismatch),
{
    if !a.loan_reserve_owner.same_as(&a.lending_program) {
        Err(FlashLoanArbitrageError::LendingPoolOwnerMismatch)
    } else if !a.lending_fee_owner.same_as(&a.lending_program) {
        Err(FlashLoanArbitrageError::LendingPoolOwnerMismatch)
    } else {
        Ok(())
    }
}

} // verus!
