//! Payout request shapes and the bank-details cross-validation rules.
//!
//! A bank destination is identified either by an IBAN or by an account
//! number together with at least one branch identifier (routing number, BIC,
//! sort code, BLZ, or transit number); the validator rejects every other
//! combination, in the order the rules are listed.

use vstd::prelude::*;

verus! {

/// A bank destination for a payout.
#[derive(Eq, PartialEq, Clone, Debug)]
pub struct Bank {
    /// Bank account number: a unique identifier a bank assigns to a customer.
    pub bank_account_number: Option<String>,
    /// Routing number: identifies a specific bank in the USA (9 digits).
    pub bank_routing_number: Option<String>,
    /// International Bank Account Number: identifies a bank and its customer.
    pub iban: Option<String>,
    /// Bank Identifier Code / SWIFT code: identifies a bank and its branches.
    pub bic: Option<String>,
    /// Sort code: identifies a bank and its branches in the UK and Ireland.
    pub bank_sort_code: Option<String>,
    /// Bankleitzahl: identifies a bank and its branches in Germany/Austria.
    pub blz: Option<String>,
    /// Transit number: identifies a bank and its branches in Canada.
    pub bank_transit_number: Option<String>,
    /// Bank name.
    pub bank_name: String,
}

impl Default for Bank {
    /// A sample USA bank destination: account and routing number set, every
    /// other identifier absent.
    fn default() -> (r: Self)
        ensures
            r.bank_account_number matches Some(a) && a@ == "000123456"@,
            r.bank_routing_number matches Some(n) && n@ == "110000000"@,
            r.iban is None,
            r.bic is None,
            r.bank_sort_code is None,
            r.blz is None,
            r.bank_transit_number is None,
            r.bank_name@ == "Deutsche Bank"@,
    {
        Bank {
            bank_account_number: Some(String::from_str("000123456")),
            bank_routing_number: Some(String::from_str("110000000")),
            iban: None,
            bic: None,
            bank_sort_code: None,
            blz: None,
            bank_transit_number: None,
            bank_name: String::from_str("Deutsche Bank"),
        }
    }
}

/// Why a combination of bank details is rejected.
#[derive(Clone, Copy, Debug, PartialEq, Eq, Structural)]
pub enum BankDetailsError {
    /// No identifier at all: at least an account number with a branch
    /// identifier, or an IBAN, must be provided.
    MissingDetails,
    /// A routing number was given without an account number.
    AccountNumberRequiredWithRoutingNumber,
    /// A BIC was given without an account number.
    AccountNumberRequiredWithBic,
    /// A sort code was given without an account number.
    AccountNumberRequiredWithSortCode,
    /// A BLZ was given without an account number.
    AccountNumberRequiredWithBlz,
    /// A transit number was given without an account number.
    AccountNumberRequiredWithTransitNumber,
    /// An account number was given without any branch identifier.
    AccountNumberNeedsBranchIdentifier,
}

/// The bank-details rules over the presence of each identifier, checked in
/// order: nothing at all; each branch identifier without an account number;
/// an account number without any branch identifier; everything else is
/// valid.
pub open spec fn spec_validate_bank_details(
    account: bool,
    routing: bool,
    iban: bool,
    bic: bool,
    sort_code: bool,
    blz: bool,
    transit: bool,
) -> Result<(), BankDetailsError> {
    if !account && !routing && !iban && !bic && !sort_code && !blz && !transit {
        Err(BankDetailsError::MissingDetails)
    } else if !account && routing {
        Err(BankDetailsError::AccountNumberRequiredWithRoutingNumber)
    } else if !account && bic {
        Err(BankDetailsError::AccountNumberRequiredWithBic)
    } else if !account && sort_code {
        Err(BankDetailsError::AccountNumberRequiredWithSortCode)
    } else if !account && blz {
        Err(BankDetailsError::AccountNumberRequiredWithBlz)
    } else if !account && transit {
        Err(BankDetailsError::AccountNumberRequiredWithTransitNumber)
    } else if account && !routing && !bic && !sort_code && !blz && !transit {
        Err(BankDetailsError::AccountNumberNeedsBranchIdentifier)
    } else {
        Ok(())
    }
}

/// Checks that a bank destination carries a valid combination of
/// identifiers.
pub fn validate_bank_details(bank: &Bank) -> (r: Result<(), BankDetailsError>)
    ensures
        r == spec_validate_bank_details(
            bank.bank_account_number is Some,
            bank.bank_routing_number is Some,
            bank.iban is Some,
            bank.bic is Some,
            bank.bank_sort_code is Some,
            bank.blz is Some,
            bank.bank_transit_number is Some,
        ),
{
    let account = bank.bank_account_number.is_some();
    let routing = bank.bank_routing_number.is_some();
    let iban = bank.iban.is_some();
    let bic = bank.bic.is_some();
    let sort_code = bank.bank_sort_code.is_some();
    let blz = bank.blz.is_some();
    let transit = bank.bank_transit_number.is_some();
    if !account && !routing && !iban && !bic && !sort_code && !blz && !transit {
        Err(BankDetailsError::MissingDetails)
    } else if !account && routing {
        Err(BankDetailsError::AccountNumberRequiredWithRoutingNumber)
    } else if !account && bic {
        Err(BankDetailsError::AccountNumberRequiredWithBic)
    } else if !account && sort_code {
        Err(BankDetailsError::AccountNumberRequiredWithSortCode)
    } else if !account && blz {
        Err(BankDetailsError::AccountNumberRequiredWithBlz)
    } else if !account && transit {
        Err(BankDetailsError::AccountNumberRequiredWithTransitNumber)
    } else if account && !routing && !bic && !sort_code && !blz && !transit {
        Err(BankDetailsError::AccountNumberNeedsBranchIdentifier)
    } else {
        Ok(())
    }
}

/// The body of a payout-retrieval request.
#[derive(Default, Debug, Clone, PartialEq)]
pub struct PayoutRetrieveBody {
    pub force_sync: Option<bool>,
}

/// A payout-retrieval request: the payout to look up, and whether to force a
/// synchronisation with the connector first.
#[derive(Default, Debug, Clone, PartialEq)]
pub struct PayoutRetrieveRequest {
    /// Unique identifier of the payout.
    pub payout_id: String,
    /// Force a sync with the connector before answering (defaults to off).
    pub force_sync: Option<bool>,
}

} // verus!
