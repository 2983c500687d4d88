//! The error codes of the HTTP transfer API.

use vstd::prelude::*;

verus! {

/// The codes with which the hub refuses a new transfer.
pub const TRANSFER_CREATE_ERROR_CODES: [&'static str; 13] = [
    "INVALID_DEBIT_AMOUNT",
    "CREDIT_WALLET_NOT_ADMITTED",
    "DEBIT_WALLET_NOT_ADMITTED",
    "DEBIT_CREDIT_WALLET_ADDRESS_MATCH",
    "EON_NUMBER_OUT_OF_SYNC",
    "DEBIT_WALLET_EXCEEDED_SLA",
    "CREDIT_WALLET_EXCEEDED_SLA",
    "DEBIT_WALLET_CANNOT_ADD_TRANSACTION",
    "CREDIT_WALLET_CANNOT_ADD_TRANSACTION",
    "DEBIT_WALLET_OVERSPENDING",
    "DEBIT_WALLET_BALANCE_MARKER_EXCEED_BALANCE",
    "INVALID_DEBIT_BALANCE_SIGNATURE",
    "INVALID_DEBIT_SIGNATURE",
];

/// The codes with which the hub refuses the update of a transfer.
pub const TRANSFER_UPDATE_ERROR_CODES: [&'static str; 5] = [
    "TRANSFER_ALREADY_APPROVED",
    "TRANSFER_TIMED_OUT",
    "CREDIT_WALLET_EXCEEDED_SLA",
    "CREDIT_WALLET_CANNOT_ADD_TRANSACTION",
    "INVALID_CREDIT_SIGNATURE",
];

} // verus!
