//! The error codes of the HTTP admission API.

use vstd::prelude::*;

verus! {

/// The codes with which the hub refuses the admission of a wallet.
pub const ADMISSION_CREATE_ERROR_CODES: [&'static str; 4] = [
    "TOKEN_NOT_REGISTERED",
    "WALLET_BLACKLISTED",
    "WALLET_ALREADY_ADMITTED",
    "INVALID_ADMISSION_SIGNATURE",
];

/// The codes with which the hub refuses the admission of several wallets.
pub const ADMISSION_CREATE_BULK_ERROR_CODES: [&'static str; 3] = [
    "TOO_MANY_ADMISSION_REQUESTS",
    "TOKEN_NOT_REGISTERED",
    "INVALID_ADMISSION_SIGNATURE",
];

} // verus!
