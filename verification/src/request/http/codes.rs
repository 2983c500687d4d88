//! The error codes of every endpoint, by endpoint.
//!
//! The hub answers a refused request with one of a closed list of codes. The
//! lists are data of the hub's contract: this module carries them and lets a
//! caller enumerate the codes of an endpoint or ask whether a code is one of
//! them.

use crate::json::names;
use crate::request::http::admission::{
    ADMISSION_CREATE_BULK_ERROR_CODES, ADMISSION_CREATE_ERROR_CODES,
};
use crate::request::http::swap::{
    SWAP_CANCEL_UPDATE_ERROR_CODES, SWAP_CREATE_ERROR_CODES, SWAP_FINALIZE_UPDATE_ERROR_CODES,
    SWAP_FREEZE_UPDATE_ERROR_CODES,
};
use crate::request::http::transfer::{TRANSFER_CREATE_ERROR_CODES, TRANSFER_UPDATE_ERROR_CODES};
use vstd::prelude::*;

verus! {

/// The endpoints that refuse a request with a code.
#[derive(Clone, Copy, Debug, PartialEq, Eq, Structural)]
pub enum Endpoint {
    AdmissionCreate,
    AdmissionCreateBulk,
    SwapCreate,
    SwapCancelUpdate,
    SwapFinalizeUpdate,
    SwapFreezeUpdate,
    TransferCreate,
    TransferUpdate,
}

/// The codes of an endpoint, in the order of the hub's documentation.
pub open spec fn table(endpoint: Endpoint) -> Seq<&'static str> {
    match endpoint {
        Endpoint::AdmissionCreate => ADMISSION_CREATE_ERROR_CODES@,
        Endpoint::AdmissionCreateBulk => ADMISSION_CREATE_BULK_ERROR_CODES@,
        Endpoint::SwapCreate => SWAP_CREATE_ERROR_CODES@,
        Endpoint::SwapCancelUpdate => SWAP_CANCEL_UPDATE_ERROR_CODES@,
        Endpoint::SwapFinalizeUpdate => SWAP_FINALIZE_UPDATE_ERROR_CODES@,
        Endpoint::SwapFreezeUpdate => SWAP_FREEZE_UPDATE_ERROR_CODES@,
        Endpoint::TransferCreate => TRANSFER_CREATE_ERROR_CODES@,
        Endpoint::TransferUpdate => TRANSFER_UPDATE_ERROR_CODES@,
    }
}

/// Copies the codes of a list.
fn listed(codes: &[&'static str]) -> (list: Vec<&'static str>)
    ensures
        list@ == codes@,
{
    let mut list: Vec<&'static str> = Vec::new();
    let mut i: usize = 0;
    while i < codes.len()
        invariant
            i <= codes.len(),
            list@ == codes@.take(i as int),
        decreases codes.len() - i,
    {
        list.push(codes[i]);
        assert(codes@.take(i + 1) =~= codes@.take(i as int).push(codes@[i as int]));
        i = i + 1;
    }
    assert(codes@.take(codes@.len() as int) =~= codes@);
    list
}

/// The codes of an endpoint.
pub fn error_codes(endpoint: Endpoint) -> (codes: Vec<&'static str>)
    ensures
        codes@ == table(endpoint),
{
    match endpoint {
        Endpoint::AdmissionCreate => listed(&ADMISSION_CREATE_ERROR_CODES),
        Endpoint::AdmissionCreateBulk => listed(&ADMISSION_CREATE_BULK_ERROR_CODES),
        Endpoint::SwapCreate => listed(&SWAP_CREATE_ERROR_CODES),
        Endpoint::SwapCancelUpdate => listed(&SWAP_CANCEL_UPDATE_ERROR_CODES),
        Endpoint::SwapFinalizeUpdate => listed(&SWAP_FINALIZE_UPDATE_ERROR_CODES),
        Endpoint::SwapFreezeUpdate => listed(&SWAP_FREEZE_UPDATE_ERROR_CODES),
        Endpoint::TransferCreate => listed(&TRANSFER_CREATE_ERROR_CODES),
        Endpoint::TransferUpdate => listed(&TRANSFER_UPDATE_ERROR_CODES),
    }
}

/// Tells whether `code` is one of the codes of an endpoint.
pub fn is_error_code(endpoint: Endpoint, code: &str) -> (known: bool)
    ensures
        known == names(table(endpoint)).contains(code@),
{
    let codes = error_codes(endpoint);
    crate::json::is_known(&codes, &code.to_owned())
}

} // verus!
