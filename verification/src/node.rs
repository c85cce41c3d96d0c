//! Errors of the ledger-contract source.
//!
//! The fetchers that talk to the ledger live in the surrounding binary;
//! they classify every failure into one of these variants before the
//! result reaches the engine, which treats any of them as "skip this
//! cycle, retry on the next".

use vstd::prelude::*;

verus! {

/// Why a fetch from the ledger contract failed.
#[derive(Debug, Clone, Copy, PartialEq, Eq)]
pub enum NodeError {
    Internal,
    ContractAddress,
    RPCUrl,
    ContractAbi,
    ContractResponseParse,
    JsonError,
    HttpError,
}

} // verus!
