//! Values exchanged with the external collaborator programs: the journal of
//! dispatched requests, and the plain shapes of what the collaborators report
//! back to the continuation handlers.
//!
//! The ledger never performs a cross-program call itself.  Every operation
//! that wants one appends an [`OutboundRequest`] to the ledger's journal and
//! returns; an unverified shell drains the journal and performs the calls
//! asynchronously.  Once journalled, a request is never cancelled or retried
//! here: its outcome is reported to one of the continuation handlers on the
//! ledger, which only observe it.

use vstd::prelude::*;

verus! {

/// Metadata carried by a receipt mint request.
#[derive(Clone, Debug, PartialEq, Eq)]
pub struct ReceiptMetadata {
    pub title: Option<String>,
    pub description: Option<String>,
    pub copies: Option<u64>,
}

/// A minted receipt token, as the non-fungible-token registry reports it.
#[derive(Clone, Debug, PartialEq, Eq)]
pub struct MintedToken {
    pub token_id: String,
    pub owner_id: String,
}

/// Why a dispatched collaborator call delivered no result to its
/// continuation.
#[derive(Clone, Copy, Debug, PartialEq, Eq, Structural)]
pub enum CallFailure {
    /// The collaborator call executed and failed.
    Failed,
    /// The collaborator call never resolved.
    NotReady,
}

/// Storage registration state of an account on the fungible-token ledger.
#[derive(Clone, Copy, Debug, PartialEq, Eq, Structural)]
pub struct StorageBalanceInfo {
    pub total: u128,
    pub available: u128,
}

/// One journalled request to an external collaborator, recorded by the
/// operation that decided to dispatch it.
#[derive(Clone, Debug, PartialEq, Eq)]
pub enum OutboundRequest {
    /// Ask the non-fungible-token registry to mint a receipt token owned by
    /// the ledger program itself (custody until claimed).
    NftMint { registry: String, token_id: String, metadata: ReceiptMetadata },
    /// Ask the non-fungible-token registry to move a receipt token to `to`.
    NftTransfer { registry: String, to: String, token_id: String },
    /// Pay out native currency held by the ledger program to `to`.
    NativeTransfer { to: String, amount: u128 },
    /// Ask the fungible-token ledger to move `amount` to `to`.
    FtTransfer { ledger: String, to: String, amount: u128 },
    /// Ask the fungible-token ledger whether `account` has storage allocated.
    StorageBalanceQuery { ledger: String, account: String },
    /// Ask the fungible-token ledger to register `account`.
    StorageDeposit { ledger: String, account: String, registration_only: bool },
}

} // verus!
