//! Multi-asset escrow and delegated-claim ledger.
//!
//! An owner escrows a native-currency amount and a fungible-token amount for
//! a spender and has a non-fungible receipt minted as proof of authorization.
//! The spender claims the receipt first, then the escrowed balances, gated on
//! the receipt having been claimed.  All asset movements are performed by
//! external collaborator programs; this crate records the decisions and
//! journals the requests it wants dispatched, and an unverified shell performs
//! the actual asynchronous calls.

mod events;
mod laws;
mod ledger;
mod requests;
mod text;

pub use events::{BalacnesTransferLog, EventLog, EventLogVariant, NftTransferLog};
pub use laws::{
    lemma_admin_set_monotonic, lemma_approve_establishes_claim,
    lemma_claim_balances_needs_prior_claim, lemma_claim_receipt_once,
    lemma_second_approve_rejected,
};
pub use ledger::{BalanceEntry, L2eTop, OwnerReceipts, ReceiptEntry, SpenderAllowances};
pub use requests::{CallFailure, MintedToken, OutboundRequest, ReceiptMetadata, StorageBalanceInfo};
pub use text::decimal_string;
