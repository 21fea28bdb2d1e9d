//! The approve → claim-receipt → claim-balances protocol, the journal it
//! leaves for the dispatcher, and the continuation handlers.

use l2e::{
    CallFailure, L2eTop, MintedToken, OutboundRequest, ReceiptMetadata, StorageBalanceInfo,
};

fn fresh() -> L2eTop {
    L2eTop::init("a.near".to_string(), "ft.near".to_string(), "nft.near".to_string())
}

fn default_metadata() -> ReceiptMetadata {
    ReceiptMetadata {
        title: Some("L2E.TOP Chain Near Network".to_string()),
        description: Some("Near Network and L2E.TOP Joint Certification Reward.".to_string()),
        copies: Some(1),
    }
}

#[test]
fn approve_records_allowance_and_receipt() {
    // initialize with administrator A; A approves spender S with native 5,
    // token 3 and attached value 5
    let a = "a.near".to_string();
    let s = "s.near".to_string();
    let mut c = fresh();
    assert!(c.approve_for_spender(&a, &s, 5, 3, 5, None, None, None));
    assert_eq!(c.get_allowances_for_spender(&s, &a), Some((5, 3)));
    // exactly one unclaimed receipt exists for the pair, with the first
    // identifier after the counter's seed
    assert_eq!(
        c.get_all_spender_claim_for_owner(&a),
        Some(vec![(s.clone(), "1001".to_string(), false)])
    );
    assert_eq!(c.token_id_num, 1001u128);
    // the journal holds the storage check for the new spender, then the mint
    let requests = c.take_pending_requests();
    assert_eq!(
        requests,
        vec![
            OutboundRequest::StorageBalanceQuery { ledger: "ft.near".to_string(), account: s.clone() },
            OutboundRequest::NftMint {
                registry: "nft.near".to_string(),
                token_id: "1001".to_string(),
                metadata: default_metadata(),
            },
        ]
    );
    assert!(c.pending_requests.is_empty());
}

#[test]
fn approve_rejects_uncovered_amount() {
    // attached value 4 below the native amount 5: rejected, nothing recorded
    let a = "a.near".to_string();
    let s = "s.near".to_string();
    let mut c = fresh();
    assert!(!c.approve_for_spender(&a, &s, 5, 3, 4, None, None, None));
    assert_eq!(c.get_allowances_for_spender(&s, &a), None);
    assert_eq!(c.get_all_spender_claim_for_owner(&a), Some(vec![]));
    assert!(c.take_pending_requests().is_empty());
}

#[test]
fn approve_rejects_zero_amount_and_unknown_owner() {
    let a = "a.near".to_string();
    let s = "s.near".to_string();
    let mut c = fresh();
    assert!(!c.approve_for_spender(&a, &s, 0, 3, 5, None, None, None));
    // an owner without a receipt collection was never authorized
    assert!(!c.approve_for_spender(&"ghost.near".to_string(), &s, 5, 3, 5, None, None, None));
    assert_eq!(c.get_allowances_for_spender(&s, &a), None);
    assert!(c.take_pending_requests().is_empty());
}

#[test]
fn second_approve_for_same_pair_is_rejected() {
    let a = "a.near".to_string();
    let s = "s.near".to_string();
    let mut c = fresh();
    assert!(c.approve_for_spender(&a, &s, 5, 3, 5, None, None, None));
    let receipts_before = c.get_all_spender_claim_for_owner(&a);
    assert!(!c.approve_for_spender(&a, &s, 9, 9, 9, None, None, None));
    // the ledger is unchanged
    assert_eq!(c.get_allowances_for_spender(&s, &a), Some((5, 3)));
    assert_eq!(c.get_all_spender_claim_for_owner(&a), receipts_before);
    assert_eq!(c.token_id_num, 1001u128);
}

#[test]
fn approve_uses_overrides_and_custom_metadata() {
    let a = "a.near".to_string();
    let s = "s.near".to_string();
    let md = ReceiptMetadata {
        title: Some("custom".to_string()),
        description: None,
        copies: Some(3),
    };
    let mut c = fresh();
    assert!(c.approve_for_spender(
        &a,
        &s,
        2,
        1,
        2,
        Some(md.clone()),
        Some("ft-override.near".to_string()),
        Some("nft-override.near".to_string()),
    ));
    let requests = c.take_pending_requests();
    assert_eq!(
        requests,
        vec![
            OutboundRequest::StorageBalanceQuery {
                ledger: "ft-override.near".to_string(),
                account: s.clone(),
            },
            OutboundRequest::NftMint {
                registry: "nft-override.near".to_string(),
                token_id: "1001".to_string(),
                metadata: md,
            },
        ]
    );
}

#[test]
fn claim_receipt_succeeds_once() {
    // S claims the receipt: true; a second claim finds no unclaimed record
    let a = "a.near".to_string();
    let s = "s.near".to_string();
    let mut c = fresh();
    assert!(c.approve_for_spender(&a, &s, 5, 3, 5, None, None, None));
    let _ = c.take_pending_requests();
    assert!(c.transfer_nft_from(&a, &s, None));
    assert_eq!(
        c.get_all_spender_claim_for_owner(&a),
        Some(vec![(s.clone(), "1001".to_string(), true)])
    );
    // the transfer request was journalled with the receipt's identifier
    assert_eq!(
        c.take_pending_requests(),
        vec![OutboundRequest::NftTransfer {
            registry: "nft.near".to_string(),
            to: s.clone(),
            token_id: "1001".to_string(),
        }]
    );
    // idempotent in effect on the flag: the second call fails and journals
    // nothing new
    assert!(!c.transfer_nft_from(&a, &s, None));
    assert!(c.take_pending_requests().is_empty());
}

#[test]
fn claim_balances_requires_claimed_receipt() {
    // before any receipt claim, the balance claim fails
    let a = "a.near".to_string();
    let s = "s.near".to_string();
    let mut c = fresh();
    assert!(c.approve_for_spender(&a, &s, 5, 3, 5, None, None, None));
    let _ = c.take_pending_requests();
    assert!(!c.transfer_balances_from(&a, &s, None));
    assert!(c.take_pending_requests().is_empty());
    // for a pair with no receipt at all it fails too
    assert!(!c.transfer_balances_from(&a, &"other.near".to_string(), None));
}

#[test]
fn claim_balances_pays_out_recorded_amounts() {
    let a = "a.near".to_string();
    let s = "s.near".to_string();
    let mut c = fresh();
    assert!(c.approve_for_spender(&a, &s, 5, 3, 5, None, None, None));
    assert!(c.transfer_nft_from(&a, &s, None));
    let _ = c.take_pending_requests();
    assert!(c.transfer_balances_from(&a, &s, None));
    assert_eq!(
        c.take_pending_requests(),
        vec![
            OutboundRequest::NativeTransfer { to: s.clone(), amount: 5 },
            OutboundRequest::FtTransfer { ledger: "ft.near".to_string(), to: s.clone(), amount: 3 },
        ]
    );
}

#[test]
fn repeated_claim_balances_redispatches_same_amounts() {
    // the allowance record is not zeroed after a payout: a repeated claim
    // re-reads and re-dispatches the same amounts — the double-spend hazard
    // the ledger states explicitly instead of silently mending
    let a = "a.near".to_string();
    let s = "s.near".to_string();
    let mut c = fresh();
    assert!(c.approve_for_spender(&a, &s, 5, 3, 5, None, None, None));
    assert!(c.transfer_nft_from(&a, &s, None));
    let _ = c.take_pending_requests();
    assert!(c.transfer_balances_from(&a, &s, None));
    let first = c.take_pending_requests();
    assert!(c.transfer_balances_from(&a, &s, None));
    let second = c.take_pending_requests();
    assert_eq!(first, second);
    assert_eq!(c.get_allowances_for_spender(&s, &a), Some((5, 3)));
}

#[test]
fn second_spender_reuses_allowance_collection() {
    // a spender with an existing collection gets no second storage check
    let a = "a.near".to_string();
    let b = "b.near".to_string();
    let s = "s.near".to_string();
    let mut c = fresh();
    assert!(c.add_auth_token_owner(&"a.near".to_string(), &b));
    assert!(c.approve_for_spender(&a, &s, 5, 3, 5, None, None, None));
    let _ = c.take_pending_requests();
    assert!(c.approve_for_spender(&b, &s, 2, 1, 2, None, None, None));
    let requests = c.take_pending_requests();
    assert_eq!(requests.len(), 1);
    assert!(matches!(requests[0], OutboundRequest::NftMint { .. }));
    assert_eq!(c.get_allowances_for_spender(&s, &a), Some((5, 3)));
    assert_eq!(c.get_allowances_for_spender(&s, &b), Some((2, 1)));
    // receipts got distinct, increasing identifiers
    assert_eq!(
        c.get_all_spender_claim_for_owner(&b),
        Some(vec![(s.clone(), "1002".to_string(), false)])
    );
}

#[test]
fn rewards_query_renders_amounts() {
    let a = "a.near".to_string();
    let s = "s.near".to_string();
    let mut c = fresh();
    assert!(c.approve_for_spender(&a, &s, 5, 3, 5, None, None, None));
    assert_eq!(
        c.get_all_owner_rewards_for_spender(&s),
        Some(vec![(a.clone(), "5".to_string(), "3".to_string())])
    );
    assert_eq!(c.get_all_owner_rewards_for_spender(&"nobody.near".to_string()), None);
}

#[test]
fn mint_callback_passes_token_through() {
    let c = fresh();
    let token = MintedToken { token_id: "1001".to_string(), owner_id: "l2e.near".to_string() };
    assert_eq!(c.nft_mint_callback(Ok(token.clone())), Some(token));
    assert_eq!(c.nft_mint_callback(Err(CallFailure::Failed)), None);
    assert_eq!(c.nft_mint_callback(Err(CallFailure::NotReady)), None);
}

#[test]
fn storage_callback_registers_missing_account() {
    let mut c = fresh();
    let ft = "ft.near".to_string();
    let s = "s.near".to_string();
    // an unregistered spender triggers a registration request
    assert_eq!(c.ft_storage_balance_of_callback(&ft, &s, Ok(None)), None);
    assert_eq!(
        c.take_pending_requests(),
        vec![OutboundRequest::StorageDeposit {
            ledger: ft.clone(),
            account: s.clone(),
            registration_only: true,
        }]
    );
    // a registered spender passes the balance through, with no new request
    let bal = StorageBalanceInfo { total: 100, available: 25 };
    assert_eq!(c.ft_storage_balance_of_callback(&ft, &s, Ok(Some(bal))), Some(bal));
    assert!(c.take_pending_requests().is_empty());
    // a failed check reports nothing and requests nothing
    assert_eq!(c.ft_storage_balance_of_callback(&ft, &s, Err(CallFailure::Failed)), None);
    assert!(c.take_pending_requests().is_empty());
}

#[test]
fn storage_deposit_callback_reports_outcome() {
    let c = fresh();
    let bal = StorageBalanceInfo { total: 100, available: 25 };
    assert_eq!(c.storage_deposit_callback(Ok(bal)), Some(true));
    assert_eq!(c.storage_deposit_callback(Err(CallFailure::Failed)), None);
}

#[test]
fn is_account_registered_for_ft_journals_a_check() {
    let mut c = fresh();
    assert!(c.is_account_registered_for_ft(&"s.near".to_string(), &"ft.near".to_string()));
    assert_eq!(
        c.take_pending_requests(),
        vec![OutboundRequest::StorageBalanceQuery {
            ledger: "ft.near".to_string(),
            account: "s.near".to_string(),
        }]
    );
}
