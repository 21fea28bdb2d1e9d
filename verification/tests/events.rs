//! Serialized event records, compared character by character against the
//! NEP-style log lines the protocol emits.

use l2e::{BalacnesTransferLog, EventLog, EventLogVariant, NftTransferLog};

#[test]
fn nep_format_ft_address() {
    let expected = r#"EVENT_JSON:{"standard":"l2e.top","version":"1.0.0","event":"f_t_address","data":["token.near","token2.near"]}"#;
    let log = EventLog {
        standard: "l2e.top".to_string(),
        version: "1.0.0".to_string(),
        event: EventLogVariant::FTAddress(vec![
            "token.near".to_string(),
            "token2.near".to_string(),
        ]),
    };
    assert_eq!(expected, log.to_string());
}

#[test]
fn nep_format_nft_address() {
    let expected = r#"EVENT_JSON:{"standard":"l2e.top","version":"1.0.0","event":"n_f_t_address","data":["nft.near","nft2.near"]}"#;
    let log = EventLog {
        standard: "l2e.top".to_string(),
        version: "1.0.0".to_string(),
        event: EventLogVariant::NFTAddress(vec!["nft.near".to_string(), "nft2.near".to_string()]),
    };
    assert_eq!(expected, log.to_string());
}

#[test]
fn nep_format_admin_address() {
    let expected = r#"EVENT_JSON:{"standard":"l2e.top","version":"1.0.0","event":"admin_address","data":["admin.near"]}"#;
    let log = EventLog {
        standard: "l2e.top".to_string(),
        version: "1.0.0".to_string(),
        event: EventLogVariant::AdminAddress(vec!["admin.near".to_string()]),
    };
    assert_eq!(expected, log.to_string());
}

#[test]
fn nep_format_auth_owner_address() {
    let expected = r#"EVENT_JSON:{"standard":"l2e.top","version":"1.0.0","event":"auth_owner_address","data":["auth_owner.near"]}"#;
    let log = EventLog {
        standard: "l2e.top".to_string(),
        version: "1.0.0".to_string(),
        event: EventLogVariant::AuthOwnerAddress(vec!["auth_owner.near".to_string()]),
    };
    assert_eq!(expected, log.to_string());
}

#[test]
fn nep_format_all_spender_claimed_for_owner() {
    let expected = r#"EVENT_JSON:{"standard":"l2e.top","version":"1.0.0","event":"all_spender_claimed_for_owner","data":[["spender1.near","token1.near",true],["spender2.near","token2.near",false]]}"#;
    let log = EventLog {
        standard: "l2e.top".to_string(),
        version: "1.0.0".to_string(),
        event: EventLogVariant::AllSpenderClaimedForOwner(vec![
            ("spender1.near".to_string(), "token1.near".to_string(), true),
            ("spender2.near".to_string(), "token2.near".to_string(), false),
        ]),
    };
    assert_eq!(expected, log.to_string());
}

#[test]
fn nep_format_all_owner_rewards_for_spender() {
    let expected = r#"EVENT_JSON:{"standard":"l2e.top","version":"1.0.0","event":"all_owner_rewards_for_spender","data":[["owner1.near","1","100"]]}"#;
    let log = EventLog {
        standard: "l2e.top".to_string(),
        version: "1.0.0".to_string(),
        event: EventLogVariant::AllOwnerRewardsForSpender(vec![
            ("owner1.near".to_string(), "1".to_string(), "100".to_string()),
        ]),
    };
    assert_eq!(expected, log.to_string());
}

#[test]
fn nep_format_allowances_for_spender() {
    let expected = r#"EVENT_JSON:{"standard":"l2e.top","version":"1.0.0","event":"allowances_for_spender"}"#;
    let log = EventLog {
        standard: "l2e.top".to_string(),
        version: "1.0.0".to_string(),
        event: EventLogVariant::AllowancesForSpender,
    };
    assert_eq!(expected, log.to_string());
}

#[test]
fn nep_format_transfer_nft() {
    let expected = r#"EVENT_JSON:{"standard":"l2e.top","version":"1.0.0","event":"transfer_nft_from","data":[{"authorized_id":"market.near","old_owner_id":"user1.near","new_owner_id":"user2.near","token_ids":["token"],"memo":"L2E Team!"}]}"#;
    let log = EventLog {
        standard: "l2e.top".to_string(),
        version: "1.0.0".to_string(),
        event: EventLogVariant::TransferNftFrom(vec![NftTransferLog {
            authorized_id: Some("market.near".to_string()),
            old_owner_id: "user1.near".to_string(),
            new_owner_id: "user2.near".to_string(),
            token_ids: vec!["token".to_string()],
            memo: Some("L2E Team!".to_owned()),
        }]),
    };
    assert_eq!(expected, log.to_string());
}

#[test]
fn nep_format_transfer_balances() {
    let expected = r#"EVENT_JSON:{"standard":"l2e.top","version":"1.0.0","event":"transfer_balacnes_from","data":[{"authorized_id":"market.near","old_owner_id":"user1.near","new_owner_id":"user2.near","main_token_amount":["near"],"ft_token_amount":["token"],"memo":"L2E Team!"}]}"#;
    let log = EventLog {
        standard: "l2e.top".to_string(),
        version: "1.0.0".to_string(),
        event: EventLogVariant::TransferBalacnesFrom(vec![BalacnesTransferLog {
            authorized_id: Some("market.near".to_string()),
            old_owner_id: "user1.near".to_string(),
            new_owner_id: "user2.near".to_string(),
            main_token_amount: vec!["near".to_string()],
            ft_token_amount: vec!["token".to_string()],
            memo: Some("L2E Team!".to_owned()),
        }]),
    };
    assert_eq!(expected, log.to_string());
}

#[test]
fn nep_format_omits_absent_optional_fields() {
    let expected = r#"EVENT_JSON:{"standard":"l2e.top","version":"1.0.0","event":"transfer_nft_from","data":[{"old_owner_id":"a","new_owner_id":"b","token_ids":[]}]}"#;
    let log = EventLog {
        standard: "l2e.top".to_string(),
        version: "1.0.0".to_string(),
        event: EventLogVariant::TransferNftFrom(vec![NftTransferLog {
            authorized_id: None,
            old_owner_id: "a".to_string(),
            new_owner_id: "b".to_string(),
            token_ids: vec![],
            memo: None,
        }]),
    };
    assert_eq!(expected, log.to_string());
}

#[test]
fn nep_format_escapes_like_serde_json() {
    // quotes, backslashes and control characters are escaped exactly as a
    // serde_json serialization of the same strings would escape them
    let tricky = "we\"ird\\name\nwith\tcontrols\u{1f}\u{8}\u{c}\rend";
    let addr = "plain.near";
    let log = EventLog {
        standard: tricky.to_string(),
        version: "1.0.0".to_string(),
        event: EventLogVariant::FTAddress(vec![tricky.to_string(), addr.to_string()]),
    };
    let expected = format!(
        "EVENT_JSON:{{\"standard\":{},\"version\":\"1.0.0\",\"event\":\"f_t_address\",\"data\":[{},{}]}}",
        serde_json::to_string(tricky).unwrap(),
        serde_json::to_string(tricky).unwrap(),
        serde_json::to_string(addr).unwrap(),
    );
    assert_eq!(expected, log.to_string());
}
