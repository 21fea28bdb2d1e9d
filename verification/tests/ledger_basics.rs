//! The ledger's construction and its registry surface.

use l2e::L2eTop;

#[test]
fn test_init_contract() {
    let deployer = "bob.near".to_string();
    let contract = L2eTop::init(deployer.clone(), "erc20.near".to_string(), "erc721.near".to_string());

    // no set_greeting was called, so the default "Hello" greeting is reported
    assert_eq!(contract.get_greeting(), "Hello");

    assert!(contract.balances.len() == 1);
    assert_eq!(contract.balances[0].spender, deployer);
    assert!(contract.balances[0].entries.is_empty());

    assert!(contract.nfts.len() == 1);
    assert_eq!(contract.nfts[0].owner, deployer);
    assert!(contract.nfts[0].entries.is_empty());

    assert!(contract.erc20_address.len() == 1);
    assert_eq!(contract.erc20_address[0], "erc20.near");

    assert!(contract.erc721_address.len() == 1);
    assert_eq!(contract.erc721_address[0], "erc721.near");

    // the receipt-identifier counter is seeded at 1000
    assert_eq!(contract.token_id_num, 1000u128);

    assert!(contract.admin_address.len() == 1);
    assert!(contract.admin_address.contains(&deployer));

    assert!(contract.auth_token_owner.len() == 1);
    assert!(contract.auth_token_owner.contains(&deployer));

    assert!(contract.pending_requests.is_empty());
}

#[test]
fn test_all_get_and_add_functions() {
    let deployer = "bob.near".to_string();
    let new_admin = "new_admin.near".to_string();
    let new_auth = "new_auth.near".to_string();

    let mut contract = L2eTop::init(deployer.clone(), "erc20.near".to_string(), "erc721.near".to_string());

    assert!(contract.add_admin_address(&deployer, &new_admin));
    assert!(contract.add_auth_token_owner(&deployer, &new_auth));

    assert_eq!(contract.get_erc20_address(), vec!["erc20.near".to_owned()]);
    assert_eq!(contract.get_erc721_address(), vec!["erc721.near".to_owned()]);
    assert_eq!(
        contract.get_admin_address(),
        vec![deployer.clone(), "new_admin.near".to_owned()]
    );
    assert_eq!(
        contract.get_auth_token_owner(),
        vec![deployer.clone(), "new_auth.near".to_owned()]
    );

    assert_eq!(contract.get_all_spender_claim_for_owner(&deployer), Some(vec![]));
    assert_eq!(contract.get_all_owner_rewards_for_spender(&deployer), Some(vec![]));
    assert_eq!(
        contract.get_allowances_for_spender(&deployer, &"owner.near".to_string()),
        Some((0, 0))
    );

    assert_eq!(contract.balances.len(), 2);
    assert!(contract.balances.iter().any(|r| r.spender == deployer));
    assert!(contract.balances.iter().any(|r| r.spender == new_auth));

    assert_eq!(contract.nfts.len(), 2);
    assert!(contract.nfts.iter().any(|r| r.owner == deployer));
    assert!(contract.nfts.iter().any(|r| r.owner == new_auth));
}

#[test]
fn add_admin_requires_membership_and_novelty() {
    let deployer = "root.near".to_string();
    let outsider = "mallory.near".to_string();
    let candidate = "new_admin.near".to_string();
    let mut contract = L2eTop::init(deployer.clone(), "ft.near".to_string(), "nft.near".to_string());

    // a non-administrator caller never changes the set
    assert!(!contract.add_admin_address(&outsider, &candidate));
    assert_eq!(contract.get_admin_address(), vec![deployer.clone()]);

    // adding an existing member reports failure and changes nothing
    assert!(!contract.add_admin_address(&deployer, &deployer));
    assert_eq!(contract.get_admin_address(), vec![deployer.clone()]);

    // a proper insertion extends the set, once
    assert!(contract.add_admin_address(&deployer, &candidate));
    assert!(!contract.add_admin_address(&deployer, &candidate));
    assert_eq!(contract.get_admin_address(), vec![deployer, candidate]);
}

#[test]
fn add_auth_token_owner_is_idempotent_and_gated() {
    let deployer = "root.near".to_string();
    let outsider = "mallory.near".to_string();
    let member = "owner.near".to_string();
    let mut contract = L2eTop::init(deployer.clone(), "ft.near".to_string(), "nft.near".to_string());

    assert!(!contract.add_auth_token_owner(&outsider, &member));
    assert_eq!(contract.get_auth_token_owner(), vec![deployer.clone()]);

    assert!(contract.add_auth_token_owner(&deployer, &member));
    // repeating the call still reports success and adds nothing more
    assert!(contract.add_auth_token_owner(&deployer, &member));
    assert_eq!(contract.get_auth_token_owner(), vec![deployer, member.clone()]);
    assert_eq!(contract.balances.iter().filter(|r| r.spender == member).count(), 1);
    assert_eq!(contract.nfts.iter().filter(|r| r.owner == member).count(), 1);
}

#[test]
fn add_contract_address_deduplicates() {
    let deployer = "root.near".to_string();
    let outsider = "mallory.near".to_string();
    let auth_owner = "owner.near".to_string();
    let mut contract = L2eTop::init(deployer.clone(), "ft.near".to_string(), "nft.near".to_string());

    assert!(!contract.add_contract_address(&outsider, &"ft2.near".to_string(), &"nft2.near".to_string()));
    assert_eq!(contract.get_erc20_address(), vec!["ft.near".to_owned()]);

    assert!(contract.add_contract_address(&deployer, &"ft2.near".to_string(), &"nft2.near".to_string()));
    // an already-registered address is not appended again, yet the call
    // still reports success for an authorized caller
    assert!(contract.add_contract_address(&deployer, &"ft2.near".to_string(), &"nft3.near".to_string()));
    assert_eq!(contract.get_erc20_address(), vec!["ft.near".to_owned(), "ft2.near".to_owned()]);
    assert_eq!(
        contract.get_erc721_address(),
        vec!["nft.near".to_owned(), "nft2.near".to_owned(), "nft3.near".to_owned()]
    );

    // an authorized owner may extend the registry too
    assert!(contract.add_auth_token_owner(&deployer, &auth_owner));
    assert!(contract.add_contract_address(&auth_owner, &"ft3.near".to_string(), &"nft3.near".to_string()));
    assert_eq!(
        contract.get_erc20_address(),
        vec!["ft.near".to_owned(), "ft2.near".to_owned(), "ft3.near".to_owned()]
    );
}

#[test]
fn greeting_round_trip() {
    let mut contract = L2eTop::init("a.near".to_string(), "ft.near".to_string(), "nft.near".to_string());
    assert_eq!(contract.get_greeting(), "Hello");
    contract.set_greeting("howdy".to_string());
    assert_eq!(contract.get_greeting(), "howdy");
}

#[test]
fn decimal_rendering_is_exact() {
    assert_eq!(l2e::decimal_string(0), "0");
    assert_eq!(l2e::decimal_string(7), "7");
    assert_eq!(l2e::decimal_string(42), "42");
    assert_eq!(l2e::decimal_string(1000), "1000");
    assert_eq!(l2e::decimal_string(90125), "90125");
    assert_eq!(
        l2e::decimal_string(u128::MAX),
        "340282366920938463463374607431768211455"
    );
}
