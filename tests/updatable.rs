use sg_contracts::msg::Coin;
use sg_contracts::updatable::{
    nonpayable, CollectionInfo, ContractError, InstantiateMsg, Sg721Updatable,
};

const CREATOR: &str = "creator";
const HACKER: &str = "hacker";

fn new_collection() -> Sg721Updatable {
    let init_msg = InstantiateMsg {
        name: "SpaceShips".to_string(),
        symbol: "SPACE".to_string(),
        minter: CREATOR.to_string(),
        collection_info: CollectionInfo {
            creator: CREATOR.to_string(),
            description: "this is a test".to_string(),
            image: "https://larry.engineer".to_string(),
        },
    };
    let (c, res) = Sg721Updatable::instantiate(init_msg);
    assert_eq!(res.attributes[0].key, "action");
    assert_eq!(res.attributes[0].value, "instantiate");
    assert!(!c.frozen);
    assert!(c.tokens.is_empty());
    c
}

fn no_funds() -> Vec<Coin> {
    vec![]
}

#[test]
fn update_token_metadata() {
    let mut contract = new_collection();
    let creator = CREATOR.to_string();

    // Mint token
    let token_id = "Enterprise";
    contract
        .mint(
            &creator,
            token_id.to_string(),
            "john".to_string(),
            Some("https://starships.example.com/Starship/Enterprise.json".into()),
        )
        .unwrap();

    // Update token metadata fails because token id is not found
    let updated_token_uri: Option<String> =
        Some("https://badkids.example.com/collection-cid/1.json".into());
    let err = contract
        .execute_update_token_metadata(
            &creator,
            &no_funds(),
            "wrong-token-id".to_string(),
            updated_token_uri.clone(),
        )
        .unwrap_err();
    assert_eq!(err, ContractError::TokenIdNotFound);

    // Update token metadata fails because sent by hacker
    let err = contract
        .execute_update_token_metadata(
            &HACKER.to_string(),
            &no_funds(),
            token_id.to_string(),
            updated_token_uri.clone(),
        )
        .unwrap_err();
    assert_eq!(err, ContractError::Unauthorized);

    // Update token metadata
    contract
        .execute_update_token_metadata(
            &creator,
            &no_funds(),
            token_id.to_string(),
            updated_token_uri.clone(),
        )
        .unwrap();

    // Check token contains updated metadata
    let res = contract.nft_info(&token_id.to_string()).unwrap();
    assert_eq!(res.token_uri, updated_token_uri);

    // Update token metadata with None token_uri
    contract
        .execute_update_token_metadata(&creator, &no_funds(), token_id.to_string(), None)
        .unwrap();
    let res = contract.nft_info(&token_id.to_string()).unwrap();
    assert_eq!(res.token_uri, None);

    // Freeze token metadata
    contract
        .execute_freeze_token_metadata(&creator, &no_funds())
        .unwrap();

    // Throws error trying to update token metadata
    let updated_token_uri: Option<String> =
        Some("https://badkids.example.com/other-collection-cid/2.json".into());
    let err = contract
        .execute_update_token_metadata(&creator, &no_funds(), token_id.to_string(), updated_token_uri)
        .unwrap_err();
    assert_eq!(err, ContractError::TokenMetadataFrozen);
}

#[test]
fn creator_edits_until_frozen() {
    let mut c = new_collection();
    let creator = CREATOR.to_string();
    let id = "Enterprise".to_string();
    let u1 = "https://example.com/1.json".to_string();
    let u2 = "https://example.com/2.json".to_string();
    let u3 = "https://example.com/3.json".to_string();
    c.mint(&creator, id.clone(), "john".to_string(), Some(u1)).unwrap();

    let res = c
        .execute_update_token_metadata(&creator, &no_funds(), id.clone(), Some(u2.clone()))
        .unwrap();
    assert_eq!(res.events.len(), 1);
    assert_eq!(res.events[0].ty, "update_update_token_metadata");
    let attrs: Vec<(String, String)> = res.events[0]
        .attributes
        .iter()
        .map(|a| (a.key.clone(), a.value.clone()))
        .collect();
    assert_eq!(
        attrs,
        vec![
            ("sender".to_string(), creator.clone()),
            ("token_id".to_string(), id.clone()),
            ("token_uri".to_string(), u2.clone()),
        ]
    );
    assert_eq!(c.nft_info(&id).unwrap().token_uri, Some(u2.clone()));

    let before = c.clone();
    let err = c
        .execute_update_token_metadata(&HACKER.to_string(), &no_funds(), id.clone(), Some(u3.clone()))
        .unwrap_err();
    assert_eq!(err, ContractError::Unauthorized);
    assert_eq!(c, before);
    assert_eq!(c.nft_info(&id).unwrap().token_uri, Some(u2.clone()));

    let res = c.execute_freeze_token_metadata(&creator, &no_funds()).unwrap();
    assert!(c.frozen);
    assert_eq!(res.attributes[0].value, "freeze_token_metadata");
    assert_eq!(res.attributes[1].key, "frozen");
    assert_eq!(res.attributes[1].value, "true");

    let err = c
        .execute_update_token_metadata(&creator, &no_funds(), id.clone(), Some(u3))
        .unwrap_err();
    assert_eq!(err, ContractError::TokenMetadataFrozen);
    assert_eq!(c.nft_info(&id).unwrap().token_uri, Some(u2));
}

#[test]
fn frozen_refuses_every_caller() {
    let mut c = new_collection();
    let creator = CREATOR.to_string();
    c.mint(&creator, "a".to_string(), "john".to_string(), None).unwrap();
    c.execute_freeze_token_metadata(&creator, &no_funds()).unwrap();
    // freezing again succeeds and keeps the latch set
    c.execute_freeze_token_metadata(&creator, &no_funds()).unwrap();
    assert!(c.frozen);
    let err = c
        .execute_update_token_metadata(&creator, &no_funds(), "a".to_string(), None)
        .unwrap_err();
    assert_eq!(err, ContractError::TokenMetadataFrozen);
    let err = c
        .execute_update_token_metadata(&HACKER.to_string(), &no_funds(), "a".to_string(), None)
        .unwrap_err();
    assert_eq!(err, ContractError::Unauthorized);
    // an unknown id on a frozen collection is refused as frozen first
    let err = c
        .execute_update_token_metadata(&creator, &no_funds(), "zz".to_string(), None)
        .unwrap_err();
    assert_eq!(err, ContractError::TokenMetadataFrozen);
}

#[test]
fn only_creator_may_freeze() {
    let mut c = new_collection();
    let before = c.clone();
    let err = c
        .execute_freeze_token_metadata(&HACKER.to_string(), &no_funds())
        .unwrap_err();
    assert_eq!(err, ContractError::Unauthorized);
    assert_eq!(c, before);
    assert!(!c.frozen);
}

#[test]
fn unknown_token_leaves_records() {
    let mut c = new_collection();
    let creator = CREATOR.to_string();
    c.mint(&creator, "a".to_string(), "john".to_string(), Some("x".to_string()))
        .unwrap();
    let before = c.clone();
    let err = c
        .execute_update_token_metadata(&creator, &no_funds(), "b".to_string(), None)
        .unwrap_err();
    assert_eq!(err, ContractError::TokenIdNotFound);
    assert_eq!(c, before);
    assert!(c.nft_info(&"b".to_string()).is_none());
}

#[test]
fn attached_funds_are_refused() {
    let mut c = new_collection();
    let creator = CREATOR.to_string();
    c.mint(&creator, "a".to_string(), "john".to_string(), None).unwrap();
    let funds = vec![Coin { denom: "ustars".to_string(), amount: 5 }];
    assert_eq!(nonpayable(&funds), Err(ContractError::NonPayable));
    assert_eq!(nonpayable(&no_funds()), Ok(()));
    let err = c.execute_freeze_token_metadata(&creator, &funds).unwrap_err();
    assert_eq!(err, ContractError::NonPayable);
    assert!(!c.frozen);
    let err = c
        .execute_update_token_metadata(&creator, &funds, "a".to_string(), None)
        .unwrap_err();
    assert_eq!(err, ContractError::NonPayable);
}

#[test]
fn mint_checks_minter_and_id() {
    let mut c = new_collection();
    let creator = CREATOR.to_string();
    let err = c
        .mint(&HACKER.to_string(), "a".to_string(), "john".to_string(), None)
        .unwrap_err();
    assert_eq!(err, ContractError::Unauthorized);
    let res = c
        .mint(&creator, "a".to_string(), "john".to_string(), None)
        .unwrap();
    assert_eq!(res.attributes[0].value, "mint");
    assert_eq!(res.attributes[3].value, "a");
    let err = c
        .mint(&creator, "a".to_string(), "mary".to_string(), None)
        .unwrap_err();
    assert_eq!(err, ContractError::Claimed);
    assert_eq!(c.tokens.len(), 1);
    assert_eq!(c.nft_info(&"a".to_string()).unwrap().owner, "john");
    assert_eq!(c.query_creator(), creator);
}

#[test]
fn duplicate_ids_are_not_well_formed() {
    let mut c = new_collection();
    assert!(c.is_wf());
    c.mint(&CREATOR.to_string(), "a".to_string(), "john".to_string(), None)
        .unwrap();
    c.mint(&CREATOR.to_string(), "b".to_string(), "john".to_string(), None)
        .unwrap();
    assert!(c.is_wf());
    let dup = c.tokens[0].clone();
    c.tokens.push(dup);
    assert!(!c.is_wf());
}
