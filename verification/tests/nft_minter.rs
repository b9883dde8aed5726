use white_whale::contracts::nft_minter::{
    build_mint_msg, handle_initialize_liquidator, handle_mint_nft, handle_update_metadata, handle_update_owner,
    instantiate, query_config, reply, Config,
};
use white_whale::cosmos::{CosmosMsg, ExecutePayload, InstantiatePayload, ReplyOn, WasmMsg};
use white_whale::error::ContractError;
use white_whale::liquidation_helpers::nft::{Cw721ExecuteMsg, Metadata, MintMsg};
use white_whale::liquidation_helpers::nft_minter::InstantiateMsg;
use white_whale::math::Uint256;

fn metadata(name: Option<&str>) -> Metadata {
    Metadata {
        image: Some("ipfs://image".to_string()),
        image_data: None,
        external_url: None,
        description: Some("A liquidation".to_string()),
        name: name.map(|n| n.to_string()),
        attributes: None,
        background_color: None,
        animation_url: None,
        youtube_url: None,
    }
}

fn registered() -> Config {
    let mut config = instantiate(InstantiateMsg { owner: "owner".to_string(), cw721_code_id: 7 }, true).unwrap();
    let (tmp, res) = handle_initialize_liquidator(
        &config,
        &"owner".to_string(),
        &"minter".to_string(),
        "liq1".to_string(),
        metadata(Some("Whale")),
        "WHL".to_string(),
        "ipfs://token".to_string(),
    )
    .unwrap();
    assert_eq!(res.messages.len(), 1);
    let sub = &res.messages[0];
    assert_eq!(sub.id, 1);
    assert_eq!(sub.reply_on, ReplyOn::Success);
    match &sub.msg {
        CosmosMsg::Wasm(WasmMsg::Instantiate { code_id, msg: InstantiatePayload::Cw721(init), label, admin, .. }) => {
            assert_eq!(*code_id, 7);
            assert_eq!(init.name, "Whale");
            assert_eq!(init.symbol, "WHL");
            assert_eq!(init.minter, "minter");
            assert_eq!(label, "");
            assert_eq!(*admin, None);
        }
        _ => panic!("expected the collection's instantiation"),
    }
    reply(&mut config, Some(tmp), Some("nft1".to_string())).unwrap();
    config
}

fn minted(res: &white_whale::cosmos::Response) -> &MintMsg {
    match &res.messages[0].msg {
        CosmosMsg::Wasm(WasmMsg::Execute { contract_addr, msg: ExecutePayload::Cw721(Cw721ExecuteMsg::Mint(m)), .. }) => {
            assert_eq!(contract_addr, "nft1");
            m
        }
        _ => panic!("expected a mint"),
    }
}

#[test]
fn registration_and_minting() {
    let mut config = registered();
    assert_eq!(config.whitewhale_liquidators.len(), 1);
    assert_eq!(config.whitewhale_liquidators[0].nft_contract_addr, "nft1");
    assert_eq!(config.whitewhale_liquidators[0].total_minted, 0);

    let res = handle_mint_nft(&mut config, &"liq1".to_string(), 1000, "user1".to_string(), Uint256::from_u128(5000))
        .unwrap();
    let first = minted(&res).clone();
    assert_eq!(first.token_id, "1");
    assert_eq!(first.owner, "user1");
    assert_eq!(first.name, "Whale #1");
    assert_eq!(first.image, Some("ipfs://token".to_string()));
    assert_eq!(first.description, Some("A liquidation".to_string()));
    let attributes = first.extension.attributes.clone().unwrap();
    assert_eq!(attributes.len(), 3);
    assert_eq!(attributes[0].trait_type, "liquidated_user");
    assert_eq!(attributes[0].value, "user1");
    assert_eq!(attributes[1].trait_type, "liquidated_amount");
    assert_eq!(attributes[1].value, "5000");
    assert_eq!(attributes[2].trait_type, "timestamp");
    assert_eq!(attributes[2].value, "1000");
    assert_eq!(first.extension.name, Some("Whale #1".to_string()));

    let res = handle_mint_nft(&mut config, &"liq1".to_string(), 2000, "user2".to_string(), Uint256::from_u128(1))
        .unwrap();
    let second = minted(&res).clone();
    assert_eq!(second.token_id, "2");
    assert_eq!(second.name, "Whale #2");
    assert_ne!(first.name, second.name);
    assert_eq!(config.whitewhale_liquidators[0].total_minted, 2);
    // the next mint takes the next id
    let res = handle_mint_nft(&mut config, &"liq1".to_string(), 3000, "user3".to_string(), Uint256::from_u128(2))
        .unwrap();
    assert_eq!(minted(&res).token_id, "3");
    assert_eq!(config.whitewhale_liquidators[0].total_minted, 3);
}

#[test]
fn minting_needs_a_registered_liquidator() {
    let mut config = registered();
    let res = handle_mint_nft(&mut config, &"liq2".to_string(), 1000, "user1".to_string(), Uint256::from_u128(1));
    assert_eq!(res, Err(ContractError::LiquidatorNotSupported));
    assert_eq!(config.whitewhale_liquidators[0].total_minted, 0);
}

#[test]
fn registration_checks() {
    let config = registered();
    let again = handle_initialize_liquidator(
        &config,
        &"owner".to_string(),
        &"minter".to_string(),
        "liq1".to_string(),
        metadata(Some("Whale")),
        "WHL".to_string(),
        "uri".to_string(),
    );
    assert_eq!(again.err(), Some(ContractError::LiquidatorAlreadySupported));
    let stranger = handle_initialize_liquidator(
        &config,
        &"stranger".to_string(),
        &"minter".to_string(),
        "liq2".to_string(),
        metadata(Some("Whale")),
        "WHL".to_string(),
        "uri".to_string(),
    );
    assert_eq!(stranger.err(), Some(ContractError::Unauthorized));
}

#[test]
fn reply_needs_its_registration() {
    let mut config = instantiate(InstantiateMsg { owner: "owner".to_string(), cw721_code_id: 7 }, true).unwrap();
    assert_eq!(reply(&mut config, None, Some("nft1".to_string())), Err(ContractError::NotFound));
    let (tmp, _res) = handle_initialize_liquidator(
        &config,
        &"owner".to_string(),
        &"minter".to_string(),
        "liq1".to_string(),
        metadata(Some("Whale")),
        "WHL".to_string(),
        "uri".to_string(),
    )
    .unwrap();
    assert_eq!(reply(&mut config, Some(tmp), None), Err(ContractError::InvalidReply));
    assert!(config.whitewhale_liquidators.is_empty());
}

#[test]
fn metadata_updates() {
    let mut config = registered();
    assert_eq!(
        handle_update_metadata(&mut config, &"owner".to_string(), "liq9".to_string(), None, None, None),
        Err(ContractError::LiquidatorNotSupported)
    );
    assert_eq!(
        handle_update_metadata(&mut config, &"stranger".to_string(), "liq1".to_string(), None, None, None),
        Err(ContractError::Unauthorized)
    );
    handle_update_metadata(
        &mut config,
        &"owner".to_string(),
        "liq1".to_string(),
        Some("liq2".to_string()),
        Some(metadata(Some("Orca"))),
        None,
    )
    .unwrap();
    let entry = &config.whitewhale_liquidators[0];
    assert_eq!(entry.liquidator_contract, "liq2");
    assert_eq!(entry.metadata.name, Some("Orca".to_string()));
    assert_eq!(entry.token_uri, "ipfs://token");
    assert_eq!(entry.nft_contract_addr, "nft1");
    assert_eq!(query_config(&config).whitewhale_liquidators[0].liquidator_contract, "liq2");
}

#[test]
fn owner_handover() {
    let mut config = instantiate(InstantiateMsg { owner: "owner".to_string(), cw721_code_id: 7 }, true).unwrap();
    assert_eq!(
        handle_update_owner(&mut config, &"stranger".to_string(), "x".to_string(), true),
        Err(ContractError::Unauthorized)
    );
    assert_eq!(
        handle_update_owner(&mut config, &"owner".to_string(), "x".to_string(), false),
        Err(ContractError::InvalidAddress)
    );
    handle_update_owner(&mut config, &"owner".to_string(), "new".to_string(), true).unwrap();
    assert_eq!(config.owner, "new");
}

#[test]
fn mint_message_of_a_large_amount() {
    let m = build_mint_msg(
        1,
        "nft".to_string(),
        42,
        "uri".to_string(),
        metadata(Some("W")),
        "u".to_string(),
        Uint256 { lo: 0, hi: 1 },
    );
    match m {
        CosmosMsg::Wasm(WasmMsg::Execute { msg: ExecutePayload::Cw721(Cw721ExecuteMsg::Mint(mint)), .. }) => {
            assert_eq!(mint.token_id, "42");
            assert_eq!(mint.name, "W #42");
            assert_eq!(mint.extension.attributes.unwrap()[1].value, "340282366920938463463374607431768211456");
        }
        _ => panic!("expected a mint"),
    }
}
