use pns::actions::execute_init;
use pns::actions::execute_mint;
use pns::actions::execute_record_delete;
use pns::actions::execute_record_delete_all;
use pns::actions::execute_record_mint;
use pns::actions::execute_record_update;
use pns::actions::execute_update_expiration;
use pns::error::ContractError;
use pns::msg::PnsDomainUpdateExpirationMsg;
use pns::msg::PnsInitMsg;
use pns::msg::PnsMintMsg;
use pns::msg::PnsRecordDeleteAllMsg;
use pns::msg::PnsRecordDeleteMsg;
use pns::msg::PnsRecordMintMsg;
use pns::msg::PnsRecordUpdateMsg;
use pns::state::Address;
use pns::state::AddressType;
use pns::state::CallCtx;
use pns::state::PnsState;
use pns::state::Record;
use pns::state::RecordClass;

fn account(le: u8) -> Address {
    Address { address_type: AddressType::Account, identifier: le as u128 }
}

fn mock_contract_context(le: u8) -> CallCtx {
    CallCtx { sender: account(le), block_time: 100 }
}

fn string_to_bytes(s: &str) -> Vec<u8> {
    s.as_bytes().to_vec()
}

fn tomorrow_timestamp() -> u64 {
    2000
}

fn yesterday_timestamp() -> u64 {
    50
}

fn fresh_state() -> PnsState {
    execute_init(&PnsInitMsg {
        owner: Some(account(9)),
        name: "Meta Names".to_string(),
        symbol: "META".to_string(),
        base_uri: Some("ipfs://".to_string()),
        minter: account(1),
    })
}

#[test]
fn proper_mint() {
    let minter = 1u8;
    let _alice = 10u8;

    let mut state = fresh_state();

    let domain = "name".to_string();
    let mint_msg = PnsMintMsg {
        token_id: 1,
        domain: domain.clone(),
        parent_id: None,
        expires_at: Some(tomorrow_timestamp()),
    };

    let _ = execute_mint(&mock_contract_context(minter), &mut state, &mint_msg);

    let num_token_id = state.get_token_id(&domain).unwrap();
    assert_eq!(num_token_id, 1);
}

#[test]
fn proper_mint_with_parent() {
    let minter = 1u8;
    let _alice = 10u8;

    let mut state = fresh_state();

    let mint_msg = PnsMintMsg {
        token_id: 1,
        domain: "meta".to_string(),
        parent_id: None,
        expires_at: Some(tomorrow_timestamp()),
    };

    let _ = execute_mint(&mock_contract_context(minter), &mut state, &mint_msg);

    let mint_msg = PnsMintMsg {
        token_id: 2,
        domain: "name".to_string(),
        parent_id: Some("meta".to_string()),
        expires_at: Some(tomorrow_timestamp()),
    };

    let _ = execute_mint(&mock_contract_context(minter), &mut state, &mint_msg);

    let domains_length = state.domains.len();
    assert_eq!(domains_length, 2);
}

#[test]
fn when_parent_domain_is_expired_subdomain_mint_fails() {
    let minter = 1u8;

    let mut state = fresh_state();

    let mint_msg = PnsMintMsg {
        token_id: 1,
        domain: "meta".to_string(),
        parent_id: None,
        expires_at: Some(tomorrow_timestamp()),
    };

    let _ = execute_mint(&mock_contract_context(minter), &mut state, &mint_msg);

    let update_expiration = PnsDomainUpdateExpirationMsg {
        domain: "meta".to_string(),
        expires_at: Some(yesterday_timestamp()),
    };

    let _ = execute_update_expiration(
        &mock_contract_context(minter),
        &mut state,
        &update_expiration,
    );

    let mint_msg = PnsMintMsg {
        token_id: 2,
        domain: "name".to_string(),
        parent_id: Some("meta".to_string()),
        expires_at: None,
    };

    let res = execute_mint(&mock_contract_context(minter), &mut state, &mint_msg);
    assert_eq!(res, Err(ContractError::DomainExpired));
    assert!(state.get_domain("name").is_none());
}

#[test]
fn when_parent_does_not_exist_mint_fails() {
    let minter = 1u8;

    let mut state = fresh_state();

    let mint_msg = PnsMintMsg {
        token_id: 1,
        domain: "meta".to_string(),
        parent_id: Some("notfound".to_string()),
        expires_at: Some(tomorrow_timestamp()),
    };

    let res = execute_mint(&mock_contract_context(minter), &mut state, &mint_msg);
    assert_eq!(res, Err(ContractError::DomainNotFound));
}

#[test]
fn token_already_minted_on_mint() {
    let minter = 1u8;

    let mut state = fresh_state();

    let mint_msg = PnsMintMsg {
        domain: "name".to_string(),
        token_id: 1,
        parent_id: None,
        expires_at: Some(tomorrow_timestamp()),
    };

    let _ = execute_mint(&mock_contract_context(minter), &mut state, &mint_msg);

    let mint_msg = PnsMintMsg {
        domain: "name".to_string(),
        token_id: 2,
        parent_id: None,
        expires_at: Some(tomorrow_timestamp()),
    };

    let res = execute_mint(&mock_contract_context(minter), &mut state, &mint_msg);
    assert_eq!(res, Err(ContractError::DomainAlreadyMinted));
}

#[test]
fn mint_duplicate_token_id_fails() {
    let minter = 1u8;

    let mut state = fresh_state();

    let mint_msg = PnsMintMsg {
        domain: "name".to_string(),
        token_id: 1,
        parent_id: None,
        expires_at: Some(tomorrow_timestamp()),
    };

    let _ = execute_mint(&mock_contract_context(minter), &mut state, &mint_msg);

    let mint_msg = PnsMintMsg {
        domain: "other".to_string(),
        token_id: 1,
        parent_id: None,
        expires_at: Some(tomorrow_timestamp()),
    };

    let res = execute_mint(&mock_contract_context(minter), &mut state, &mint_msg);
    assert_eq!(res, Err(ContractError::TokenAlreadyMinted));
}

#[test]
fn mint_by_non_minter_fails() {
    let alice = 10u8;

    let mut state = fresh_state();

    let mint_msg = PnsMintMsg {
        domain: "name".to_string(),
        token_id: 1,
        parent_id: None,
        expires_at: Some(tomorrow_timestamp()),
    };

    let res = execute_mint(&mock_contract_context(alice), &mut state, &mint_msg);
    assert_eq!(res, Err(ContractError::Unauthorized));
    assert!(state.get_domain("name").is_none());
}

#[test]
fn mint_fails_when_parent_does_not_exist() {
    let minter = 1u8;

    let mut state = fresh_state();

    let domain = &"name".to_string();
    let mint_msg = PnsMintMsg {
        domain: domain.clone(),
        token_id: 1,
        parent_id: Some("not.existing.meta".to_string()),
        expires_at: Some(tomorrow_timestamp()),
    };

    let res = execute_mint(&mock_contract_context(minter), &mut state, &mint_msg);
    assert_eq!(res, Err(ContractError::DomainNotFound));
}

#[test]
fn proper_record_mint() {
    let minter = 1u8;
    let alice = 10u8;

    let mut state = fresh_state();

    let domain = &"name".to_string();
    let mint_msg = PnsMintMsg {
        domain: domain.clone(),
        token_id: 1,
        parent_id: None,
        expires_at: Some(tomorrow_timestamp()),
    };
    let _ = execute_mint(&mock_contract_context(minter), &mut state, &mint_msg);

    let record_class = RecordClass::Twitter;
    let record_mint_msg = PnsRecordMintMsg {
        domain: domain.clone(),
        class: record_class,
        data: string_to_bytes("data"),
    };
    let _ = execute_record_mint(&mock_contract_context(alice), &mut state, &record_mint_msg);

    let domain = state.get_domain(domain).unwrap();
    let record = domain.get_record(&record_class).unwrap();
    assert_eq!(*record, Record { data: string_to_bytes("data") });
}

#[test]
fn when_token_not_present_record_mint_fails() {
    let minter = 1u8;
    let alice = 10u8;

    let mut state = fresh_state();

    let mint_msg = PnsMintMsg {
        domain: "name".to_string(),
        token_id: 1,
        parent_id: None,
        expires_at: Some(tomorrow_timestamp()),
    };

    let _ = execute_mint(&mock_contract_context(minter), &mut state, &mint_msg);

    let record_mint = PnsRecordMintMsg {
        domain: "not-existing.meta".to_string(),
        class: RecordClass::Wallet,
        data: string_to_bytes("some data"),
    };

    let res = execute_record_mint(&mock_contract_context(alice), &mut state, &record_mint);
    assert_eq!(res, Err(ContractError::DomainNotFound));
}

#[test]
fn record_already_minted_on_record_mint() {
    let minter = 1u8;
    let alice = 10u8;

    let mut state = fresh_state();

    let mint_msg = PnsMintMsg {
        domain: "name".to_string(),
        token_id: 1,
        parent_id: None,
        expires_at: Some(tomorrow_timestamp()),
    };

    let _ = execute_mint(&mock_contract_context(minter), &mut state, &mint_msg);

    let record_mint = PnsRecordMintMsg {
        domain: "name".to_string(),
        class: RecordClass::Wallet,
        data: string_to_bytes("some data"),
    };

    let first = execute_record_mint(&mock_contract_context(alice), &mut state, &record_mint);
    assert_eq!(first, Ok(()));
    let second = execute_record_mint(&mock_contract_context(alice), &mut state, &record_mint);
    assert_eq!(second, Err(ContractError::RecordAlreadyMinted));
}

#[test]
fn record_classes_are_independent() {
    let minter = 1u8;
    let alice = 10u8;

    let mut state = fresh_state();

    let mint_msg = PnsMintMsg {
        domain: "name".to_string(),
        token_id: 1,
        parent_id: None,
        expires_at: Some(tomorrow_timestamp()),
    };
    let _ = execute_mint(&mock_contract_context(minter), &mut state, &mint_msg);

    let twitter = PnsRecordMintMsg {
        domain: "name".to_string(),
        class: RecordClass::Twitter,
        data: string_to_bytes("handle"),
    };
    let wallet = PnsRecordMintMsg {
        domain: "name".to_string(),
        class: RecordClass::Wallet,
        data: string_to_bytes("wallet"),
    };

    assert_eq!(execute_record_mint(&mock_contract_context(alice), &mut state, &twitter), Ok(()));
    assert_eq!(execute_record_mint(&mock_contract_context(alice), &mut state, &wallet), Ok(()));
    let again = execute_record_mint(&mock_contract_context(alice), &mut state, &wallet);
    assert_eq!(again, Err(ContractError::RecordAlreadyMinted));

    let domain = state.get_domain("name").unwrap();
    assert_eq!(
        *domain.get_record(&RecordClass::Twitter).unwrap(),
        Record { data: string_to_bytes("handle") }
    );
    assert_eq!(
        *domain.get_record(&RecordClass::Wallet).unwrap(),
        Record { data: string_to_bytes("wallet") }
    );
}

#[test]
fn proper_record_update() {
    let minter = 1u8;
    let alice = 10u8;

    let mut state = fresh_state();

    let domain = &"name".to_string();
    let mint_msg = PnsMintMsg {
        domain: domain.clone(),
        token_id: 1,
        parent_id: None,
        expires_at: Some(tomorrow_timestamp()),
    };
    let _ = execute_mint(&mock_contract_context(minter), &mut state, &mint_msg);

    let record_class = RecordClass::Twitter;
    let record_mint_msg = PnsRecordMintMsg {
        domain: domain.clone(),
        class: record_class,
        data: string_to_bytes("data"),
    };
    let _ = execute_record_mint(&mock_contract_context(alice), &mut state, &record_mint_msg);

    let record_update_msg = PnsRecordUpdateMsg {
        domain: domain.clone(),
        class: record_class,
        data: string_to_bytes("new data"),
    };

    let _ = execute_record_update(&mock_contract_context(alice), &mut state, &record_update_msg);

    let domain = state.get_domain(domain).unwrap();
    let record = domain.get_record(&record_class).unwrap();
    assert_eq!(*record, Record { data: string_to_bytes("new data") });
}

#[test]
fn when_record_does_not_exist_record_update_fails() {
    let alice = 10u8;

    let mut state = fresh_state();

    let record_update_msg = PnsRecordUpdateMsg {
        domain: "name".to_string(),
        class: RecordClass::Twitter,
        data: string_to_bytes("new data"),
    };

    let res = execute_record_update(&mock_contract_context(alice), &mut state, &record_update_msg);
    assert_eq!(res, Err(ContractError::DomainNotFound));
}

#[test]
fn record_update_on_missing_record_fails() {
    let minter = 1u8;
    let alice = 10u8;

    let mut state = fresh_state();

    let mint_msg = PnsMintMsg {
        domain: "name".to_string(),
        token_id: 1,
        parent_id: None,
        expires_at: Some(tomorrow_timestamp()),
    };
    let _ = execute_mint(&mock_contract_context(minter), &mut state, &mint_msg);

    let record_update_msg = PnsRecordUpdateMsg {
        domain: "name".to_string(),
        class: RecordClass::Twitter,
        data: string_to_bytes("new data"),
    };

    let res = execute_record_update(&mock_contract_context(alice), &mut state, &record_update_msg);
    assert_eq!(res, Err(ContractError::RecordNotFound));
}

#[test]
fn record_delete_on_missing_record_fails() {
    let minter = 1u8;
    let alice = 10u8;

    let mut state = fresh_state();

    let mint_msg = PnsMintMsg {
        domain: "name".to_string(),
        token_id: 1,
        parent_id: None,
        expires_at: Some(tomorrow_timestamp()),
    };
    let _ = execute_mint(&mock_contract_context(minter), &mut state, &mint_msg);

    let record_delete_msg =
        PnsRecordDeleteMsg { domain: "name".to_string(), class: RecordClass::Twitter };

    let res = execute_record_delete(&mock_contract_context(alice), &mut state, &record_delete_msg);
    assert_eq!(res, Err(ContractError::RecordNotFound));
}

#[test]
fn when_domain_is_expired_record_mint_actions_fails() {
    let minter = 1u8;
    let alice = 10u8;

    let mut state = fresh_state();

    let mint_msg = PnsMintMsg {
        domain: "name".to_string(),
        token_id: 1,
        parent_id: None,
        expires_at: Some(yesterday_timestamp()),
    };

    let _ = execute_mint(&mock_contract_context(minter), &mut state, &mint_msg);

    let record_mint = PnsRecordMintMsg {
        domain: "name".to_string(),
        class: RecordClass::Wallet,
        data: string_to_bytes("some data"),
    };

    let res = execute_record_mint(&mock_contract_context(alice), &mut state, &record_mint);
    assert_eq!(res, Err(ContractError::DomainExpired));
}

#[test]
fn when_domain_is_expired_record_update_actions_fails() {
    let minter = 1u8;
    let alice = 10u8;

    let mut state = fresh_state();

    let mint_msg = PnsMintMsg {
        domain: "name".to_string(),
        token_id: 1,
        parent_id: None,
        expires_at: Some(yesterday_timestamp()),
    };

    let _ = execute_mint(&mock_contract_context(minter), &mut state, &mint_msg);

    let record_update = PnsRecordUpdateMsg {
        domain: "name".to_string(),
        class: RecordClass::Wallet,
        data: string_to_bytes("some data"),
    };

    let res = execute_record_update(&mock_contract_context(alice), &mut state, &record_update);
    assert_eq!(res, Err(ContractError::DomainExpired));
}

#[test]
fn when_domain_is_expired_record_delete_actions_fails() {
    let minter = 1u8;
    let alice = 10u8;

    let mut state = fresh_state();

    let mint_msg = PnsMintMsg {
        domain: "name".to_string(),
        token_id: 1,
        parent_id: None,
        expires_at: Some(yesterday_timestamp()),
    };

    let _ = execute_mint(&mock_contract_context(minter), &mut state, &mint_msg);

    let record_delete =
        PnsRecordDeleteMsg { domain: "name".to_string(), class: RecordClass::Wallet };

    let res = execute_record_delete(&mock_contract_context(alice), &mut state, &record_delete);
    assert_eq!(res, Err(ContractError::DomainExpired));
}

#[test]
fn when_domain_is_expired_record_delete_all_action_works() {
    let minter = 1u8;
    let alice = 10u8;

    let mut state = fresh_state();

    let mint_msg = PnsMintMsg {
        domain: "name".to_string(),
        token_id: 1,
        parent_id: None,
        expires_at: Some(yesterday_timestamp()),
    };

    let _ = execute_mint(&mock_contract_context(minter), &mut state, &mint_msg);

    let record_delete_all = PnsRecordDeleteAllMsg { domain: "name".to_string() };

    let res =
        execute_record_delete_all(&mock_contract_context(alice), &mut state, &record_delete_all);
    assert_eq!(res, Ok(()));

    let domain = state.get_domain("name").unwrap();
    assert!(domain.records.is_empty());
}

#[test]
fn when_domain_is_expired_update_expiration_action_works() {
    let minter = 1u8;
    let alice = 10u8;

    let mut state = fresh_state();

    let mint_msg = PnsMintMsg {
        domain: "name".to_string(),
        token_id: 1,
        parent_id: None,
        expires_at: Some(yesterday_timestamp()),
    };

    let _ = execute_mint(&mock_contract_context(minter), &mut state, &mint_msg);

    let update_expiration = PnsDomainUpdateExpirationMsg {
        domain: "name".to_string(),
        expires_at: Some(tomorrow_timestamp()),
    };

    let res =
        execute_update_expiration(&mock_contract_context(alice), &mut state, &update_expiration);
    assert_eq!(res, Ok(()));

    let domain = state.get_domain("name").unwrap();
    assert!(domain.expires_at == Some(tomorrow_timestamp()));
}

#[test]
fn update_expiration_ungates_record_operations() {
    let minter = 1u8;
    let alice = 10u8;

    let mut state = fresh_state();

    let mint_msg = PnsMintMsg {
        domain: "name".to_string(),
        token_id: 1,
        parent_id: None,
        expires_at: Some(yesterday_timestamp()),
    };
    let _ = execute_mint(&mock_contract_context(minter), &mut state, &mint_msg);

    let record_mint = PnsRecordMintMsg {
        domain: "name".to_string(),
        class: RecordClass::Wallet,
        data: string_to_bytes("value"),
    };
    let gated = execute_record_mint(&mock_contract_context(alice), &mut state, &record_mint);
    assert_eq!(gated, Err(ContractError::DomainExpired));

    let update_expiration = PnsDomainUpdateExpirationMsg {
        domain: "name".to_string(),
        expires_at: Some(tomorrow_timestamp()),
    };
    let renewed =
        execute_update_expiration(&mock_contract_context(alice), &mut state, &update_expiration);
    assert_eq!(renewed, Ok(()));

    let ungated = execute_record_mint(&mock_contract_context(alice), &mut state, &record_mint);
    assert_eq!(ungated, Ok(()));
}

#[test]
fn update_expiration_on_missing_domain_fails() {
    let alice = 10u8;

    let mut state = fresh_state();

    let update_expiration = PnsDomainUpdateExpirationMsg {
        domain: "name".to_string(),
        expires_at: Some(tomorrow_timestamp()),
    };

    let res =
        execute_update_expiration(&mock_contract_context(alice), &mut state, &update_expiration);
    assert_eq!(res, Err(ContractError::DomainNotFound));
}

#[test]
fn proper_record_delete() {
    let minter = 1u8;
    let alice = 10u8;

    let mut state = fresh_state();

    let domain = &"name".to_string();
    let mint_msg = PnsMintMsg {
        domain: domain.clone(),
        token_id: 1,
        parent_id: None,
        expires_at: Some(tomorrow_timestamp()),
    };
    let _ = execute_mint(&mock_contract_context(minter), &mut state, &mint_msg);

    let record_class = RecordClass::Twitter;
    let record_mint_msg = PnsRecordMintMsg {
        domain: domain.clone(),
        class: record_class,
        data: string_to_bytes("data"),
    };
    let _ = execute_record_mint(&mock_contract_context(alice), &mut state, &record_mint_msg);

    let record_delete_msg = PnsRecordDeleteMsg { domain: domain.clone(), class: record_class };

    let _ = execute_record_delete(&mock_contract_context(alice), &mut state, &record_delete_msg);

    let domain = state.get_domain(domain).unwrap();
    let record = domain.get_record(&record_class);

    assert!(record.is_none());
}

#[test]
fn when_record_does_not_exist_record_delete_fails() {
    let alice = 10u8;

    let mut state = fresh_state();

    let record_delete_msg =
        PnsRecordDeleteMsg { domain: "name".to_string(), class: RecordClass::Twitter };

    let res = execute_record_delete(&mock_contract_context(alice), &mut state, &record_delete_msg);
    assert_eq!(res, Err(ContractError::DomainNotFound));
}

#[test]
fn is_expired_follows_the_stamp() {
    let minter = 1u8;

    let mut state = fresh_state();

    let mint_msg = PnsMintMsg {
        domain: "old".to_string(),
        token_id: 1,
        parent_id: None,
        expires_at: Some(yesterday_timestamp()),
    };
    let _ = execute_mint(&mock_contract_context(minter), &mut state, &mint_msg);

    let mint_msg = PnsMintMsg {
        domain: "fresh".to_string(),
        token_id: 2,
        parent_id: None,
        expires_at: None,
    };
    let _ = execute_mint(&mock_contract_context(minter), &mut state, &mint_msg);

    assert!(state.is_expired("old", 100));
    assert!(!state.is_expired("old", 10));
    assert!(!state.is_expired("fresh", 100));
    assert!(!state.is_expired("unknown", 100));
}

#[test]
fn get_token_id_of_unknown_domain_is_none() {
    let state = fresh_state();

    assert_eq!(state.get_token_id("name"), None);
    assert!(state.get_domain("name").is_none());
}
