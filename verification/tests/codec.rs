use pns::msg::PnsApproveForAllMsg;
use pns::msg::PnsApproveMsg;
use pns::msg::PnsBurnMsg;
use pns::msg::PnsCheckOwnerMsg;
use pns::msg::PnsMintMsg;
use pns::msg::PnsMultiMintMsg;
use pns::msg::PnsRecordDeleteMsg;
use pns::msg::PnsRecordMintMsg;
use pns::msg::PnsRecordUpdateMsg;
use pns::msg::PnsRevokeForAllMsg;
use pns::msg::PnsRevokeMsg;
use pns::msg::PnsSetBaseUriMsg;
use pns::msg::PnsTransferFromMsg;
use pns::msg::PnsTransferMsg;
use pns::msg::PnsUpdateMinterMsg;
use pns::rpc::ActionMsg;
use pns::rpc::Arg;
use pns::rpc::Interaction;
use pns::rpc::decode_interaction;
use pns::rpc::encode_interaction;
use pns::rpc::APPROVE;
use pns::rpc::APPROVE_FOR_ALL;
use pns::rpc::BURN;
use pns::rpc::CHECKOWNER;
use pns::rpc::MINT;
use pns::rpc::MULTI_MINT;
use pns::rpc::RECORD_DELETE;
use pns::rpc::RECORD_MINT;
use pns::rpc::RECORD_UPDATE;
use pns::rpc::REVOKE;
use pns::rpc::REVOKE_FOR_ALL;
use pns::rpc::SET_BASE_URI;
use pns::rpc::TRANSFER;
use pns::rpc::TRANSFER_FROM;
use pns::rpc::UPDATE_MINTER;
use pns::state::Address;
use pns::state::AddressType;
use pns::state::RecordClass;

fn mock_address(le: u8) -> Address {
    Address { address_type: AddressType::Account, identifier: le as u128 }
}

#[test]
fn proper_transfer_action_call() {
    let dest = mock_address(30u8);

    let msg = PnsTransferMsg { to: mock_address(1u8), token_id: 1 };
    let interaction = msg.as_interaction(&dest);

    let expected = Interaction {
        dest,
        shortname: TRANSFER,
        args: vec![Arg::Addr(mock_address(1u8)), Arg::U128(1)],
    };

    assert_eq!(interaction, expected);
}

#[test]
fn proper_transfer_from_action_call() {
    let dest = mock_address(30u8);

    let msg = PnsTransferFromMsg { from: mock_address(1u8), to: mock_address(2u8), token_id: 1 };
    let interaction = msg.as_interaction(&dest);

    let expected = Interaction {
        dest,
        shortname: TRANSFER_FROM,
        args: vec![Arg::Addr(mock_address(1u8)), Arg::Addr(mock_address(2u8)), Arg::U128(1)],
    };

    assert_eq!(interaction, expected);
}

#[test]
fn proper_approve_action_call() {
    let dest = mock_address(30u8);

    let msg = PnsApproveMsg { spender: mock_address(1u8), token_id: 1 };
    let interaction = msg.as_interaction(&dest);

    let expected = Interaction {
        dest,
        shortname: APPROVE,
        args: vec![Arg::Addr(mock_address(1u8)), Arg::U128(1)],
    };

    assert_eq!(interaction, expected);
}

#[test]
fn proper_set_base_uri_action_call() {
    let dest = mock_address(30u8);

    let msg = PnsSetBaseUriMsg { new_base_uri: "new".to_string() };
    let interaction = msg.as_interaction(&dest);

    let expected = Interaction {
        dest,
        shortname: SET_BASE_URI,
        args: vec![Arg::Str("new".to_string())],
    };

    assert_eq!(interaction, expected);
}

#[test]
fn proper_mint_action_call() {
    let dest = mock_address(30u8);

    let msg = PnsMintMsg {
        domain: "name.meta".to_string(),
        token_id: 1,
        parent_id: Some("".to_string()),
        expires_at: None,
    };
    let interaction = msg.as_interaction(&dest);

    let expected = Interaction {
        dest,
        shortname: MINT,
        args: vec![
            Arg::Str("name.meta".to_string()),
            Arg::U128(1),
            Arg::OptStr(Some("".to_string())),
            Arg::OptU64(None),
        ],
    };

    assert_eq!(interaction, expected);
}

#[test]
fn proper_record_mint_action_call() {
    let dest = mock_address(30u8);

    let msg = PnsRecordMintMsg {
        domain: "name.meta".to_string(),
        class: RecordClass::Wallet,
        data: Vec::new(),
    };
    let interaction = msg.as_interaction(&dest);

    let expected = Interaction {
        dest,
        shortname: RECORD_MINT,
        args: vec![
            Arg::Str("name.meta".to_string()),
            Arg::Class(RecordClass::Wallet),
            Arg::Bytes(Vec::new()),
        ],
    };

    assert_eq!(interaction, expected);
}

#[test]
fn proper_record_update_action_call() {
    let dest = mock_address(30u8);

    let msg = PnsRecordUpdateMsg {
        domain: "name.meta".to_string(),
        class: RecordClass::Wallet,
        data: Vec::new(),
    };
    let interaction = msg.as_interaction(&dest);

    let expected = Interaction {
        dest,
        shortname: RECORD_UPDATE,
        args: vec![
            Arg::Str("name.meta".to_string()),
            Arg::Class(RecordClass::Wallet),
            Arg::Bytes(Vec::new()),
        ],
    };

    assert_eq!(interaction, expected);
}

#[test]
fn proper_record_delete_action_call() {
    let dest = mock_address(30u8);

    let msg = PnsRecordDeleteMsg { domain: "name.meta".to_string(), class: RecordClass::Wallet };
    let interaction = msg.as_interaction(&dest);

    let expected = Interaction {
        dest,
        shortname: RECORD_DELETE,
        args: vec![Arg::Str("name.meta".to_string()), Arg::Class(RecordClass::Wallet)],
    };

    assert_eq!(interaction, expected);
}

#[test]
fn proper_ownership_check_call() {
    let dest = mock_address(30u8);

    let msg = PnsCheckOwnerMsg { owner: mock_address(1u8), token_id: 1 };
    let interaction = msg.as_interaction(&dest);

    let expected = Interaction {
        dest,
        shortname: CHECKOWNER,
        args: vec![Arg::Addr(mock_address(1u8)), Arg::U128(1)],
    };

    assert_eq!(interaction, expected);
}

#[test]
fn proper_approve_for_all_action_call() {
    let dest = mock_address(30u8);

    let msg = PnsApproveForAllMsg { operator: mock_address(1u8) };
    let interaction = msg.as_interaction(&dest);

    let expected = Interaction {
        dest,
        shortname: APPROVE_FOR_ALL,
        args: vec![Arg::Addr(mock_address(1u8))],
    };

    assert_eq!(interaction, expected);
}

#[test]
fn proper_revoke_action_call() {
    let dest = mock_address(30u8);

    let msg = PnsRevokeMsg { spender: mock_address(1u8), token_id: 1 };
    let interaction = msg.as_interaction(&dest);

    let expected = Interaction {
        dest,
        shortname: REVOKE,
        args: vec![Arg::Addr(mock_address(1u8)), Arg::U128(1)],
    };

    assert_eq!(interaction, expected);
}

#[test]
fn proper_revoke_for_all_action_call() {
    let dest = mock_address(30u8);

    let msg = PnsRevokeForAllMsg { operator: mock_address(1u8) };
    let interaction = msg.as_interaction(&dest);

    let expected = Interaction {
        dest,
        shortname: REVOKE_FOR_ALL,
        args: vec![Arg::Addr(mock_address(1u8))],
    };

    assert_eq!(interaction, expected);
}

#[test]
fn proper_burn_action_call() {
    let dest = mock_address(30u8);

    let msg = PnsBurnMsg { token_id: 1 };
    let interaction = msg.as_interaction(&dest);

    let expected = Interaction { dest, shortname: BURN, args: vec![Arg::U128(1)] };

    assert_eq!(interaction, expected);
}

#[test]
fn proper_minter_update_action_call() {
    let dest = mock_address(30u8);

    let msg = PnsUpdateMinterMsg { new_minter: mock_address(19u8) };
    let interaction = msg.as_interaction(&dest);

    let expected = Interaction {
        dest,
        shortname: UPDATE_MINTER,
        args: vec![Arg::Addr(mock_address(19u8))],
    };

    assert_eq!(interaction, expected);
}

#[test]
fn proper_multi_mint_action_call() {
    let dest = mock_address(30u8);

    let mints = vec![
        PnsMintMsg {
            domain: "name.meta".to_string(),
            token_id: 1,
            parent_id: Some("".to_string()),
            expires_at: None,
        },
        PnsMintMsg {
            domain: "name2.meta".to_string(),
            token_id: 2,
            parent_id: Some("".to_string()),
            expires_at: None,
        },
        PnsMintMsg {
            domain: "name3.meta".to_string(),
            token_id: 3,
            parent_id: Some("".to_string()),
            expires_at: None,
        },
        PnsMintMsg {
            domain: "name4.meta".to_string(),
            token_id: 4,
            parent_id: Some("".to_string()),
            expires_at: None,
        },
        PnsMintMsg {
            domain: "name5.meta".to_string(),
            token_id: 5,
            parent_id: Some("".to_string()),
            expires_at: None,
        },
    ];
    let msg = PnsMultiMintMsg { mints: mints.clone() };
    let interaction = msg.as_interaction(&dest);

    let expected = Interaction { dest, shortname: MULTI_MINT, args: vec![Arg::Mints(mints)] };

    assert_eq!(interaction, expected);
}

#[test]
fn decode_reproduces_encoded_transfer_family() {
    let dest = mock_address(30u8);

    let transfer = ActionMsg::Transfer(PnsTransferMsg { to: mock_address(1u8), token_id: 4 });
    assert_eq!(decode_interaction(&encode_interaction(&transfer, &dest)), Some(transfer.clone()));

    let transfer_from = ActionMsg::TransferFrom(PnsTransferFromMsg {
        from: mock_address(1u8),
        to: mock_address(2u8),
        token_id: 4,
    });
    assert_eq!(
        decode_interaction(&encode_interaction(&transfer_from, &dest)),
        Some(transfer_from.clone())
    );

    let approve = ActionMsg::Approve(PnsApproveMsg { spender: mock_address(2u8), token_id: 4 });
    assert_eq!(decode_interaction(&encode_interaction(&approve, &dest)), Some(approve.clone()));

    let revoke = ActionMsg::Revoke(PnsRevokeMsg { spender: mock_address(2u8), token_id: 4 });
    assert_eq!(decode_interaction(&encode_interaction(&revoke, &dest)), Some(revoke.clone()));

    let burn = ActionMsg::Burn(PnsBurnMsg { token_id: 4 });
    assert_eq!(decode_interaction(&encode_interaction(&burn, &dest)), Some(burn.clone()));
}

#[test]
fn decode_reproduces_encoded_registry_actions() {
    let dest = mock_address(30u8);

    let mint = ActionMsg::Mint(PnsMintMsg {
        domain: "name.meta".to_string(),
        token_id: 7,
        parent_id: Some("meta".to_string()),
        expires_at: Some(123),
    });
    assert_eq!(decode_interaction(&encode_interaction(&mint, &dest)), Some(mint.clone()));

    let record_mint = ActionMsg::RecordMint(PnsRecordMintMsg {
        domain: "name.meta".to_string(),
        class: RecordClass::Twitter,
        data: b"handle".to_vec(),
    });
    assert_eq!(
        decode_interaction(&encode_interaction(&record_mint, &dest)),
        Some(record_mint.clone())
    );

    let record_delete = ActionMsg::RecordDelete(PnsRecordDeleteMsg {
        domain: "name.meta".to_string(),
        class: RecordClass::Uri,
    });
    assert_eq!(
        decode_interaction(&encode_interaction(&record_delete, &dest)),
        Some(record_delete.clone())
    );

    let multi = ActionMsg::MultiMint(PnsMultiMintMsg {
        mints: vec![PnsMintMsg {
            domain: "a.meta".to_string(),
            token_id: 1,
            parent_id: None,
            expires_at: None,
        }],
    });
    assert_eq!(decode_interaction(&encode_interaction(&multi, &dest)), Some(multi.clone()));
}

#[test]
fn decode_rejects_unknown_code() {
    let dest = mock_address(30u8);

    let packet = Interaction {
        dest,
        shortname: 0x02,
        args: vec![Arg::Addr(mock_address(1u8)), Arg::U128(1)],
    };
    assert_eq!(decode_interaction(&packet), None);
}

#[test]
fn decode_rejects_malformed_arguments() {
    let dest = mock_address(30u8);

    // Right code, wrong shape: a transfer packet has exactly two arguments,
    // an address and a token id.
    let packet = Interaction {
        dest,
        shortname: TRANSFER,
        args: vec![Arg::U128(1), Arg::Addr(mock_address(1u8))],
    };
    assert_eq!(decode_interaction(&packet), None);

    let packet = Interaction { dest, shortname: TRANSFER, args: vec![Arg::U128(1)] };
    assert_eq!(decode_interaction(&packet), None);
}
