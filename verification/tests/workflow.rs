use cosmwasm_std::Uint128;
use social_tip_contract::coin::Coin;
use social_tip_contract::contract::{execute, instantiate, query};
use social_tip_contract::error::{ContractError, InvalidIdentifier};
use social_tip_contract::msg::{
    AccountResponse, EscrowResponse, ExecuteMsg, InstantiateMsg, MessageInfo, QueryMsg,
    QueryResponse,
};
use social_tip_contract::response::Response;
use social_tip_contract::state::Store;

fn message_info(sender: &str, funds: &[Coin]) -> MessageInfo {
    MessageInfo::new(sender, funds.to_vec())
}

fn setup_contract(store: &mut Store) -> Response {
    let info = message_info("creator", &[]);
    let msg = InstantiateMsg {
        token_denom: "uxion".to_string(),
        platform_wallet: "platform_wallet".to_string(),
    };
    instantiate(store, info, msg).unwrap()
}

fn escrow_of(answer: QueryResponse) -> EscrowResponse {
    match answer {
        QueryResponse::Escrow(response) => response,
        other => panic!("expected an escrow response, got {:?}", other),
    }
}

fn account_of(answer: QueryResponse) -> AccountResponse {
    match answer {
        QueryResponse::Account(response) => response,
        other => panic!("expected an account response, got {:?}", other),
    }
}

#[test]
fn test_full_workflow() {
    let mut store = Store::new();
    let sender = message_info("sender", &[]);
    let recipient = message_info("recipient", &[]);

    let instantiate_msg = InstantiateMsg {
        token_denom: "uxion".to_string(),
        platform_wallet: "platform_wallet".to_string(),
    };

    // Instantiate contract
    let _ = instantiate(&mut store, sender.clone(), instantiate_msg);

    // register sender with email
    let register_msg = ExecuteMsg::Register { identifier: "sender@mail.com".to_string() };
    execute(&mut store, sender.clone(), register_msg).unwrap();

    // Query account to verify registration
    let query_msg = QueryMsg::GetAccount { identifier: "sender@mail.com".to_string() };
    let account = account_of(query(&store, query_msg).unwrap());
    assert_eq!(account.address, Some("sender".to_string()));

    // transfer to unregistered email (should go to escrow)
    let full_amount = Uint128::from(10_000_000u128);
    let platform_fee = full_amount.multiply_ratio(1u128, 100u128);
    let expected_escrowed = full_amount.checked_sub(platform_fee).unwrap();

    let transfer_msg = ExecuteMsg::Transfer {
        identifier: "unregistered@mail.com".to_string(),
        amount: Coin { denom: "uxion".to_string(), amount: full_amount.u128() },
    };
    let sender_with_balance = message_info(
        "sender",
        &[Coin { denom: "uxion".to_string(), amount: full_amount.u128() }],
    );
    let res = execute(&mut store, sender_with_balance, transfer_msg).unwrap();

    // check that escrow was created
    assert_eq!(res.attributes[0].value, "escrow");

    // check that platform fee was sent
    let fee_msg = res.messages.iter().find_map(|msg| {
        if msg.to_address == "platform_wallet" {
            Some(vec![msg.amount.clone()])
        } else {
            None
        }
    });

    assert_eq!(
        fee_msg.unwrap(),
        vec![Coin { denom: "uxion".to_string(), amount: platform_fee.u128() }]
    );

    // Query escrow
    let query_escrow_msg = QueryMsg::GetEscrow { identifier: "unregistered@mail.com".to_string() };
    let escrow = escrow_of(query(&store, query_escrow_msg).unwrap());
    assert!(
        escrow.escrow.is_some(),
        "Expected escrow for 'unregistered@mail.com' but found none"
    );
    assert_eq!(
        escrow.escrow.unwrap().amount,
        Coin { denom: "uxion".to_string(), amount: expected_escrowed.u128() }
    );

    // Register recipient with the unregistered email
    let register_recipient_msg =
        ExecuteMsg::Register { identifier: "unregistered@mail.com".to_string() };
    execute(&mut store, recipient.clone(), register_recipient_msg).unwrap();

    // Claim escrowed token
    let claim_msg = ExecuteMsg::Claim { identifier: "unregistered@mail.com".to_string() };
    let res = execute(&mut store, recipient, claim_msg).unwrap();
    assert_eq!(res.attributes[0].value, "claim");

    // verify the claimed amount matches escrow
    let transfer_back = res.messages.iter().find_map(|msg| {
        if msg.to_address == "recipient" {
            Some(vec![msg.amount.clone()])
        } else {
            None
        }
    });
    assert_eq!(
        transfer_back.unwrap(),
        vec![Coin { denom: "uxion".to_string(), amount: expected_escrowed.u128() }]
    );

    // Verify escrow is clear
    let escrow_check = query(
        &store,
        QueryMsg::GetEscrow { identifier: "recipient@mail.com".to_string() },
    )
    .unwrap();
    assert_eq!(escrow_of(escrow_check).escrow, None);
}

#[test]
fn test_invalid_email() {
    let mut store = Store::new();
    let sender = message_info("sender", &[]);

    // Instantiate contract
    setup_contract(&mut store);

    // Try registering with invalid email
    let register_msg = ExecuteMsg::Register { identifier: "invalid-email".to_string() };
    let res = execute(&mut store, sender.clone(), register_msg);
    assert!(res.is_err());
    let err = res.unwrap_err();
    assert_eq!(err, ContractError::InvalidIdentifier(InvalidIdentifier::BadUsername));
    assert_eq!(err.message(), "Username must be 3-32 alphanumeric characters");
}

#[test]
fn test_duplicate_registration() {
    let mut store = Store::new();
    let sender = message_info("sender", &[]);

    // Instantiate contract
    setup_contract(&mut store);

    // Register email
    execute(
        &mut store,
        sender.clone(),
        ExecuteMsg::Register { identifier: "user@mail.com".to_string() },
    )
    .unwrap();

    // Try registering the same email again
    let res = execute(
        &mut store,
        sender,
        ExecuteMsg::Register { identifier: "user@mail.com".to_string() },
    );
    assert!(res.is_err());
    let err = res.unwrap_err();
    assert_eq!(err, ContractError::AlreadyRegistered);
    assert_eq!(err.message(), "Identifier already registered");
}

#[test]
fn test_transfer_wrong_denom() {
    let mut store = Store::new();
    let sender = message_info(
        "sender",
        &[Coin { denom: "wrongdenom".to_string(), amount: Uint128::from(10000000u128).u128() }],
    );

    // Instantiate contract
    setup_contract(&mut store);

    // Register sender
    let register_msg = ExecuteMsg::Register { identifier: "sender@mail.com".to_string() };
    execute(&mut store, message_info("sender", &[]), register_msg).unwrap();

    // Try transferring the wrong denom
    let transfer_msg = ExecuteMsg::Transfer {
        identifier: "recipient@mail.com".to_string(),
        amount: Coin {
            denom: "wrongdenom".to_string(),
            amount: Uint128::from(10000000u128).u128(),
        },
    };
    let res = execute(&mut store, sender, transfer_msg);
    assert!(res.is_err());
    let err = res.unwrap_err();
    assert_eq!(err, ContractError::WrongDenomination);
    assert_eq!(err.message(), "Invalid token denomination");
}
