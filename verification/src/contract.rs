//! The operations of the ledger: instantiate, register, transfer, claim, and
//! the queries.

use vstd::prelude::*;
use crate::coin::{uint128_to_string, Coin};
use crate::error::ContractError;
use crate::fee::apply_fee;
use crate::helpers::{create_response, pairs_view, validate_identifier};
use crate::model::{
    claim_spec, execute_spec, instantiate_spec, performed, query_spec, register_spec,
    transfer_spec,
};
use crate::msg::{
    AccountResponse, BalanceRequest, EscrowResponse, ExecuteMsg, InstantiateMsg, MessageInfo,
    QueryMsg, QueryResponse,
};
use crate::response::{attribute, payouts_view, Event, Payout, Response};
use crate::state::{Config, ConfigView, Store};

verus! {

/// Writes the configuration.  Bindings and escrows are left as they are.
pub fn instantiate(store: &mut Store, _info: MessageInfo, msg: InstantiateMsg) -> (outcome: Result<
    Response,
    ContractError,
>)
    ensures
        performed(
            Ok(
                instantiate_spec(
                    old(store)@,
                    ConfigView {
                        token_denom: msg.token_denom@,
                        platform_wallet: msg.platform_wallet@,
                    },
                ),
            ),
            old(store)@,
            final(store)@,
            outcome,
        ),
{
    let attributes = vec![
        ("token_denom", msg.token_denom.as_str()),
        ("platform_wallet", msg.platform_wallet.as_str()),
    ];
    assert(pairs_view(attributes@) =~= seq![
        attribute("token_denom"@, msg.token_denom@),
        attribute("platform_wallet"@, msg.platform_wallet@),
    ]);
    let response = create_response("instantiate", attributes);
    store.config = Some(
        Config { token_denom: msg.token_denom, platform_wallet: msg.platform_wallet },
    );
    Ok(response)
}

/// Performs the operation that `msg` asks for, on behalf of `info.sender`.
/// It either succeeds, changes the state and hands back a response, or fails
/// with an error and changes nothing.
pub fn execute(store: &mut Store, info: MessageInfo, msg: ExecuteMsg) -> (outcome: Result<
    Response,
    ContractError,
>)
    ensures
        performed(execute_spec(old(store)@, info.sender@, msg@), old(store)@, final(store)@, outcome),
{
    match msg {
        ExecuteMsg::Register { identifier } => execute_register(store, info, identifier),
        ExecuteMsg::Transfer { identifier, amount } => execute_transfer(
            store,
            info,
            identifier,
            &amount,
        ),
        ExecuteMsg::Claim { identifier } => execute_claim(store, info, identifier),
    }
}

/// Binds `identifier` to the caller.  Fails with `InvalidIdentifier` where
/// the identifier is malformed and with `AlreadyRegistered` where it is
/// bound already, whoever calls.
pub fn execute_register(store: &mut Store, info: MessageInfo, identifier: String) -> (outcome:
    Result<Response, ContractError>)
    ensures
        performed(
            register_spec(old(store)@, info.sender@, identifier@),
            old(store)@,
            final(store)@,
            outcome,
        ),
{
    if let Err(why) = validate_identifier(identifier.as_str()) {
        return Err(ContractError::InvalidIdentifier(why));
    }
    if store.accounts.has(&identifier) {
        return Err(ContractError::AlreadyRegistered);
    }
    let attributes = vec![("identifier", identifier.as_str()), ("address", info.sender.as_str())];
    assert(pairs_view(attributes@) =~= seq![
        attribute("identifier"@, identifier@),
        attribute("address"@, info.sender@),
    ]);
    let response = create_response("register", attributes);
    match store.accounts.register(identifier, info.sender) {
        Ok(_) => Ok(response),
        Err(why) => Err(why),
    }
}

/// Sends `amount` to `identifier`.  The platform's fee is paid out in either
/// case.  Where the identifier is bound, the net amount is paid out to its
/// owner and nothing is held; where it is not, the net amount is held in
/// escrow, in place of anything held there before, and no payment is made to
/// a recipient.
pub fn execute_transfer(
    store: &mut Store,
    info: MessageInfo,
    identifier: String,
    amount: &Coin,
) -> (outcome: Result<Response, ContractError>)
    ensures
        performed(
            transfer_spec(old(store)@, info.sender@, identifier@, amount@),
            old(store)@,
            final(store)@,
            outcome,
        ),
{
    if let Err(why) = validate_identifier(identifier.as_str()) {
        return Err(ContractError::InvalidIdentifier(why));
    }
    let config = match &store.config {
        Some(config) => config.clone(),
        None => {
            return Err(ContractError::NotInitialized);
        },
    };
    if !(amount.denom == config.token_denom) {
        return Err(ContractError::WrongDenomination);
    }
    let (platform_fee, recipient_amount) = match apply_fee(amount.amount) {
        Ok(split) => split,
        Err(_) => {
            return Err(ContractError::AmountTooSmall);
        },
    };
    let fee_msg = Payout {
        to_address: config.platform_wallet.clone(),
        amount: Coin { denom: amount.denom.clone(), amount: platform_fee },
    };
    let amount_text = uint128_to_string(amount.amount);
    let fee_text = uint128_to_string(platform_fee);
    match store.accounts.lookup(&identifier) {
        Some(recipient_addr) => {
            let transfer_msg = Payout {
                to_address: recipient_addr,
                amount: Coin { denom: amount.denom.clone(), amount: recipient_amount },
            };
            let attributes = vec![
                ("sender", info.sender.as_str()),
                ("recipient", identifier.as_str()),
                ("amount", amount_text.as_str()),
                ("fee", fee_text.as_str()),
            ];
            assert(pairs_view(attributes@) =~= seq![
                attribute("sender"@, info.sender@),
                attribute("recipient"@, identifier@),
                attribute("amount"@, amount_text@),
                attribute("fee"@, fee_text@),
            ]);
            let messages = vec![transfer_msg, fee_msg];
            let response = create_response("transfer", attributes).add_messages(messages);
            assert(response@.messages =~= seq![transfer_msg@, fee_msg@]);
            Ok(response)
        },
        None => {
            let event = Event::new("unregistered transfer").add_attribute(
                "identifier",
                identifier.as_str(),
            ).add_attribute("sender", info.sender.as_str()).add_attribute(
                "amount",
                amount_text.as_str(),
            ).add_attribute("denom", amount.denom.as_str());
            assert(event@.attributes =~= seq![
                attribute("identifier"@, identifier@),
                attribute("sender"@, info.sender@),
                attribute("amount"@, amount_text@),
                attribute("denom"@, amount.denom@),
            ]);
            let attributes = vec![
                ("identifier", identifier.as_str()),
                ("sender", info.sender.as_str()),
                ("amount", amount_text.as_str()),
                ("fee", fee_text.as_str()),
            ];
            assert(pairs_view(attributes@) =~= seq![
                attribute("identifier"@, identifier@),
                attribute("sender"@, info.sender@),
                attribute("amount"@, amount_text@),
                attribute("fee"@, fee_text@),
            ]);
            let response = create_response("escrow", attributes).add_event(event).add_message(
                fee_msg,
            );
            store.escrows.put(
                identifier,
                info.sender,
                Coin { denom: amount.denom.clone(), amount: recipient_amount },
            );
            Ok(response)
        },
    }
}

/// Releases to the caller what is held for `identifier`.  Fails with
/// `NotOwner` unless the identifier is bound to the caller, and with
/// `NoEscrow` where nothing is held.  What is released leaves the escrow
/// ledger in the same step, so it cannot be released twice.
pub fn execute_claim(store: &mut Store, info: MessageInfo, identifier: String) -> (outcome: Result<
    Response,
    ContractError,
>)
    ensures
        performed(
            claim_spec(old(store)@, info.sender@, identifier@),
            old(store)@,
            final(store)@,
            outcome,
        ),
{
    if let Err(why) = validate_identifier(identifier.as_str()) {
        return Err(ContractError::InvalidIdentifier(why));
    }
    match store.accounts.lookup(&identifier) {
        Some(addr) => {
            if !(addr == info.sender) {
                return Err(ContractError::NotOwner);
            }
        },
        None => {
            return Err(ContractError::NotOwner);
        },
    }
    match store.escrows.take(&identifier) {
        Some(escrow) => {
            let amount_text = uint128_to_string(escrow.amount.amount);
            let attributes = vec![
                ("identifier", identifier.as_str()),
                ("recipient", info.sender.as_str()),
                ("amount", amount_text.as_str()),
            ];
            assert(pairs_view(attributes@) =~= seq![
                attribute("identifier"@, identifier@),
                attribute("recipient"@, info.sender@),
                attribute("amount"@, amount_text@),
            ]);
            let response = create_response("claim", attributes);
            let transfer_msg = Payout { to_address: info.sender, amount: escrow.amount };
            let response = response.add_message(transfer_msg);
            Ok(response)
        },
        None => Err(ContractError::NoEscrow),
    }
}

/// Answers a query.  The state is left as it is.
pub fn query(store: &Store, msg: QueryMsg) -> (answer: Result<QueryResponse, ContractError>)
    ensures
        match query_spec(store@, msg@) {
            Ok(expected) => answer matches Ok(given) && given@ == expected,
            Err(why) => answer matches Err(given) && given == why,
        },
{
    match msg {
        QueryMsg::GetBalance { address } => match query_balance(store, address) {
            Ok(request) => Ok(QueryResponse::Balance(request)),
            Err(why) => Err(why),
        },
        QueryMsg::GetEscrow { identifier } => Ok(
            QueryResponse::Escrow(query_escrow(store, identifier)),
        ),
        QueryMsg::GetAccount { identifier } => Ok(
            QueryResponse::Account(query_account(store, identifier)),
        ),
    }
}

/// The question to put to the bank for the balance of `address`: that
/// account, in the accepted denomination.
pub fn query_balance(store: &Store, address: String) -> (request: Result<
    BalanceRequest,
    ContractError,
>)
    ensures
        match store@.config {
            Some(config) => request matches Ok(asked) && asked.address@ == address@ && asked.denom@
                == config.token_denom,
            None => request matches Err(why) && why == ContractError::NotInitialized,
        },
{
    match &store.config {
        Some(config) => Ok(BalanceRequest { address, denom: config.token_denom.clone() }),
        None => Err(ContractError::NotInitialized),
    }
}

/// What is held in escrow for `identifier`, if anything.
pub fn query_escrow(store: &Store, identifier: String) -> (response: EscrowResponse)
    ensures
        match response.escrow {
            Some(escrow) => store@.escrows.contains_key(identifier@) && escrow@
                == store@.escrows[identifier@],
            None => !store@.escrows.contains_key(identifier@),
        },
{
    EscrowResponse { escrow: store.escrows.get(&identifier) }
}

/// The account that `identifier` is bound to, if any.
pub fn query_account(store: &Store, identifier: String) -> (response: AccountResponse)
    ensures
        match response.address {
            Some(address) => store@.accounts.contains_key(identifier@) && address@
                == store@.accounts[identifier@],
            None => !store@.accounts.contains_key(identifier@),
        },
{
    AccountResponse { address: store.accounts.lookup(&identifier) }
}

} // verus!
