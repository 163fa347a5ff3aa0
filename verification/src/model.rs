//! The ledger as a state machine over mathematical values.
//!
//! Each operation is a function from the state before it, the caller and the
//! operation's arguments to either an error, which leaves the state as it
//! was, or the state after it together with the response.  The executable
//! operations are proved to compute exactly these functions.

use vstd::prelude::*;
use crate::coin::{decimal, CoinView};
use crate::error::ContractError;
use crate::fee::{fee_of, net_of};
use crate::helpers::{action_log, validate_identifier_spec};
use crate::msg::{ExecuteMsgView, QueryMsgView, QueryResponseView};
use crate::response::{attribute, payout, EventView, PayoutView, Response, ResponseView};
use crate::state::{ConfigView, EscrowView, StateView};

verus! {

/// The outcome of an operation that succeeded: the state it leaves and the
/// response it hands back.
pub struct Transition {
    pub store: StateView,
    pub response: ResponseView,
}

/// The response to an instantiation with the given configuration.
pub open spec fn instantiate_response(config: ConfigView) -> ResponseView {
    ResponseView {
        messages: Seq::<PayoutView>::empty(),
        attributes: action_log(
            "instantiate"@,
            seq![
                attribute("token_denom"@, config.token_denom),
                attribute("platform_wallet"@, config.platform_wallet),
            ],
        ),
        events: Seq::<EventView>::empty(),
    }
}

/// Instantiation writes the configuration and touches nothing else.
pub open spec fn instantiate_spec(pre: StateView, config: ConfigView) -> Transition {
    Transition {
        store: StateView { config: Some(config), accounts: pre.accounts, escrows: pre.escrows },
        response: instantiate_response(config),
    }
}

/// The response to the registration of `identifier` by `caller`.
pub open spec fn register_response(identifier: Seq<char>, caller: Seq<char>) -> ResponseView {
    ResponseView {
        messages: Seq::<PayoutView>::empty(),
        attributes: action_log(
            "register"@,
            seq![attribute("identifier"@, identifier), attribute("address"@, caller)],
        ),
        events: Seq::<EventView>::empty(),
    }
}

/// Register: the identifier must be valid and not yet bound; it is then
/// bound to the caller.
pub open spec fn register_spec(pre: StateView, caller: Seq<char>, identifier: Seq<char>) -> Result<
    Transition,
    ContractError,
> {
    if let Err(why) = validate_identifier_spec(identifier) {
        Err(ContractError::InvalidIdentifier(why))
    } else if pre.accounts.contains_key(identifier) {
        Err(ContractError::AlreadyRegistered)
    } else {
        Ok(
            Transition {
                store: StateView {
                    config: pre.config,
                    accounts: pre.accounts.insert(identifier, caller),
                    escrows: pre.escrows,
                },
                response: register_response(identifier, caller),
            },
        )
    }
}

/// The payment of the fee on `amount` to the platform.
pub open spec fn fee_payout(config: ConfigView, amount: CoinView) -> PayoutView {
    payout(config.platform_wallet, amount.denom, fee_of(amount.amount))
}

/// The response to a transfer to an identifier that is bound to `recipient`:
/// the net amount goes to the recipient, the fee to the platform.
pub open spec fn direct_transfer_response(
    config: ConfigView,
    caller: Seq<char>,
    identifier: Seq<char>,
    recipient: Seq<char>,
    amount: CoinView,
) -> ResponseView {
    ResponseView {
        messages: seq![
            payout(recipient, amount.denom, net_of(amount.amount)),
            fee_payout(config, amount),
        ],
        attributes: action_log(
            "transfer"@,
            seq![
                attribute("sender"@, caller),
                attribute("recipient"@, identifier),
                attribute("amount"@, decimal(amount.amount)),
                attribute("fee"@, decimal(fee_of(amount.amount))),
            ],
        ),
        events: Seq::<EventView>::empty(),
    }
}

/// The notification that a payment is held for an identifier nobody has
/// registered.
pub open spec fn escrow_event(caller: Seq<char>, identifier: Seq<char>, amount: CoinView) -> EventView {
    EventView {
        ty: "unregistered transfer"@,
        attributes: seq![
            attribute("identifier"@, identifier),
            attribute("sender"@, caller),
            attribute("amount"@, decimal(amount.amount)),
            attribute("denom"@, amount.denom),
        ],
    }
}

/// The response to a transfer to an identifier that is not bound: only the
/// fee is paid out, and observers are notified.
pub open spec fn escrow_transfer_response(
    config: ConfigView,
    caller: Seq<char>,
    identifier: Seq<char>,
    amount: CoinView,
) -> ResponseView {
    ResponseView {
        messages: seq![fee_payout(config, amount)],
        attributes: action_log(
            "escrow"@,
            seq![
                attribute("identifier"@, identifier),
                attribute("sender"@, caller),
                attribute("amount"@, decimal(amount.amount)),
                attribute("fee"@, decimal(fee_of(amount.amount))),
            ],
        ),
        events: seq![escrow_event(caller, identifier, amount)],
    }
}

/// What is held for an identifier after a transfer of `amount` by `caller`:
/// the net amount, in the denomination sent.
pub open spec fn escrow_of(caller: Seq<char>, amount: CoinView) -> EscrowView {
    EscrowView {
        sender: caller,
        amount: CoinView { denom: amount.denom, amount: net_of(amount.amount) },
    }
}

/// Transfer: the identifier must be valid, the ledger configured and the
/// amount in the accepted denomination.  The fee goes to the platform.  The
/// net amount goes to the owner of the identifier where it has one, and into
/// escrow, in place of whatever was held there, where it has none.
pub open spec fn transfer_spec(
    pre: StateView,
    caller: Seq<char>,
    identifier: Seq<char>,
    amount: CoinView,
) -> Result<Transition, ContractError> {
    if let Err(why) = validate_identifier_spec(identifier) {
        Err(ContractError::InvalidIdentifier(why))
    } else if pre.config is None {
        Err(ContractError::NotInitialized)
    } else if amount.denom != pre.config->0.token_denom {
        Err(ContractError::WrongDenomination)
    } else if pre.accounts.contains_key(identifier) {
        Ok(
            Transition {
                store: pre,
                response: direct_transfer_response(
                    pre.config->0,
                    caller,
                    identifier,
                    pre.accounts[identifier],
                    amount,
                ),
            },
        )
    } else {
        Ok(
            Transition {
                store: StateView {
                    config: pre.config,
                    accounts: pre.accounts,
                    escrows: pre.escrows.insert(identifier, escrow_of(caller, amount)),
                },
                response: escrow_transfer_response(pre.config->0, caller, identifier, amount),
            },
        )
    }
}

/// The response to a claim: what was held goes to the caller.
pub open spec fn claim_response(
    identifier: Seq<char>,
    caller: Seq<char>,
    held: EscrowView,
) -> ResponseView {
    ResponseView {
        messages: seq![PayoutView { to_address: caller, amount: held.amount }],
        attributes: action_log(
            "claim"@,
            seq![
                attribute("identifier"@, identifier),
                attribute("recipient"@, caller),
                attribute("amount"@, decimal(held.amount.amount)),
            ],
        ),
        events: Seq::<EventView>::empty(),
    }
}

/// Claim: the identifier must be valid and bound to the caller, and
/// something must be held for it.  What is held leaves the escrow ledger and
/// goes to the caller.
pub open spec fn claim_spec(pre: StateView, caller: Seq<char>, identifier: Seq<char>) -> Result<
    Transition,
    ContractError,
> {
    if let Err(why) = validate_identifier_spec(identifier) {
        Err(ContractError::InvalidIdentifier(why))
    } else if !(pre.accounts.contains_key(identifier) && pre.accounts[identifier] == caller) {
        Err(ContractError::NotOwner)
    } else if !pre.escrows.contains_key(identifier) {
        Err(ContractError::NoEscrow)
    } else {
        Ok(
            Transition {
                store: StateView {
                    config: pre.config,
                    accounts: pre.accounts,
                    escrows: pre.escrows.remove(identifier),
                },
                response: claim_response(identifier, caller, pre.escrows[identifier]),
            },
        )
    }
}

/// The operation that a message asks for.
pub open spec fn execute_spec(pre: StateView, caller: Seq<char>, msg: ExecuteMsgView) -> Result<
    Transition,
    ContractError,
> {
    match msg {
        ExecuteMsgView::Register { identifier } => register_spec(pre, caller, identifier),
        ExecuteMsgView::Transfer { identifier, amount } => transfer_spec(
            pre,
            caller,
            identifier,
            amount,
        ),
        ExecuteMsgView::Claim { identifier } => claim_spec(pre, caller, identifier),
    }
}

/// The answer to a query.  The balance of an account is not the ledger's to
/// know: the answer names the account and the accepted denomination, for the
/// bank to look up.
pub open spec fn query_spec(store: StateView, msg: QueryMsgView) -> Result<
    QueryResponseView,
    ContractError,
> {
    match msg {
        QueryMsgView::GetBalance { address } => match store.config {
            Some(config) => Ok(QueryResponseView::Balance { address, denom: config.token_denom }),
            None => Err(ContractError::NotInitialized),
        },
        QueryMsgView::GetEscrow { identifier } => Ok(
            QueryResponseView::Escrow {
                escrow: if store.escrows.contains_key(identifier) {
                    Some(store.escrows[identifier])
                } else {
                    None
                },
            },
        ),
        QueryMsgView::GetAccount { identifier } => Ok(
            QueryResponseView::Account {
                owner: if store.accounts.contains_key(identifier) {
                    Some(store.accounts[identifier])
                } else {
                    None
                },
            },
        ),
    }
}

/// An operation that started in the state `pre` did what `expected` says:
/// where that is an error, it returned the error and left the state as it
/// was; where it is a transition, it returned the transition's response and
/// left its state.
pub open spec fn performed(
    expected: Result<Transition, ContractError>,
    pre: StateView,
    post: StateView,
    outcome: Result<Response, ContractError>,
) -> bool {
    match expected {
        Ok(next) => outcome matches Ok(response) && response@ == next.response && post
            == next.store,
        Err(why) => outcome matches Err(given) && given == why && post == pre,
    }
}

} // verus!
