//! What holds of the ledger across operations.
//!
//! The laws are stated over the state machine of [`crate::model`], which the
//! executable operations are proved to follow, and hold of every state, every
//! caller and every identifier that their premises admit.

use vstd::prelude::*;
use crate::coin::CoinView;
use crate::error::ContractError;
use crate::fee::{fee_of, net_of};
use crate::helpers::validate_identifier_spec;
use crate::identifier::is_identifier;
use crate::model::{
    claim_spec, escrow_of, execute_spec, fee_payout, register_spec, transfer_spec, Transition,
};
use crate::msg::ExecuteMsgView;
use crate::response::payout;
use crate::state::StateView;

verus! {

/// One call of the ledger: who calls, and what for.
pub struct Call {
    pub caller: Seq<char>,
    pub msg: ExecuteMsgView,
}

/// The state after one call: the call's result where it succeeds, the state
/// before it where it fails.
pub open spec fn after(pre: StateView, call: Call) -> StateView {
    match execute_spec(pre, call.caller, call.msg) {
        Ok(next) => next.store,
        Err(_) => pre,
    }
}

/// The state after a run of calls, made one after the other.
pub open spec fn after_all(pre: StateView, calls: Seq<Call>) -> StateView
    decreases calls.len(),
{
    if calls.len() == 0 {
        pre
    } else {
        after(after_all(pre, calls.drop_last()), calls.last())
    }
}

/// Validation accepts the identifiers and nothing else.
pub proof fn law_validation_accepts_identifiers(s: Seq<char>)
    ensures
        validate_identifier_spec(s) is Ok <==> is_identifier(s),
{
}

/// Uniqueness: once an identifier has been registered, registering it again
/// fails with `AlreadyRegistered`, whoever calls.
pub proof fn law_register_once(
    pre: StateView,
    caller: Seq<char>,
    identifier: Seq<char>,
    again: Seq<char>,
)
    requires
        register_spec(pre, caller, identifier) is Ok,
    ensures
        register_spec(register_spec(pre, caller, identifier)->Ok_0.store, again, identifier) == Err::<
            Transition,
            ContractError,
        >(ContractError::AlreadyRegistered),
{
}

/// No call changes the configuration.
pub proof fn law_config_is_fixed(pre: StateView, calls: Seq<Call>)
    ensures
        after_all(pre, calls).config == pre.config,
    decreases calls.len(),
{
    if calls.len() > 0 {
        law_config_is_fixed(pre, calls.drop_last());
    }
}

/// Registration is permanent: whatever calls follow, an identifier that is
/// bound stays bound, and to the same account.
pub proof fn law_binding_is_permanent(pre: StateView, calls: Seq<Call>, identifier: Seq<char>)
    requires
        pre.accounts.contains_key(identifier),
    ensures
        after_all(pre, calls).accounts.contains_key(identifier),
        after_all(pre, calls).accounts[identifier] == pre.accounts[identifier],
    decreases calls.len(),
{
    if calls.len() > 0 {
        law_binding_is_permanent(pre, calls.drop_last(), identifier);
    }
}

/// Uniqueness, in the long run: once an identifier has been registered, no
/// run of calls makes it free again, so that registering it fails with
/// `AlreadyRegistered` ever after, whoever calls.
pub proof fn law_register_once_for_good(
    pre: StateView,
    caller: Seq<char>,
    identifier: Seq<char>,
    calls: Seq<Call>,
    again: Seq<char>,
)
    requires
        register_spec(pre, caller, identifier) is Ok,
    ensures
        register_spec(
            after_all(register_spec(pre, caller, identifier)->Ok_0.store, calls),
            again,
            identifier,
        ) == Err::<Transition, ContractError>(ContractError::AlreadyRegistered),
{
    let bound = register_spec(pre, caller, identifier)->Ok_0.store;
    law_binding_is_permanent(bound, calls, identifier);
}

/// Conservation: the fee and the net amount of a gross amount add up to it
/// exactly, and the fee is the hundredth part of it, rounded down.
pub proof fn law_fee_conservation(gross: nat)
    ensures
        fee_of(gross) + net_of(gross) == gross,
        fee_of(gross) == gross / 100,
{
}

/// Conservation, of a transfer: what a transfer that succeeds pays out and
/// holds adds up to the gross amount.  To a bound identifier it pays the net
/// amount and the fee; to an unbound one it pays the fee and holds the net
/// amount.
pub proof fn law_transfer_conserves(
    pre: StateView,
    caller: Seq<char>,
    identifier: Seq<char>,
    amount: CoinView,
)
    requires
        transfer_spec(pre, caller, identifier, amount) is Ok,
    ensures
        ({
            let next = transfer_spec(pre, caller, identifier, amount)->Ok_0;
            if pre.accounts.contains_key(identifier) {
                &&& next.response.messages.len() == 2
                &&& next.response.messages[0].amount.amount
                    + next.response.messages[1].amount.amount == amount.amount
            } else {
                &&& next.response.messages.len() == 1
                &&& next.store.escrows.contains_key(identifier)
                &&& next.response.messages[0].amount.amount
                    + next.store.escrows[identifier].amount.amount == amount.amount
            }
        }),
{
}

/// Exactly-once release: after a claim that succeeded, a second claim of the
/// same identifier by its owner fails with `NoEscrow`.
pub proof fn law_claim_once(pre: StateView, caller: Seq<char>, identifier: Seq<char>)
    requires
        claim_spec(pre, caller, identifier) is Ok,
    ensures
        claim_spec(claim_spec(pre, caller, identifier)->Ok_0.store, caller, identifier) == Err::<
            Transition,
            ContractError,
        >(ContractError::NoEscrow),
{
}

/// After a claim that succeeded, a second claim of the same identifier
/// fails, whoever calls: with `NoEscrow` for the owner, with `NotOwner` for
/// anybody else.
pub proof fn law_claim_once_whoever_calls(
    pre: StateView,
    caller: Seq<char>,
    identifier: Seq<char>,
    again: Seq<char>,
)
    requires
        claim_spec(pre, caller, identifier) is Ok,
    ensures
        claim_spec(claim_spec(pre, caller, identifier)->Ok_0.store, again, identifier) == Err::<
            Transition,
            ContractError,
        >(if again == caller {
            ContractError::NoEscrow
        } else {
            ContractError::NotOwner
        }),
{
}

/// Nothing comes to be held for an identifier that is bound: whatever calls
/// are made, if the identifier is bound and nothing is held for it, nothing
/// is held for it afterwards.
pub proof fn law_no_escrow_for_bound_identifier(
    pre: StateView,
    calls: Seq<Call>,
    identifier: Seq<char>,
)
    requires
        pre.accounts.contains_key(identifier),
        !pre.escrows.contains_key(identifier),
    ensures
        !after_all(pre, calls).escrows.contains_key(identifier),
    decreases calls.len(),
{
    if calls.len() > 0 {
        law_no_escrow_for_bound_identifier(pre, calls.drop_last(), identifier);
        law_binding_is_permanent(pre, calls.drop_last(), identifier);
    }
}

/// Exactly-once release, in the long run: after a claim that succeeded, no
/// run of calls brings the payment back, so that a claim of the same
/// identifier by its owner fails with `NoEscrow` ever after.
pub proof fn law_claim_once_for_good(
    pre: StateView,
    caller: Seq<char>,
    identifier: Seq<char>,
    calls: Seq<Call>,
)
    requires
        claim_spec(pre, caller, identifier) is Ok,
    ensures
        claim_spec(
            after_all(claim_spec(pre, caller, identifier)->Ok_0.store, calls),
            caller,
            identifier,
        ) == Err::<Transition, ContractError>(ContractError::NoEscrow),
{
    let released = claim_spec(pre, caller, identifier)->Ok_0.store;
    law_binding_is_permanent(released, calls, identifier);
    law_no_escrow_for_bound_identifier(released, calls, identifier);
}

/// Ownership gate: a claim of a valid identifier by anyone but the account
/// it is bound to fails with `NotOwner`, whether or not something is held
/// for it, and so does a claim of an identifier that is not bound at all.
pub proof fn law_only_owner_claims(pre: StateView, caller: Seq<char>, identifier: Seq<char>)
    requires
        validate_identifier_spec(identifier) is Ok,
        !pre.accounts.contains_key(identifier) || pre.accounts[identifier] != caller,
    ensures
        claim_spec(pre, caller, identifier) == Err::<Transition, ContractError>(
            ContractError::NotOwner,
        ),
{
}

/// Every identifier that is bound in `state` is a valid one.
pub open spec fn bindings_are_valid(state: StateView) -> bool {
    forall|identifier: Seq<char>| #[trigger]
        state.accounts.contains_key(identifier) ==> validate_identifier_spec(identifier) is Ok
}

/// Only valid identifiers get bound: where every bound identifier is valid
/// before a run of calls, every bound identifier is valid after it.
pub proof fn law_bindings_stay_valid(pre: StateView, calls: Seq<Call>)
    requires
        bindings_are_valid(pre),
    ensures
        bindings_are_valid(after_all(pre, calls)),
    decreases calls.len(),
{
    if calls.len() > 0 {
        law_bindings_stay_valid(pre, calls.drop_last());
    }
}

/// Ownership gate, of a bound identifier: where only valid identifiers are
/// bound, as is the case in every state that the operations build, a claim
/// of a bound identifier by anyone but its owner fails with `NotOwner`,
/// whether or not something is held for it.
pub proof fn law_only_owner_claims_bound(
    pre: StateView,
    caller: Seq<char>,
    identifier: Seq<char>,
)
    requires
        bindings_are_valid(pre),
        pre.accounts.contains_key(identifier),
        pre.accounts[identifier] != caller,
    ensures
        claim_spec(pre, caller, identifier) == Err::<Transition, ContractError>(
            ContractError::NotOwner,
        ),
{
}

/// A claim never succeeds for anyone but the owner, valid identifier or not.
pub proof fn law_claim_needs_owner(pre: StateView, caller: Seq<char>, identifier: Seq<char>)
    requires
        claim_spec(pre, caller, identifier) is Ok,
    ensures
        pre.accounts.contains_key(identifier),
        pre.accounts[identifier] == caller,
{
}

/// Routing, to a bound identifier: a transfer that succeeds leaves the whole
/// state, the escrow ledger with it, as it was, and pays the net amount to
/// the owner.
pub proof fn law_transfer_to_bound_pays_owner(
    pre: StateView,
    caller: Seq<char>,
    identifier: Seq<char>,
    amount: CoinView,
)
    requires
        pre.accounts.contains_key(identifier),
        transfer_spec(pre, caller, identifier, amount) is Ok,
    ensures
        ({
            let next = transfer_spec(pre, caller, identifier, amount)->Ok_0;
            &&& next.store == pre
            &&& next.response.messages == seq![
                payout(pre.accounts[identifier], amount.denom, net_of(amount.amount)),
                fee_payout(pre.config->0, amount),
            ]
        }),
{
}

/// Routing, to an unbound identifier: a transfer that succeeds asks for one
/// payment only, the fee to the platform, and holds the net amount for the
/// identifier.  Bindings and the payments held for other identifiers are
/// left as they were.
pub proof fn law_transfer_to_unbound_holds(
    pre: StateView,
    caller: Seq<char>,
    identifier: Seq<char>,
    amount: CoinView,
)
    requires
        !pre.accounts.contains_key(identifier),
        transfer_spec(pre, caller, identifier, amount) is Ok,
    ensures
        ({
            let next = transfer_spec(pre, caller, identifier, amount)->Ok_0;
            &&& next.response.messages == seq![fee_payout(pre.config->0, amount)]
            &&& next.store.accounts == pre.accounts
            &&& next.store.escrows == pre.escrows.insert(identifier, escrow_of(caller, amount))
        }),
{
}

/// A transfer in any denomination but the accepted one fails, and so asks
/// for no payment and changes nothing; where the identifier is valid it
/// fails with `WrongDenomination`.
pub proof fn law_wrong_denomination_fails(
    pre: StateView,
    caller: Seq<char>,
    identifier: Seq<char>,
    amount: CoinView,
)
    requires
        pre.config is Some,
        amount.denom != pre.config->0.token_denom,
    ensures
        transfer_spec(pre, caller, identifier, amount) is Err,
        validate_identifier_spec(identifier) is Ok ==> transfer_spec(
            pre,
            caller,
            identifier,
            amount,
        ) == Err::<Transition, ContractError>(ContractError::WrongDenomination),
{
}

/// A transfer succeeds exactly when the identifier is valid, the ledger is
/// configured and the amount is in the accepted denomination: no amount is
/// too small for the fee.
pub proof fn law_transfer_succeeds(
    pre: StateView,
    caller: Seq<char>,
    identifier: Seq<char>,
    amount: CoinView,
)
    ensures
        transfer_spec(pre, caller, identifier, amount) is Ok <==> {
            &&& validate_identifier_spec(identifier) is Ok
            &&& pre.config is Some
            &&& amount.denom == pre.config->0.token_denom
        },
{
}

/// The identifier that a message is about.
pub open spec fn identifier_of(msg: ExecuteMsgView) -> Seq<char> {
    match msg {
        ExecuteMsgView::Register { identifier } => identifier,
        ExecuteMsgView::Transfer { identifier, amount } => identifier,
        ExecuteMsgView::Claim { identifier } => identifier,
    }
}

/// Two states hold the same configuration and the same for `identifier`:
/// the same binding, or none, and the same payment, or none.
pub open spec fn agree_on(a: StateView, b: StateView, identifier: Seq<char>) -> bool {
    &&& a.config == b.config
    &&& a.accounts.contains_key(identifier) == b.accounts.contains_key(identifier)
    &&& a.accounts.contains_key(identifier) ==> a.accounts[identifier] == b.accounts[identifier]
    &&& a.escrows.contains_key(identifier) == b.escrows.contains_key(identifier)
    &&& a.escrows.contains_key(identifier) ==> a.escrows[identifier] == b.escrows[identifier]
}

/// A call reads the configuration and what the state holds for its own
/// identifier, and nothing else: in two states that agree on these it fails
/// with the same error or succeeds with the same response, and the states it
/// leaves agree on them again.
pub proof fn law_call_reads_its_identifier_only(
    a: StateView,
    b: StateView,
    caller: Seq<char>,
    msg: ExecuteMsgView,
)
    requires
        agree_on(a, b, identifier_of(msg)),
    ensures
        match (execute_spec(a, caller, msg), execute_spec(b, caller, msg)) {
            (Ok(from_a), Ok(from_b)) => from_a.response == from_b.response && agree_on(
                from_a.store,
                from_b.store,
                identifier_of(msg),
            ),
            (Err(in_a), Err(in_b)) => in_a == in_b,
            _ => false,
        },
{
}

/// A call changes what the state holds for its own identifier, and nothing
/// else: the configuration, and the binding and the payment of every other
/// identifier, are after the call what they were before it.
pub proof fn law_call_changes_its_identifier_only(
    pre: StateView,
    call: Call,
    other: Seq<char>,
)
    requires
        other != identifier_of(call.msg),
    ensures
        agree_on(pre, after(pre, call), other),
{
}

/// Where an identifier stands: bound to an account or not, with a payment
/// held for it or not.
pub enum Phase {
    UnregisteredNoEscrow,
    UnregisteredEscrowed,
    RegisteredNoEscrow,
    RegisteredEscrowed,
}

/// Where `identifier` stands in `state`.
pub open spec fn phase_of(state: StateView, identifier: Seq<char>) -> Phase {
    if state.accounts.contains_key(identifier) {
        if state.escrows.contains_key(identifier) {
            Phase::RegisteredEscrowed
        } else {
            Phase::RegisteredNoEscrow
        }
    } else {
        if state.escrows.contains_key(identifier) {
            Phase::UnregisteredEscrowed
        } else {
            Phase::UnregisteredNoEscrow
        }
    }
}

/// The steps that one call can make an identifier take.  An unregistered
/// identifier can come to have a payment held and can be registered; once
/// registered it stays so, and a payment held for it can only be released.
pub open spec fn may_follow(from: Phase, to: Phase) -> bool {
    match from {
        Phase::UnregisteredNoEscrow => !(to is RegisteredEscrowed),
        Phase::UnregisteredEscrowed => to is UnregisteredEscrowed || to is RegisteredEscrowed,
        Phase::RegisteredNoEscrow => to is RegisteredNoEscrow,
        Phase::RegisteredEscrowed => to is RegisteredEscrowed || to is RegisteredNoEscrow,
    }
}

/// Every call moves every identifier along a step that [`may_follow`]
/// allows, or leaves it where it stands.
pub proof fn law_phases_follow_the_graph(pre: StateView, call: Call, identifier: Seq<char>)
    ensures
        may_follow(phase_of(pre, identifier), phase_of(after(pre, call), identifier)),
{
}

/// What moves an identifier from one phase to another: a transfer that
/// succeeds brings a payment to an unregistered identifier, a registration
/// that succeeds binds it, and a claim that succeeds releases the payment of
/// a registered one.  Nothing else changes the phase of an identifier.
pub proof fn law_phase_changes(pre: StateView, call: Call, identifier: Seq<char>)
    requires
        phase_of(pre, identifier) != phase_of(after(pre, call), identifier),
    ensures
        execute_spec(pre, call.caller, call.msg) is Ok,
        identifier_of(call.msg) == identifier,
        match call.msg {
            ExecuteMsgView::Register { identifier } => {
                &&& !pre.accounts.contains_key(identifier)
                &&& after(pre, call).accounts.contains_key(identifier)
                &&& after(pre, call).escrows == pre.escrows
            },
            ExecuteMsgView::Transfer { identifier, amount } => {
                &&& phase_of(pre, identifier) is UnregisteredNoEscrow
                &&& phase_of(after(pre, call), identifier) is UnregisteredEscrowed
            },
            ExecuteMsgView::Claim { identifier } => {
                &&& phase_of(pre, identifier) is RegisteredEscrowed
                &&& phase_of(after(pre, call), identifier) is RegisteredNoEscrow
                &&& pre.accounts[identifier] == call.caller
            },
        },
{
}

} // verus!
