//! The messages that the ledger takes and the answers it gives to queries.

use vstd::prelude::*;
use crate::coin::{Coin, CoinView};
use crate::state::{Escrow, EscrowView};

verus! {

/// Who called, and with which funds.
#[derive(Debug, PartialEq, Eq)]
pub struct MessageInfo {
    /// The account that makes the call.
    pub sender: String,
    /// The funds sent along with the call.
    pub funds: Vec<Coin>,
}

impl Clone for MessageInfo {
    fn clone(&self) -> (copy: Self)
        ensures
            copy.sender@ == self.sender@,
            copy.funds@.len() == self.funds@.len(),
            forall|i: int| 0 <= i < self.funds@.len() ==> copy.funds@[i] == self.funds@[i],
    {
        let mut funds: Vec<Coin> = Vec::new();
        let mut i: usize = 0;
        while i < self.funds.len()
            invariant
                i <= self.funds.len(),
                funds@.len() == i,
                forall|j: int| 0 <= j < i ==> funds@[j] == self.funds@[j],
            decreases self.funds.len() - i,
        {
            funds.push(self.funds[i].clone());
            i += 1;
        }
        MessageInfo { sender: self.sender.clone(), funds }
    }
}

impl MessageInfo {
    /// The call of `sender` with `funds`.
    pub fn new(sender: &str, funds: Vec<Coin>) -> (info: Self)
        ensures
            info.sender@ == sender@,
            info.funds == funds,
    {
        MessageInfo { sender: sender.to_owned(), funds }
    }
}

/// The configuration that the ledger starts with.
#[derive(Debug, PartialEq, Eq)]
pub struct InstantiateMsg {
    /// The only asset the ledger will move.
    pub token_denom: String,
    /// The account that receives the fees.
    pub platform_wallet: String,
}

/// An operation that changes the ledger.
#[derive(Debug, PartialEq, Eq)]
pub enum ExecuteMsg {
    /// Bind the identifier to the caller.
    Register { identifier: String },
    /// Send the amount to whoever owns, or will own, the identifier.
    Transfer { identifier: String, amount: Coin },
    /// Release to the caller what is held for the identifier.
    Claim { identifier: String },
}

/// What an [`ExecuteMsg`] stands for.
pub enum ExecuteMsgView {
    Register { identifier: Seq<char> },
    Transfer { identifier: Seq<char>, amount: CoinView },
    Claim { identifier: Seq<char> },
}

impl View for ExecuteMsg {
    type V = ExecuteMsgView;

    open spec fn view(&self) -> ExecuteMsgView {
        match self {
            ExecuteMsg::Register { identifier } => ExecuteMsgView::Register {
                identifier: identifier@,
            },
            ExecuteMsg::Transfer { identifier, amount } => ExecuteMsgView::Transfer {
                identifier: identifier@,
                amount: amount@,
            },
            ExecuteMsg::Claim { identifier } => ExecuteMsgView::Claim { identifier: identifier@ },
        }
    }
}

/// A question that leaves the ledger as it is.
#[derive(Debug, PartialEq, Eq)]
pub enum QueryMsg {
    /// The balance of an account in the accepted asset.
    GetBalance { address: String },
    /// What is held in escrow for an identifier.
    GetEscrow { identifier: String },
    /// The account that an identifier is bound to.
    GetAccount { identifier: String },
}

/// What a [`QueryMsg`] stands for.
pub enum QueryMsgView {
    GetBalance { address: Seq<char> },
    GetEscrow { identifier: Seq<char> },
    GetAccount { identifier: Seq<char> },
}

impl View for QueryMsg {
    type V = QueryMsgView;

    open spec fn view(&self) -> QueryMsgView {
        match self {
            QueryMsg::GetBalance { address } => QueryMsgView::GetBalance { address: address@ },
            QueryMsg::GetEscrow { identifier } => QueryMsgView::GetEscrow {
                identifier: identifier@,
            },
            QueryMsg::GetAccount { identifier } => QueryMsgView::GetAccount {
                identifier: identifier@,
            },
        }
    }
}

/// The balance of an account, as the bank reports it.
#[derive(Debug, PartialEq, Eq)]
pub struct BalanceResponse {
    pub balance: Coin,
}

/// The question that answers `GetBalance`.  The ledger keeps no balances: it
/// names the account and the asset, and the bank behind it gives the answer.
#[derive(Debug, PartialEq, Eq)]
pub struct BalanceRequest {
    pub address: String,
    pub denom: String,
}

/// What is held in escrow for an identifier, if anything.
#[derive(Debug, PartialEq, Eq)]
pub struct EscrowResponse {
    pub escrow: Option<Escrow>,
}

/// The account that an identifier is bound to, if any.
#[derive(Debug, PartialEq, Eq)]
pub struct AccountResponse {
    pub address: Option<String>,
}

/// The answer to a query.
#[derive(Debug, PartialEq, Eq)]
pub enum QueryResponse {
    /// The balance is to be asked of the bank.
    Balance(BalanceRequest),
    Escrow(EscrowResponse),
    Account(AccountResponse),
}

/// What a [`QueryResponse`] stands for.
pub enum QueryResponseView {
    Balance { address: Seq<char>, denom: Seq<char> },
    Escrow { escrow: Option<EscrowView> },
    Account { owner: Option<Seq<char>> },
}

impl View for QueryResponse {
    type V = QueryResponseView;

    open spec fn view(&self) -> QueryResponseView {
        match self {
            QueryResponse::Balance(request) => QueryResponseView::Balance {
                address: request.address@,
                denom: request.denom@,
            },
            QueryResponse::Escrow(response) => QueryResponseView::Escrow {
                escrow: match response.escrow {
                    Some(escrow) => Some(escrow@),
                    None => None,
                },
            },
            QueryResponse::Account(response) => QueryResponseView::Account {
                owner: match response.address {
                    Some(address) => Some(address@),
                    None => None,
                },
            },
        }
    }
}

} // verus!
