//! The state of the ledger: its configuration, the registry that binds
//! identifiers to accounts, and the escrow ledger that holds payments for
//! identifiers nobody has registered yet.

use vstd::prelude::*;
use crate::coin::{Coin, CoinView};
use crate::error::ContractError;
use crate::keyed::{
    as_map, keys_distinct, lemma_as_map_absent, lemma_as_map_at, lemma_as_map_push,
    lemma_as_map_remove, lemma_as_map_update,
};

verus! {

/// The configuration, written when the ledger is instantiated and read by
/// every transfer.
#[derive(Debug, PartialEq, Eq)]
pub struct Config {
    /// The only asset the ledger moves.
    pub token_denom: String,
    /// The account that receives the fees.
    pub platform_wallet: String,
}

/// What a [`Config`] stands for.
pub struct ConfigView {
    pub token_denom: Seq<char>,
    pub platform_wallet: Seq<char>,
}

impl View for Config {
    type V = ConfigView;

    open spec fn view(&self) -> ConfigView {
        ConfigView { token_denom: self.token_denom@, platform_wallet: self.platform_wallet@ }
    }
}

impl Clone for Config {
    fn clone(&self) -> (copy: Self)
        ensures
            copy == *self,
    {
        Config {
            token_denom: self.token_denom.clone(),
            platform_wallet: self.platform_wallet.clone(),
        }
    }
}

/// A payment held for an identifier until its owner claims it.
#[derive(Debug, PartialEq, Eq)]
pub struct Escrow {
    /// The account that funded the payment.
    pub sender: String,
    /// The amount owed, the fee already taken.
    pub amount: Coin,
}

/// What an [`Escrow`] stands for.
pub struct EscrowView {
    pub sender: Seq<char>,
    pub amount: CoinView,
}

impl View for Escrow {
    type V = EscrowView;

    open spec fn view(&self) -> EscrowView {
        EscrowView { sender: self.sender@, amount: self.amount@ }
    }
}

impl Clone for Escrow {
    fn clone(&self) -> (copy: Self)
        ensures
            copy == *self,
    {
        Escrow { sender: self.sender.clone(), amount: self.amount.clone() }
    }
}

/// One binding of the registry.
#[derive(Debug)]
struct Binding {
    identifier: String,
    owner: String,
}

/// The bindings from identifiers to the accounts that registered them.  An
/// identifier is bound at most once, and a binding, once made, stays.
#[derive(Debug)]
pub struct Registry {
    bindings: Vec<Binding>,
}

impl View for Registry {
    type V = Map<Seq<char>, Seq<char>>;

    /// The owner of each bound identifier.
    closed spec fn view(&self) -> Map<Seq<char>, Seq<char>> {
        as_map(self.pairs())
    }
}

impl Registry {
    spec fn pairs(&self) -> Seq<(Seq<char>, Seq<char>)> {
        self.bindings@.map_values(|b: Binding| (b.identifier@, b.owner@))
    }

    #[verifier::type_invariant]
    spec fn well_formed(&self) -> bool {
        keys_distinct(self.pairs())
    }

    /// The registry without a binding.
    pub fn new() -> (registry: Self)
        ensures
            registry@ == Map::<Seq<char>, Seq<char>>::empty(),
    {
        Registry { bindings: Vec::new() }
    }

    /// Where the binding of `identifier` stands, if there is one.
    fn position(&self, identifier: &String) -> (found: Option<usize>)
        ensures
            match found {
                Some(i) => i < self.pairs().len() && self.pairs()[i as int].0 == identifier@,
                None => forall|j: int|
                    0 <= j < self.pairs().len() ==> (#[trigger] self.pairs()[j]).0 != identifier@,
            },
    {
        let mut i: usize = 0;
        while i < self.bindings.len()
            invariant
                i <= self.bindings.len(),
                self.pairs().len() == self.bindings.len(),
                forall|j: int| 0 <= j < i ==> (#[trigger] self.pairs()[j]).0 != identifier@,
            decreases self.bindings.len() - i,
        {
            if self.bindings[i].identifier == *identifier {
                return Some(i);
            }
            i += 1;
        }
        None
    }

    /// The account that `identifier` is bound to, if it is bound.
    pub fn lookup(&self, identifier: &String) -> (owner: Option<String>)
        ensures
            match owner {
                Some(account) => self@.contains_key(identifier@) && account@ == self@[identifier@],
                None => !self@.contains_key(identifier@),
            },
    {
        proof {
            use_type_invariant(self);
        }
        match self.position(identifier) {
            Some(i) => {
                proof {
                    lemma_as_map_at(self.pairs(), i as int);
                }
                Some(self.bindings[i].owner.clone())
            },
            None => {
                proof {
                    lemma_as_map_absent(self.pairs(), identifier@);
                }
                None
            },
        }
    }

    /// Whether `identifier` is bound.
    pub fn has(&self, identifier: &String) -> (bound: bool)
        ensures
            bound == self@.contains_key(identifier@),
    {
        proof {
            use_type_invariant(self);
        }
        match self.position(identifier) {
            Some(i) => {
                proof {
                    lemma_as_map_at(self.pairs(), i as int);
                }
                true
            },
            None => {
                proof {
                    lemma_as_map_absent(self.pairs(), identifier@);
                }
                false
            },
        }
    }

    /// Binds `identifier` to `owner`, unless it is bound already: the first
    /// to register an identifier keeps it.
    pub fn register(&mut self, identifier: String, owner: String) -> (outcome: Result<
        (),
        ContractError,
    >)
        ensures
            match outcome {
                Ok(_) => !old(self)@.contains_key(identifier@) && final(self)@ == old(self)@.insert(
                    identifier@,
                    owner@,
                ),
                Err(why) => why == ContractError::AlreadyRegistered && old(self)@.contains_key(
                    identifier@,
                ) && final(self)@ == old(self)@,
            },
    {
        proof {
            use_type_invariant(&*self);
        }
        match self.position(&identifier) {
            Some(i) => {
                proof {
                    lemma_as_map_at(self.pairs(), i as int);
                }
                Err(ContractError::AlreadyRegistered)
            },
            None => {
                proof {
                    lemma_as_map_absent(self.pairs(), identifier@);
                    lemma_as_map_push(self.pairs(), identifier@, owner@);
                    assert(self.pairs().push((identifier@, owner@)) =~= self.bindings@.push(
                        Binding { identifier, owner },
                    ).map_values(|b: Binding| (b.identifier@, b.owner@)));
                }
                let mut bindings: Vec<Binding> = Vec::new();
                core::mem::swap(&mut self.bindings, &mut bindings);
                bindings.push(Binding { identifier, owner });
                core::mem::swap(&mut self.bindings, &mut bindings);
                Ok(())
            },
        }
    }
}

/// One record of the escrow ledger.
#[derive(Debug)]
struct Pending {
    identifier: String,
    escrow: Escrow,
}

/// The payments held in escrow, at most one for each identifier.
#[derive(Debug)]
pub struct EscrowLedger {
    records: Vec<Pending>,
}

impl View for EscrowLedger {
    type V = Map<Seq<char>, EscrowView>;

    /// The payment held for each identifier that has one.
    closed spec fn view(&self) -> Map<Seq<char>, EscrowView> {
        as_map(self.pairs())
    }
}

impl EscrowLedger {
    spec fn pairs(&self) -> Seq<(Seq<char>, EscrowView)> {
        self.records@.map_values(|p: Pending| (p.identifier@, p.escrow@))
    }

    #[verifier::type_invariant]
    spec fn well_formed(&self) -> bool {
        keys_distinct(self.pairs())
    }

    /// The ledger that holds nothing.
    pub fn new() -> (ledger: Self)
        ensures
            ledger@ == Map::<Seq<char>, EscrowView>::empty(),
    {
        EscrowLedger { records: Vec::new() }
    }

    /// Where the record of `identifier` stands, if there is one.
    fn position(&self, identifier: &String) -> (found: Option<usize>)
        ensures
            match found {
                Some(i) => i < self.pairs().len() && self.pairs()[i as int].0 == identifier@,
                None => forall|j: int|
                    0 <= j < self.pairs().len() ==> (#[trigger] self.pairs()[j]).0 != identifier@,
            },
    {
        let mut i: usize = 0;
        while i < self.records.len()
            invariant
                i <= self.records.len(),
                self.pairs().len() == self.records.len(),
                forall|j: int| 0 <= j < i ==> (#[trigger] self.pairs()[j]).0 != identifier@,
            decreases self.records.len() - i,
        {
            if self.records[i].identifier == *identifier {
                return Some(i);
            }
            i += 1;
        }
        None
    }

    /// The payment held for `identifier`, if there is one.  The ledger is
    /// left as it is.
    pub fn get(&self, identifier: &String) -> (held: Option<Escrow>)
        ensures
            match held {
                Some(escrow) => self@.contains_key(identifier@) && escrow@ == self@[identifier@],
                None => !self@.contains_key(identifier@),
            },
    {
        proof {
            use_type_invariant(self);
        }
        match self.position(identifier) {
            Some(i) => {
                proof {
                    lemma_as_map_at(self.pairs(), i as int);
                }
                Some(self.records[i].escrow.clone())
            },
            None => {
                proof {
                    lemma_as_map_absent(self.pairs(), identifier@);
                }
                None
            },
        }
    }

    /// Holds `amount`, funded by `depositor`, for `identifier`.  A payment
    /// already held for that identifier is replaced, not added to.
    pub fn put(&mut self, identifier: String, depositor: String, amount: Coin)
        ensures
            final(self)@ == old(self)@.insert(
                identifier@,
                EscrowView { sender: depositor@, amount: amount@ },
            ),
    {
        proof {
            use_type_invariant(&*self);
        }
        let ghost before = self.pairs();
        let ghost held = EscrowView { sender: depositor@, amount: amount@ };
        let found = self.position(&identifier);
        let record = Pending { identifier, escrow: Escrow { sender: depositor, amount } };
        let mut records: Vec<Pending> = Vec::new();
        core::mem::swap(&mut self.records, &mut records);
        match found {
            Some(i) => {
                proof {
                    lemma_as_map_update(before, i as int, held);
                    assert(before.update(i as int, (before[i as int].0, held)) =~= records@.update(
                        i as int,
                        record,
                    ).map_values(|p: Pending| (p.identifier@, p.escrow@)));
                }
                records.set(i, record);
            },
            None => {
                proof {
                    lemma_as_map_absent(before, record.identifier@);
                    lemma_as_map_push(before, record.identifier@, held);
                    assert(before.push((record.identifier@, held)) =~= records@.push(
                        record,
                    ).map_values(|p: Pending| (p.identifier@, p.escrow@)));
                }
                records.push(record);
            },
        }
        core::mem::swap(&mut self.records, &mut records);
    }

    /// Takes the payment held for `identifier` out of the ledger and returns
    /// it.  Once taken it is gone: a second call for the same identifier
    /// finds nothing.
    pub fn take(&mut self, identifier: &String) -> (held: Option<Escrow>)
        ensures
            match held {
                Some(escrow) => old(self)@.contains_key(identifier@) && escrow@ == old(
                    self,
                )@[identifier@] && final(self)@ == old(self)@.remove(identifier@),
                None => !old(self)@.contains_key(identifier@) && final(self)@ == old(self)@,
            },
    {
        proof {
            use_type_invariant(&*self);
        }
        let ghost before = self.pairs();
        match self.position(identifier) {
            Some(i) => {
                let mut records: Vec<Pending> = Vec::new();
                core::mem::swap(&mut self.records, &mut records);
                proof {
                    lemma_as_map_at(before, i as int);
                    lemma_as_map_remove(before, i as int);
                    assert(before.remove(i as int) =~= records@.remove(i as int).map_values(
                        |p: Pending| (p.identifier@, p.escrow@),
                    ));
                }
                let record = records.remove(i);
                core::mem::swap(&mut self.records, &mut records);
                Some(record.escrow)
            },
            None => {
                proof {
                    lemma_as_map_absent(before, identifier@);
                }
                None
            },
        }
    }
}

/// The whole state of the ledger.
#[derive(Debug)]
pub struct Store {
    /// The configuration, once the ledger is instantiated.
    pub config: Option<Config>,
    /// The identifiers that are bound to an account.
    pub accounts: Registry,
    /// The payments held for identifiers.
    pub escrows: EscrowLedger,
}

/// What a [`Store`] stands for.
pub struct StateView {
    pub config: Option<ConfigView>,
    pub accounts: Map<Seq<char>, Seq<char>>,
    pub escrows: Map<Seq<char>, EscrowView>,
}

impl View for Store {
    type V = StateView;

    open spec fn view(&self) -> StateView {
        StateView {
            config: match self.config {
                Some(config) => Some(config@),
                None => None,
            },
            accounts: self.accounts@,
            escrows: self.escrows@,
        }
    }
}

impl Store {
    /// The state before the ledger is instantiated: no configuration, no
    /// binding, nothing in escrow.
    pub fn new() -> (store: Self)
        ensures
            store@ == (StateView {
                config: None,
                accounts: Map::<Seq<char>, Seq<char>>::empty(),
                escrows: Map::<Seq<char>, EscrowView>::empty(),
            }),
    {
        Store { config: None, accounts: Registry::new(), escrows: EscrowLedger::new() }
    }
}

} // verus!
