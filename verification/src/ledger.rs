//! The executable ledger.

use crate::arith::{checked_add, checked_sub};
use crate::error::Error;
use crate::event::Event;
use crate::laws::{
    lemma_approve_inv, lemma_empty_inv, lemma_init_inv, lemma_move_balance_inv,
    lemma_transfer_from_inv,
};
use crate::model::LedgerState;
use crate::token::{Erc20Token, TokenSpec};
use crate::types::{AccountId, AllowanceKey, BalanceKey, TokenBalance, TokenId};
use std::collections::BTreeMap;
use vstd::prelude::*;

verus! {

/// A ledger of tokens: the token counter, the registry, the balances, the
/// allowances, and the events that wait for the host to collect them.
pub struct Ledger {
    next_token_id: TokenId,
    tokens: BTreeMap<TokenId, Erc20Token<TokenBalance>>,
    balances: BTreeMap<BalanceKey, TokenBalance>,
    allowances: BTreeMap<AllowanceKey, TokenBalance>,
    events: Vec<Event>,
}

impl View for Ledger {
    type V = LedgerState;

    closed spec fn view(&self) -> LedgerState {
        LedgerState {
            next_token_id: self.next_token_id,
            tokens: self.tokens@.map_values(|t: Erc20Token<TokenBalance>| t@),
            balances: self.balances@,
            allowances: self.allowances@,
            events: self.events@,
        }
    }
}

impl Ledger {
    /// A ledger without tokens, entries or events.
    pub fn new() -> (ledger: Ledger)
        ensures
            ledger@ == LedgerState::empty(),
            ledger@.inv(),
    {
        let ledger = Ledger {
            next_token_id: 0,
            tokens: BTreeMap::new(),
            balances: BTreeMap::new(),
            allowances: BTreeMap::new(),
            events: Vec::new(),
        };
        proof {
            assert(ledger@.tokens =~= LedgerState::empty().tokens);
            lemma_empty_inv();
        }
        ledger
    }

    /// The id that the next token will get: the number of tokens created so
    /// far.
    pub fn token_id_counter(&self) -> (next: TokenId)
        ensures
            next == self@.next_token_id,
    {
        self.next_token_id
    }

    /// The details of `token`, or `None` where no such token was created.
    pub fn token_details(&self, token: TokenId) -> (details: Option<&Erc20Token<TokenBalance>>)
        ensures
            match details {
                Some(found) => self@.tokens.contains_key(token) && found@ == self@.tokens[token],
                None => !self@.tokens.contains_key(token),
            },
    {
        self.tokens.get(&token)
    }

    /// The events that operations have emitted since the host last collected
    /// them, oldest first.
    pub fn events(&self) -> (events: &Vec<Event>)
        ensures
            events@ == self@.events,
    {
        &self.events
    }

    /// Hands the waiting events to the host, oldest first, and forgets them.
    /// Tokens, balances and allowances stay as they are.
    pub fn take_events(&mut self) -> (events: Vec<Event>)
        ensures
            events@ == old(self)@.events,
            final(self)@ == old(self)@.without_events(),
            old(self)@.inv() ==> final(self)@.inv(),
    {
        let mut events: Vec<Event> = Vec::new();
        std::mem::swap(&mut self.events, &mut events);
        events
    }

    /// Whether the account of `key` has a balance entry for the token of
    /// `key`. An entry may hold zero; an account that never held the token
    /// has none.
    pub fn has_balance_entry(&self, key: BalanceKey) -> (present: bool)
        ensures
            present == self@.has_balance_entry(key.0, key.1),
    {
        self.balances.contains_key(&key)
    }

    /// What the account of `key` holds of the token of `key`: zero where it
    /// has no entry.
    pub fn balance_of(&self, key: BalanceKey) -> (balance: TokenBalance)
        ensures
            balance == self@.balance_of(key.0, key.1),
    {
        match self.balances.get(&key) {
            Some(balance) => *balance,
            None => 0,
        }
    }

    /// Whether the owner of `key` has an allowance entry for the spender of
    /// `key` on the token of `key`.
    pub fn has_allowance_entry(&self, key: AllowanceKey) -> (present: bool)
        ensures
            present == self@.has_allowance_entry(key.0, key.1, key.2),
    {
        self.allowances.contains_key(&key)
    }

    /// What the spender of `key` may move out of the owner's balance of the
    /// token of `key`: zero where there is no entry.
    pub fn allowance(&self, key: AllowanceKey) -> (allowance: TokenBalance)
        ensures
            allowance == self@.allowance(key.0, key.1, key.2),
    {
        match self.allowances.get(&key) {
            Some(allowance) => *allowance,
            None => 0,
        }
    }

    /// Validates a move of `value` of `token` from `from` to `to` and computes
    /// the two balances that it leads to, both from the balances as they are
    /// now: first that of `from`, then that of `to`. The ledger stays as it is.
    fn checked_move(
        &self,
        token: TokenId,
        from: AccountId,
        to: AccountId,
        value: TokenBalance,
    ) -> (result: Result<(TokenBalance, TokenBalance), Error>)
        ensures
            match result {
                Ok((updated_from, updated_to)) => {
                    &&& self@.move_balance_result(token, from, to, value) is Ok
                    &&& updated_from == self@.balance_of(token, from) - value
                    &&& updated_to == self@.balance_of(token, to) + value
                },
                Err(error) => self@.move_balance_result(token, from, to, value) == Err::<
                    (),
                    Error,
                >(error),
            },
    {
        if !self.has_balance_entry((token, from)) {
            return Err(Error::NoSuchAccount);
        }
        let sender_balance = self.balance_of((token, from));
        if sender_balance < value {
            return Err(Error::InsufficientBalance);
        }
        let updated_from_balance = match checked_sub(sender_balance, value) {
            Some(balance) => balance,
            None => {
                return Err(Error::Overflow);
            },
        };
        let receiver_balance = self.balance_of((token, to));
        let updated_to_balance = match checked_add(receiver_balance, value) {
            Some(balance) => balance,
            None => {
                return Err(Error::Overflow);
            },
        };
        Ok((updated_from_balance, updated_to_balance))
    }

    /// Moves `value` of `token` from `from` to `to` and emits a `Transfer`
    /// event.
    ///
    /// The move is refused with `NoSuchAccount` where `from` has no balance
    /// entry for `token`, else with `InsufficientBalance` where `from` holds
    /// less than `value`, else with `Overflow` where `to`'s balance cannot
    /// take `value`. Both new balances are computed from the balances before
    /// the move, and a move from an account to itself leaves its balance as
    /// it was. A refused move changes nothing.
    fn move_balance(
        &mut self,
        token: TokenId,
        from: AccountId,
        to: AccountId,
        value: TokenBalance,
    ) -> (result: Result<(), Error>)
        ensures
            result == old(self)@.move_balance_result(token, from, to, value),
            final(self)@ == old(self)@.move_balance(token, from, to, value),
            result is Err ==> final(self)@ == old(self)@,
            old(self)@.inv() ==> final(self)@.inv(),
    {
        proof {
            if self@.inv() {
                lemma_move_balance_inv(self@, token, from, to, value);
            }
        }
        let (updated_from_balance, updated_to_balance) = match self.checked_move(
            token,
            from,
            to,
            value,
        ) {
            Ok(balances) => balances,
            Err(error) => {
                return Err(error);
            },
        };
        if from != to {
            self.balances.insert((token, from), updated_from_balance);
            self.balances.insert((token, to), updated_to_balance);
        }
        self.events.push(Event::Transfer(token, from, to, value));
        Ok(())
    }

    /// Moves `value` of `token` from `caller` to `to` and emits a `Transfer`
    /// event.
    ///
    /// The request is refused with `NoSuchAccount` where `caller` has no
    /// balance entry for `token`, else with `InsufficientBalance` where
    /// `caller` holds less than `value`, else with `Overflow` where `to`'s
    /// balance cannot take `value`. A transfer of nothing is carried out like
    /// any other, and a transfer to oneself changes no balance.
    pub fn transfer(
        &mut self,
        caller: AccountId,
        token: TokenId,
        to: AccountId,
        value: TokenBalance,
    ) -> (result: Result<(), Error>)
        ensures
            result == old(self)@.transfer_result(caller, token, to, value),
            final(self)@ == old(self)@.transfer(caller, token, to, value),
            result is Err ==> final(self)@ == old(self)@,
            old(self)@.inv() ==> final(self)@.inv(),
    {
        self.move_balance(token, caller, to, value)
    }

    /// Creates a token and credits `caller` with its whole supply.
    ///
    /// The token gets the counter's value as its id, and the counter moves
    /// on by one. The request is refused with `InvalidInput` where `name` has
    /// more than 64 bytes or `ticker` more than 32, else with `Overflow`
    /// where the counter cannot move on. No event is emitted.
    pub fn init(
        &mut self,
        caller: AccountId,
        name: Vec<u8>,
        ticker: Vec<u8>,
        total_supply: TokenBalance,
    ) -> (result: Result<TokenId, Error>)
        ensures
            result == old(self)@.init_result(name@, ticker@),
            final(self)@ == old(self)@.init(caller, name@, ticker@, total_supply),
            result is Err ==> final(self)@ == old(self)@,
            old(self)@.inv() ==> final(self)@.inv(),
    {
        proof {
            if self@.inv() {
                lemma_init_inv(self@, caller, name@, ticker@, total_supply);
            }
        }
        let ghost before = self@;
        let ghost details = TokenSpec { name: name@, ticker: ticker@, total_supply };
        let token = match Erc20Token::new(name, ticker, total_supply) {
            Ok(token) => token,
            Err(error) => {
                return Err(error);
            },
        };
        let token_id = self.next_token_id;
        let next_token_id = match token_id.checked_add(1) {
            Some(next) => next,
            None => {
                return Err(Error::Overflow);
            },
        };
        self.next_token_id = next_token_id;
        self.tokens.insert(token_id, token);
        self.balances.insert((token_id, caller), total_supply);
        proof {
            assert(self@.tokens =~= before.tokens.insert(token_id, details));
        }
        Ok(token_id)
    }

    /// Raises by `value` what `spender` may move out of `caller`'s balance of
    /// `token`, and emits an `Approval` event that carries `value`.
    ///
    /// Approvals add up: the new allowance is the old one plus `value`. The
    /// request is refused with `NoSuchAccount` where `caller` has no balance
    /// entry for `token`, else with `Overflow` where the allowance cannot
    /// take `value`.
    pub fn approve(
        &mut self,
        caller: AccountId,
        token: TokenId,
        spender: AccountId,
        value: TokenBalance,
    ) -> (result: Result<(), Error>)
        ensures
            result == old(self)@.approve_result(caller, token, spender, value),
            final(self)@ == old(self)@.approve(caller, token, spender, value),
            result is Err ==> final(self)@ == old(self)@,
            old(self)@.inv() ==> final(self)@.inv(),
    {
        proof {
            if self@.inv() {
                lemma_approve_inv(self@, caller, token, spender, value);
            }
        }
        if !self.has_balance_entry((token, caller)) {
            return Err(Error::NoSuchAccount);
        }
        let allowance = self.allowance((token, caller, spender));
        let updated_allowance = match checked_add(allowance, value) {
            Some(allowance) => allowance,
            None => {
                return Err(Error::Overflow);
            },
        };
        self.allowances.insert((token, caller, spender), updated_allowance);
        self.events.push(Event::Approval(token, caller, spender, value));
        Ok(())
    }

    /// Moves `value` of `token` from `from` to `to` on the strength of an
    /// allowance, lowers that allowance by `value`, and emits an `Approval`
    /// event followed by a `Transfer` event.
    ///
    /// The allowance consulted is the one that `from` granted to `to`: the
    /// destination stands in the spender's place, and `caller`, whom the host
    /// has authenticated, decides nothing. The request is refused with
    /// `NoSuchAccount` where that allowance has no entry, else with
    /// `InsufficientAllowance` where it is smaller than `value`, else as a
    /// move of `value` from `from` to `to` would be. A refused request
    /// changes nothing, the allowance included.
    pub fn transfer_from(
        &mut self,
        caller: AccountId,
        token: TokenId,
        from: AccountId,
        to: AccountId,
        value: TokenBalance,
    ) -> (result: Result<(), Error>)
        ensures
            result == old(self)@.transfer_from_result(token, from, to, value),
            final(self)@ == old(self)@.transfer_from(token, from, to, value),
            result is Err ==> final(self)@ == old(self)@,
            old(self)@.inv() ==> final(self)@.inv(),
    {
        proof {
            if self@.inv() {
                lemma_transfer_from_inv(self@, token, from, to, value);
            }
        }
        let _ = caller;
        if !self.has_allowance_entry((token, from, to)) {
            return Err(Error::NoSuchAccount);
        }
        let allowance = self.allowance((token, from, to));
        if allowance < value {
            return Err(Error::InsufficientAllowance);
        }
        let updated_allowance = match checked_sub(allowance, value) {
            Some(allowance) => allowance,
            None => {
                return Err(Error::Overflow);
            },
        };
        match self.checked_move(token, from, to, value) {
            Ok(_) => {},
            Err(error) => {
                return Err(error);
            },
        }
        self.allowances.insert((token, from, to), updated_allowance);
        self.events.push(Event::Approval(token, from, to, value));
        self.move_balance(token, from, to, value)
    }
}

} // verus!
