//! The ledger as a mathematical state machine.
//!
//! A [`LedgerState`] holds the four stores of a ledger and the events it has
//! emitted. For each operation one function gives the result and another
//! the state that follows; the executable ledger is proved to agree
//! with both.

use crate::error::Error;
use crate::event::Event;
use crate::supply::{circulating, value_or_zero};
use crate::token::{TokenSpec, MAX_NAME_LEN, MAX_TICKER_LEN};
use crate::types::{AccountId, AllowanceKey, BalanceKey, TokenBalance, TokenId};
use vstd::prelude::*;

verus! {

/// The state of a ledger.
pub struct LedgerState {
    /// The id that the next token will get.
    pub next_token_id: TokenId,
    /// The registered tokens.
    pub tokens: Map<TokenId, TokenSpec<TokenBalance>>,
    /// The balance entries. An account without an entry holds nothing.
    pub balances: Map<BalanceKey, TokenBalance>,
    /// The allowance entries. A spender without an entry may move nothing.
    pub allowances: Map<AllowanceKey, TokenBalance>,
    /// The events emitted so far and not yet collected, oldest first.
    pub events: Seq<Event>,
}

/// A request to the ledger, with the caller that the host authenticated.
pub enum Call {
    /// Create a token and credit `caller` with `total_supply`.
    Init { caller: AccountId, name: Seq<u8>, ticker: Seq<u8>, total_supply: TokenBalance },
    /// Send `value` of `token` from `caller` to `to`.
    Transfer { caller: AccountId, token: TokenId, to: AccountId, value: TokenBalance },
    /// Raise by `value` what `spender` may move out of `caller`'s balance.
    Approve { caller: AccountId, token: TokenId, spender: AccountId, value: TokenBalance },
    /// Move `value` of `token` from `from` to `to` on the strength of an
    /// allowance.
    TransferFrom {
        caller: AccountId,
        token: TokenId,
        from: AccountId,
        to: AccountId,
        value: TokenBalance,
    },
}

impl LedgerState {
    /// The state of a fresh ledger: no token, no entry, no event.
    pub open spec fn empty() -> LedgerState {
        LedgerState {
            next_token_id: 0,
            tokens: Map::empty(),
            balances: Map::empty(),
            allowances: Map::empty(),
            events: Seq::empty(),
        }
    }

    /// Whether `account` has a balance entry for `token`, be it zero.
    pub open spec fn has_balance_entry(self, token: TokenId, account: AccountId) -> bool {
        self.balances.contains_key((token, account))
    }

    /// What `account` holds of `token`: zero without an entry.
    pub open spec fn balance_of(self, token: TokenId, account: AccountId) -> TokenBalance {
        value_or_zero(self.balances, (token, account))
    }

    /// Whether `owner` has an allowance entry for `spender` on `token`.
    pub open spec fn has_allowance_entry(
        self,
        token: TokenId,
        owner: AccountId,
        spender: AccountId,
    ) -> bool {
        self.allowances.contains_key((token, owner, spender))
    }

    /// What `spender` may move out of `owner`'s balance of `token`: zero
    /// without an entry.
    pub open spec fn allowance(
        self,
        token: TokenId,
        owner: AccountId,
        spender: AccountId,
    ) -> TokenBalance {
        value_or_zero(self.allowances, (token, owner, spender))
    }

    /// The amount of `token` that all accounts hold together.
    pub open spec fn circulating(self, token: TokenId) -> nat {
        circulating(self.balances, token)
    }

    /// What holds of every state that a ledger reaches.
    ///
    /// Token ids are dense: exactly the ids below the counter are registered.
    /// Entries exist for registered tokens only, and an owner who granted an
    /// allowance has a balance entry. Names and tickers are within their
    /// limits. Of every registered token exactly the total supply is in
    /// circulation.
    pub open spec fn inv(self) -> bool {
        &&& self.tokens.dom().finite()
        &&& self.balances.dom().finite()
        &&& self.allowances.dom().finite()
        &&& forall|t: TokenId| #[trigger] self.tokens.contains_key(t) <==> t < self.next_token_id
        &&& forall|t: TokenId, a: AccountId| #[trigger]
            self.balances.contains_key((t, a)) ==> t < self.next_token_id
        &&& forall|t: TokenId, o: AccountId, s: AccountId| #[trigger]
            self.allowances.contains_key((t, o, s)) ==> self.balances.contains_key((t, o))
        &&& forall|t: TokenId| #[trigger]
            self.tokens.contains_key(t) ==> {
                &&& self.tokens[t].within_limits()
                &&& self.circulating(t) == self.tokens[t].total_supply
            }
    }

    /// The result of creating a token: its id, or why it is refused.
    pub open spec fn init_result(self, name: Seq<u8>, ticker: Seq<u8>) -> Result<TokenId, Error> {
        if name.len() > MAX_NAME_LEN || ticker.len() > MAX_TICKER_LEN {
            Err(Error::InvalidInput)
        } else if self.next_token_id == TokenId::MAX {
            Err(Error::Overflow)
        } else {
            Ok(self.next_token_id)
        }
    }

    /// The state after `caller` asked for a token to be created. The new token
    /// gets the counter's value as its id, and `caller` is credited with the
    /// whole supply.
    pub open spec fn init(
        self,
        caller: AccountId,
        name: Seq<u8>,
        ticker: Seq<u8>,
        total_supply: TokenBalance,
    ) -> LedgerState {
        if self.init_result(name, ticker) is Ok {
            LedgerState {
                next_token_id: (self.next_token_id + 1) as TokenId,
                tokens: self.tokens.insert(
                    self.next_token_id,
                    TokenSpec { name, ticker, total_supply },
                ),
                balances: self.balances.insert((self.next_token_id, caller), total_supply),
                ..self
            }
        } else {
            self
        }
    }

    /// The result of moving `value` of `token` from `from` to `to`.
    pub open spec fn move_balance_result(
        self,
        token: TokenId,
        from: AccountId,
        to: AccountId,
        value: TokenBalance,
    ) -> Result<(), Error> {
        if !self.has_balance_entry(token, from) {
            Err(Error::NoSuchAccount)
        } else if self.balance_of(token, from) < value {
            Err(Error::InsufficientBalance)
        } else if self.balance_of(token, to) + value > TokenBalance::MAX {
            Err(Error::Overflow)
        } else {
            Ok(())
        }
    }

    /// The state after a request to move `value` of `token` from `from` to
    /// `to`. A move from an account to itself changes no balance.
    pub open spec fn move_balance(
        self,
        token: TokenId,
        from: AccountId,
        to: AccountId,
        value: TokenBalance,
    ) -> LedgerState {
        if self.move_balance_result(token, from, to, value) is Ok {
            LedgerState {
                balances: if from == to {
                    self.balances
                } else {
                    self.balances.insert(
                        (token, from),
                        (self.balance_of(token, from) - value) as TokenBalance,
                    ).insert((token, to), (self.balance_of(token, to) + value) as TokenBalance)
                },
                events: self.events.push(Event::Transfer(token, from, to, value)),
                ..self
            }
        } else {
            self
        }
    }

    /// The result of `caller` sending `value` of `token` to `to`.
    pub open spec fn transfer_result(
        self,
        caller: AccountId,
        token: TokenId,
        to: AccountId,
        value: TokenBalance,
    ) -> Result<(), Error> {
        self.move_balance_result(token, caller, to, value)
    }

    /// The state after `caller` asked to send `value` of `token` to `to`.
    pub open spec fn transfer(
        self,
        caller: AccountId,
        token: TokenId,
        to: AccountId,
        value: TokenBalance,
    ) -> LedgerState {
        self.move_balance(token, caller, to, value)
    }

    /// The result of `caller` raising `spender`'s allowance on `token` by
    /// `value`.
    pub open spec fn approve_result(
        self,
        caller: AccountId,
        token: TokenId,
        spender: AccountId,
        value: TokenBalance,
    ) -> Result<(), Error> {
        if !self.has_balance_entry(token, caller) {
            Err(Error::NoSuchAccount)
        } else if self.allowance(token, caller, spender) + value > TokenBalance::MAX {
            Err(Error::Overflow)
        } else {
            Ok(())
        }
    }

    /// The state after `caller` asked to raise `spender`'s allowance on
    /// `token` by `value`. The event carries the increase, not the new total.
    pub open spec fn approve(
        self,
        caller: AccountId,
        token: TokenId,
        spender: AccountId,
        value: TokenBalance,
    ) -> LedgerState {
        if self.approve_result(caller, token, spender, value) is Ok {
            LedgerState {
                allowances: self.allowances.insert(
                    (token, caller, spender),
                    (self.allowance(token, caller, spender) + value) as TokenBalance,
                ),
                events: self.events.push(Event::Approval(token, caller, spender, value)),
                ..self
            }
        } else {
            self
        }
    }

    /// The result of a delegated move of `value` of `token` from `from` to
    /// `to`. The allowance that is consulted is the one `from` granted to
    /// `to`: the destination stands in the spender's place.
    pub open spec fn transfer_from_result(
        self,
        token: TokenId,
        from: AccountId,
        to: AccountId,
        value: TokenBalance,
    ) -> Result<(), Error> {
        if !self.has_allowance_entry(token, from, to) {
            Err(Error::NoSuchAccount)
        } else if self.allowance(token, from, to) < value {
            Err(Error::InsufficientAllowance)
        } else {
            self.move_balance_result(token, from, to, value)
        }
    }

    /// The state after a request for a delegated move: the allowance is
    /// lowered by `value` and announced, then the balance is moved. Where
    /// either step is refused, nothing changes.
    pub open spec fn transfer_from(
        self,
        token: TokenId,
        from: AccountId,
        to: AccountId,
        value: TokenBalance,
    ) -> LedgerState {
        if self.transfer_from_result(token, from, to, value) is Ok {
            (LedgerState {
                allowances: self.allowances.insert(
                    (token, from, to),
                    (self.allowance(token, from, to) - value) as TokenBalance,
                ),
                events: self.events.push(Event::Approval(token, from, to, value)),
                ..self
            }).move_balance(token, from, to, value)
        } else {
            self
        }
    }

    /// The state after one request, carried out or refused.
    pub open spec fn step(self, call: Call) -> LedgerState {
        match call {
            Call::Init { caller, name, ticker, total_supply } => self.init(
                caller,
                name,
                ticker,
                total_supply,
            ),
            Call::Transfer { caller, token, to, value } => self.transfer(caller, token, to, value),
            Call::Approve { caller, token, spender, value } => self.approve(
                caller,
                token,
                spender,
                value,
            ),
            Call::TransferFrom { caller, token, from, to, value } => self.transfer_from(
                token,
                from,
                to,
                value,
            ),
        }
    }

    /// The state after a sequence of requests, taken in order.
    pub open spec fn run(self, calls: Seq<Call>) -> LedgerState
        decreases calls.len(),
    {
        if calls.len() == 0 {
            self
        } else {
            self.run(calls.drop_last()).step(calls.last())
        }
    }

    /// The state after the host collected the events.
    pub open spec fn without_events(self) -> LedgerState {
        LedgerState { events: Seq::empty(), ..self }
    }
}

} // verus!
