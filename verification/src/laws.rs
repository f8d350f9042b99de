//! Laws of the ledger, proved of every state and every argument.

use crate::error::Error;
use crate::event::Event;
use crate::model::{Call, LedgerState};
use crate::supply::{
    lemma_balance_le_circulating, lemma_circulating_insert, lemma_circulating_none,
    lemma_pair_le_circulating,
};
use crate::types::{AccountId, AllowanceKey, BalanceKey, TokenBalance, TokenId};
use vstd::prelude::*;

verus! {

/// A fresh ledger satisfies the invariant.
pub proof fn lemma_empty_inv()
    ensures
        LedgerState::empty().inv(),
{
    let s = LedgerState::empty();
    assert(s.tokens.dom() =~= Set::<TokenId>::empty());
    assert(s.balances.dom() =~= Set::<BalanceKey>::empty());
    assert(s.allowances.dom() =~= Set::<AllowanceKey>::empty());
}

/// Conservation under a move: whether the move is carried out or refused,
/// every token has as much in circulation afterwards as before.
pub proof fn lemma_move_balance_conserves(
    s: LedgerState,
    token: TokenId,
    from: AccountId,
    to: AccountId,
    value: TokenBalance,
    other: TokenId,
)
    requires
        s.balances.dom().finite(),
    ensures
        s.move_balance(token, from, to, value).circulating(other) == s.circulating(other),
{
    if s.move_balance_result(token, from, to, value) is Ok && from != to {
        let debited = s.balances.insert(
            (token, from),
            (s.balance_of(token, from) - value) as TokenBalance,
        );
        lemma_circulating_insert(
            s.balances,
            token,
            from,
            (s.balance_of(token, from) - value) as TokenBalance,
            other,
        );
        lemma_circulating_insert(
            debited,
            token,
            to,
            (s.balance_of(token, to) + value) as TokenBalance,
            other,
        );
    }
}

/// A move keeps the invariant.
pub proof fn lemma_move_balance_inv(
    s: LedgerState,
    token: TokenId,
    from: AccountId,
    to: AccountId,
    value: TokenBalance,
)
    requires
        s.inv(),
    ensures
        s.move_balance(token, from, to, value).inv(),
{
    let after = s.move_balance(token, from, to, value);
    assert forall|t: TokenId| #[trigger] after.tokens.contains_key(t) implies after.circulating(t)
        == after.tokens[t].total_supply by {
        lemma_move_balance_conserves(s, token, from, to, value, t);
    }
}

/// Creating a token keeps the invariant.
pub proof fn lemma_init_inv(
    s: LedgerState,
    caller: AccountId,
    name: Seq<u8>,
    ticker: Seq<u8>,
    total_supply: TokenBalance,
)
    requires
        s.inv(),
    ensures
        s.init(caller, name, ticker, total_supply).inv(),
{
    let after = s.init(caller, name, ticker, total_supply);
    if s.init_result(name, ticker) is Ok {
        let id = s.next_token_id;
        assert forall|t: TokenId| #[trigger] after.tokens.contains_key(t) implies after.circulating(
            t,
        ) == after.tokens[t].total_supply by {
            lemma_circulating_insert(s.balances, id, caller, total_supply, t);
            if t == id {
                lemma_circulating_none(s.balances, id);
            }
        }
    }
}

/// Raising an allowance keeps the invariant.
pub proof fn lemma_approve_inv(
    s: LedgerState,
    caller: AccountId,
    token: TokenId,
    spender: AccountId,
    value: TokenBalance,
)
    requires
        s.inv(),
    ensures
        s.approve(caller, token, spender, value).inv(),
{
}

/// A delegated move keeps the invariant.
pub proof fn lemma_transfer_from_inv(
    s: LedgerState,
    token: TokenId,
    from: AccountId,
    to: AccountId,
    value: TokenBalance,
)
    requires
        s.inv(),
    ensures
        s.transfer_from(token, from, to, value).inv(),
{
    if s.transfer_from_result(token, from, to, value) is Ok {
        let spent = LedgerState {
            allowances: s.allowances.insert(
                (token, from, to),
                (s.allowance(token, from, to) - value) as TokenBalance,
            ),
            events: s.events.push(Event::Approval(token, from, to, value)),
            ..s
        };
        assert(spent.inv());
        lemma_move_balance_inv(spent, token, from, to, value);
    }
}

/// Every request keeps the invariant, whether it is carried out or refused.
pub proof fn lemma_step_inv(s: LedgerState, call: Call)
    requires
        s.inv(),
    ensures
        s.step(call).inv(),
{
    match call {
        Call::Init { caller, name, ticker, total_supply } => {
            lemma_init_inv(s, caller, name, ticker, total_supply);
        },
        Call::Transfer { caller, token, to, value } => {
            lemma_move_balance_inv(s, token, caller, to, value);
        },
        Call::Approve { caller, token, spender, value } => {
            lemma_approve_inv(s, caller, token, spender, value);
        },
        Call::TransferFrom { caller, token, from, to, value } => {
            lemma_transfer_from_inv(s, token, from, to, value);
        },
    }
}

/// The invariant holds in every state that a sequence of requests leads to.
pub proof fn lemma_run_inv(s: LedgerState, calls: Seq<Call>)
    requires
        s.inv(),
    ensures
        s.run(calls).inv(),
    decreases calls.len(),
{
    if calls.len() > 0 {
        lemma_run_inv(s, calls.drop_last());
        lemma_step_inv(s.run(calls.drop_last()), calls.last());
    }
}

/// Issuance: a token that was just created has exactly its total supply in
/// circulation, all of it with the caller, and the circulation of every other
/// token is what it was.
pub proof fn lemma_init_issues_supply(
    s: LedgerState,
    caller: AccountId,
    name: Seq<u8>,
    ticker: Seq<u8>,
    total_supply: TokenBalance,
    other: TokenId,
)
    requires
        s.inv(),
        s.init_result(name, ticker) is Ok,
    ensures
        s.init(caller, name, ticker, total_supply).circulating(s.next_token_id) == total_supply,
        s.init(caller, name, ticker, total_supply).balance_of(s.next_token_id, caller)
            == total_supply,
        other != s.next_token_id ==> s.init(caller, name, ticker, total_supply).circulating(other)
            == s.circulating(other),
{
    lemma_circulating_insert(s.balances, s.next_token_id, caller, total_supply, other);
    lemma_circulating_insert(s.balances, s.next_token_id, caller, total_supply, s.next_token_id);
    lemma_circulating_none(s.balances, s.next_token_id);
}

/// Conservation under a transfer: every token has as much in circulation
/// after the request as before.
pub proof fn lemma_transfer_conserves(
    s: LedgerState,
    caller: AccountId,
    token: TokenId,
    to: AccountId,
    value: TokenBalance,
    other: TokenId,
)
    requires
        s.balances.dom().finite(),
    ensures
        s.transfer(caller, token, to, value).circulating(other) == s.circulating(other),
{
    lemma_move_balance_conserves(s, token, caller, to, value, other);
}

/// Conservation under a delegated transfer: every token has as much in
/// circulation after the request as before.
pub proof fn lemma_transfer_from_conserves(
    s: LedgerState,
    token: TokenId,
    from: AccountId,
    to: AccountId,
    value: TokenBalance,
    other: TokenId,
)
    requires
        s.balances.dom().finite(),
    ensures
        s.transfer_from(token, from, to, value).circulating(other) == s.circulating(other),
{
    if s.transfer_from_result(token, from, to, value) is Ok {
        let spent = LedgerState {
            allowances: s.allowances.insert(
                (token, from, to),
                (s.allowance(token, from, to) - value) as TokenBalance,
            ),
            events: s.events.push(Event::Approval(token, from, to, value)),
            ..s
        };
        lemma_move_balance_conserves(spent, token, from, to, value, other);
    }
}

/// Conservation over time: once a token is created, its details never change
/// and exactly its total supply stays in circulation, whatever requests
/// follow.
pub proof fn lemma_run_conserves(s: LedgerState, calls: Seq<Call>, token: TokenId)
    requires
        s.inv(),
        s.tokens.contains_key(token),
    ensures
        s.run(calls).tokens.contains_key(token),
        s.run(calls).tokens[token] == s.tokens[token],
        s.run(calls).circulating(token) == s.tokens[token].total_supply,
    decreases calls.len(),
{
    if calls.len() > 0 {
        let before = s.run(calls.drop_last());
        lemma_run_conserves(s, calls.drop_last(), token);
        lemma_run_inv(s, calls.drop_last());
        lemma_step_inv(before, calls.last());
        assert(before.step(calls.last()).tokens.contains_key(token));
    }
}

/// No account holds more of a token than was issued, and no account holds
/// anything of a token that was never created.
pub proof fn lemma_balance_within_supply(s: LedgerState, token: TokenId, account: AccountId)
    requires
        s.inv(),
    ensures
        s.tokens.contains_key(token) ==> s.balance_of(token, account)
            <= s.tokens[token].total_supply,
        !s.tokens.contains_key(token) ==> s.balance_of(token, account) == 0,
{
    lemma_balance_le_circulating(s.balances, token, account);
}

/// A transfer between two accounts is never refused for overflow: what the
/// receiver holds and what the sender can send are parts of one supply.
pub proof fn lemma_transfer_never_overflows(
    s: LedgerState,
    caller: AccountId,
    token: TokenId,
    to: AccountId,
    value: TokenBalance,
)
    requires
        s.inv(),
        caller != to,
    ensures
        s.transfer_result(caller, token, to, value) != Err::<(), Error>(Error::Overflow),
{
    if s.has_balance_entry(token, caller) && s.balance_of(token, caller) >= value {
        assert(s.tokens.contains_key(token));
        lemma_pair_le_circulating(s.balances, token, caller, to);
    }
}

/// A transfer of more than the sender holds is refused and changes nothing:
/// with `InsufficientBalance` where the sender has a balance entry, with
/// `NoSuchAccount` where it has none.
pub proof fn lemma_overdraw_rejected(
    s: LedgerState,
    caller: AccountId,
    token: TokenId,
    to: AccountId,
    value: TokenBalance,
)
    requires
        value > s.balance_of(token, caller),
    ensures
        s.has_balance_entry(token, caller) ==> s.transfer_result(caller, token, to, value) == Err::<
            (),
            Error,
        >(Error::InsufficientBalance),
        !s.has_balance_entry(token, caller) ==> s.transfer_result(caller, token, to, value)
            == Err::<(), Error>(Error::NoSuchAccount),
        s.transfer(caller, token, to, value) == s,
{
}

/// A transfer of nothing is carried out for every sender that has a balance
/// entry, and every account holds afterwards what it held before.
pub proof fn lemma_zero_transfer(
    s: LedgerState,
    caller: AccountId,
    token: TokenId,
    to: AccountId,
    of: TokenId,
    account: AccountId,
)
    requires
        s.has_balance_entry(token, caller),
    ensures
        s.transfer_result(caller, token, to, 0) is Ok,
        s.transfer(caller, token, to, 0).balance_of(of, account) == s.balance_of(of, account),
{
}

/// Nothing is ever deleted: a token, a balance entry or an allowance entry
/// that exists before a request exists after it.
pub proof fn lemma_step_keeps_entries(
    s: LedgerState,
    call: Call,
    token: TokenId,
    owner: AccountId,
    spender: AccountId,
)
    ensures
        s.tokens.contains_key(token) ==> s.step(call).tokens.contains_key(token),
        s.has_balance_entry(token, owner) ==> s.step(call).has_balance_entry(token, owner),
        s.has_allowance_entry(token, owner, spender) ==> s.step(call).has_allowance_entry(
            token,
            owner,
            spender,
        ),
{
}

/// A transfer to oneself changes no balance, whatever the amount, and a
/// transfer of nothing to oneself is carried out for every account that has
/// a balance entry.
pub proof fn lemma_self_transfer(
    s: LedgerState,
    caller: AccountId,
    token: TokenId,
    value: TokenBalance,
)
    ensures
        s.transfer(caller, token, caller, value).balances == s.balances,
        s.has_balance_entry(token, caller) ==> s.transfer_result(caller, token, caller, 0) is Ok,
{
}

/// Approvals add up: after two approvals of the same spender that were both
/// carried out, the allowance is what it was plus both amounts, as after one
/// approval of their sum.
pub proof fn lemma_approve_additive(
    s: LedgerState,
    caller: AccountId,
    token: TokenId,
    spender: AccountId,
    first: TokenBalance,
    second: TokenBalance,
)
    requires
        s.approve_result(caller, token, spender, first) is Ok,
        s.approve(caller, token, spender, first).approve_result(caller, token, spender, second)
            is Ok,
    ensures
        s.approve(caller, token, spender, first).approve(
            caller,
            token,
            spender,
            second,
        ).allowance(token, caller, spender) == s.allowance(token, caller, spender) + first
            + second,
        s.approve(caller, token, spender, first).approve(
            caller,
            token,
            spender,
            second,
        ).allowances == s.approve(
            caller,
            token,
            spender,
            (first + second) as TokenBalance,
        ).allowances,
{
    let once = s.approve(caller, token, spender, first);
    let twice = once.approve(caller, token, spender, second);
    let sum = s.approve(caller, token, spender, (first + second) as TokenBalance);
    assert(twice.allowances =~= sum.allowances);
}

/// A token that was never created cannot be used: every transfer, approval
/// and delegated transfer that names it is refused with `NoSuchAccount` and
/// changes nothing.
pub proof fn lemma_unknown_token_rejected(
    s: LedgerState,
    token: TokenId,
    caller: AccountId,
    from: AccountId,
    to: AccountId,
    value: TokenBalance,
)
    requires
        s.inv(),
        !s.tokens.contains_key(token),
    ensures
        s.transfer_result(caller, token, to, value) == Err::<(), Error>(Error::NoSuchAccount),
        s.transfer(caller, token, to, value) == s,
        s.approve_result(caller, token, to, value) == Err::<(), Error>(Error::NoSuchAccount),
        s.approve(caller, token, to, value) == s,
        s.transfer_from_result(token, from, to, value) == Err::<(), Error>(Error::NoSuchAccount),
        s.transfer_from(token, from, to, value) == s,
{
    assert(!s.balances.contains_key((token, caller)));
    if s.allowances.contains_key((token, from, to)) {
        assert(s.balances.contains_key((token, from)));
    }
}

} // verus!
