use crate::types::{AccountId, TokenBalance, TokenId};
use vstd::prelude::*;

verus! {

/// What a successful operation tells the host.
#[derive(Clone, Copy, PartialEq, Eq, Debug, Structural)]
pub enum Event {
    /// `value` of token `0` moved from account `1` to account `2`.
    Transfer(TokenId, AccountId, AccountId, TokenBalance),
    /// The allowance that owner `1` grants spender `2` on token `0` changed by
    /// `value`: raised by an approval, lowered by a delegated transfer.
    Approval(TokenId, AccountId, AccountId, TokenBalance),
}

} // verus!
