use vstd::prelude::*;

verus! {

/// Identifies a token: ids are handed out in order, starting at zero.
pub type TokenId = u32;

/// Identifies an account. The host authenticates callers and hands their id in.
pub type AccountId = u64;

/// An amount of a token.
pub type TokenBalance = u128;

/// Key of a balance entry: the token and the account that holds it.
pub type BalanceKey = (TokenId, AccountId);

/// Key of an allowance entry: the token, the owner and the spender.
pub type AllowanceKey = (TokenId, AccountId, AccountId);

} // verus!
