//! The record that the registry keeps of a token.

use crate::error::Error;
use vstd::prelude::*;

verus! {

/// The longest name a token may carry, in bytes.
pub const MAX_NAME_LEN: usize = 64;

/// The longest ticker a token may carry, in bytes.
pub const MAX_TICKER_LEN: usize = 32;

/// What a token record holds, as mathematical values.
pub struct TokenSpec<U> {
    pub name: Seq<u8>,
    pub ticker: Seq<u8>,
    pub total_supply: U,
}

impl<U> TokenSpec<U> {
    /// Whether name and ticker are no longer than a token may carry.
    pub open spec fn within_limits(self) -> bool {
        self.name.len() <= MAX_NAME_LEN && self.ticker.len() <= MAX_TICKER_LEN
    }
}

/// The details of a token: its name, its ticker and the amount issued.
/// They are fixed when the token is created, and name and ticker are always
/// within their limits.
#[derive(PartialEq, Debug, Default)]
pub struct Erc20Token<U> {
    name: Vec<u8>,
    ticker: Vec<u8>,
    total_supply: U,
}

impl<U> View for Erc20Token<U> {
    type V = TokenSpec<U>;

    closed spec fn view(&self) -> TokenSpec<U> {
        TokenSpec { name: self.name@, ticker: self.ticker@, total_supply: self.total_supply }
    }
}

impl<U: Clone> Clone for Erc20Token<U> {
    fn clone(&self) -> (token: Self)
        ensures
            token@.name == self@.name,
            token@.ticker == self@.ticker,
            cloned(self@.total_supply, token@.total_supply),
    {
        proof {
            use_type_invariant(self);
        }
        let name = self.name.clone();
        let ticker = self.ticker.clone();
        proof {
            assert(name@ =~= self.name@);
            assert(ticker@ =~= self.ticker@);
        }
        Erc20Token { name, ticker, total_supply: self.total_supply.clone() }
    }
}

impl<U> Erc20Token<U> {
    #[verifier::type_invariant]
    spec fn limits_hold(&self) -> bool {
        self@.within_limits()
    }

    /// A record with the given name, ticker and total supply, or
    /// `InvalidInput` where the name has more than 64 bytes or the ticker more
    /// than 32.
    pub fn new(name: Vec<u8>, ticker: Vec<u8>, total_supply: U) -> (result: Result<Self, Error>)
        ensures
            match result {
                Ok(token) => {
                    &&& token@ == (TokenSpec { name: name@, ticker: ticker@, total_supply })
                    &&& token@.within_limits()
                },
                Err(error) => {
                    &&& error == Error::InvalidInput
                    &&& name@.len() > MAX_NAME_LEN || ticker@.len() > MAX_TICKER_LEN
                },
            },
    {
        if name.len() > MAX_NAME_LEN || ticker.len() > MAX_TICKER_LEN {
            return Err(Error::InvalidInput);
        }
        Ok(Erc20Token { name, ticker, total_supply })
    }

    /// The token's name: at most 64 bytes.
    pub fn name(&self) -> (name: &Vec<u8>)
        ensures
            name@ == self@.name,
            self@.within_limits(),
    {
        proof {
            use_type_invariant(self);
        }
        &self.name
    }

    /// The token's ticker: at most 32 bytes.
    pub fn ticker(&self) -> (ticker: &Vec<u8>)
        ensures
            ticker@ == self@.ticker,
            self@.within_limits(),
    {
        proof {
            use_type_invariant(self);
        }
        &self.ticker
    }

    /// The amount of the token that was issued.
    pub fn total_supply(&self) -> (supply: &U)
        ensures
            *supply == self@.total_supply,
    {
        &self.total_supply
    }
}

} // verus!
