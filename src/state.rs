use vstd::prelude::*;

use crate::error::TokenError;

verus! {

/// The already-authenticated identity of an account: its 32-byte public key.
#[derive(Clone, Copy, Debug, PartialEq, Eq)]
pub struct Identity {
    pub bytes: [u8; 32],
}

impl View for Identity {
    type V = Seq<u8>;

    open spec fn view(&self) -> Seq<u8> {
        self.bytes@
    }
}

impl Identity {
    /// Whether two identities are the same key, byte for byte.
    pub fn same_as(&self, other: &Identity) -> (r: bool)
        ensures
            r == (self@ == other@),
    {
        let mut i: usize = 0;
        while i < 32
            invariant
                0 <= i <= 32,
                self@.len() == 32,
                other@.len() == 32,
                forall|j: int| 0 <= j < i ==> self@[j] == other@[j],
            decreases 32 - i,
        {
            if self.bytes[i] != other.bytes[i] {
                return false;
            }
            i = i + 1;
        }
        assert(self@ =~= other@);
        true
    }
}

/// What a creator supplies when a token is created. Only the team name and
/// the symbol are kept in the record; the description and the image address
/// belong to a separate metadata store.
#[derive(Clone, Debug, PartialEq, Eq)]
pub struct TokenMetadata {
    pub team_name: String,
    pub symbol: String,
    pub description: String,
    pub image_uri: String,
}

/// The ledger record of one tradable token.
#[derive(Clone, Debug, PartialEq, Eq)]
pub struct TokenAccount {
    pub team_name: String,
    pub symbol: String,
    pub total_supply: u64,
    pub circulating_supply: u64,
    pub creator: Identity,
    pub created_at: i64,
    pub price_in_lamports: u64,
    pub trading_enabled: bool,
    pub trading_volume_24h: u64,
}

/// The mathematical value of a [`TokenAccount`].
pub struct TokenAccountView {
    pub team_name: Seq<char>,
    pub symbol: Seq<char>,
    pub total_supply: u64,
    pub circulating_supply: u64,
    pub creator: Seq<u8>,
    pub created_at: i64,
    pub price_in_lamports: u64,
    pub trading_enabled: bool,
    pub trading_volume_24h: u64,
}

impl View for TokenAccount {
    type V = TokenAccountView;

    open spec fn view(&self) -> TokenAccountView {
        TokenAccountView {
            team_name: self.team_name@,
            symbol: self.symbol@,
            total_supply: self.total_supply,
            circulating_supply: self.circulating_supply,
            creator: self.creator@,
            created_at: self.created_at,
            price_in_lamports: self.price_in_lamports,
            trading_enabled: self.trading_enabled,
            trading_volume_24h: self.trading_volume_24h,
        }
    }
}

/// The price every new token starts at, in lamports.
pub const DEFAULT_PRICE_IN_LAMPORTS: u64 = 1000;

impl TokenAccount {
    /// Bytes that the host reserves for one stored record: discriminator,
    /// creator key, timestamp, the supply counters, price, volume, the
    /// trading flag, and the two length-prefixed names at their maximum.
    pub const SPACE: usize = 8 + 32 + 8 + 8 + 8 + 8 + 8 + 1 + (4 + 50) + (4 + 10);
}

/// The record that a creation with these names, `supply`, `creator` and `now` yields.
pub open spec fn created(
    team_name: Seq<char>,
    symbol: Seq<char>,
    supply: u64,
    creator: Seq<u8>,
    now: i64,
) -> TokenAccountView {
    TokenAccountView {
        team_name: team_name,
        symbol: symbol,
        total_supply: supply,
        circulating_supply: 0,
        creator: creator,
        created_at: now,
        price_in_lamports: DEFAULT_PRICE_IN_LAMPORTS,
        trading_enabled: false,
        trading_volume_24h: 0,
    }
}

/// Enabling trading on `s` by `caller`: allowed to the creator alone.
pub open spec fn enable_step(s: TokenAccountView, caller: Seq<u8>) -> Result<TokenAccountView, TokenError> {
    if caller == s.creator {
        Ok(TokenAccountView { trading_enabled: true, ..s })
    } else {
        Err(TokenError::Unauthorized)
    }
}

/// Buying `amount` on `s`: both the circulating supply and the volume grow by
/// `amount`, and neither may leave the range of `u64`.
pub open spec fn buy_step(s: TokenAccountView, amount: u64) -> Result<TokenAccountView, TokenError> {
    if !s.trading_enabled {
        Err(TokenError::TradingDisabled)
    } else if s.circulating_supply + amount > u64::MAX || s.trading_volume_24h + amount > u64::MAX {
        Err(TokenError::Overflow)
    } else {
        Ok(
            TokenAccountView {
                circulating_supply: (s.circulating_supply + amount) as u64,
                trading_volume_24h: (s.trading_volume_24h + amount) as u64,
                ..s
            },
        )
    }
}

/// Selling `amount` on `s`: the circulating supply shrinks by `amount` and
/// may not go below zero; the volume stays.
pub open spec fn sell_step(s: TokenAccountView, amount: u64) -> Result<TokenAccountView, TokenError> {
    if !s.trading_enabled {
        Err(TokenError::TradingDisabled)
    } else if amount > s.circulating_supply {
        Err(TokenError::Overflow)
    } else {
        Ok(TokenAccountView { circulating_supply: (s.circulating_supply - amount) as u64, ..s })
    }
}

/// The record after a step from `before`: the new record on success, `before`
/// itself on an error.
pub open spec fn resulting(before: TokenAccountView, step: Result<TokenAccountView, TokenError>) -> TokenAccountView {
    match step {
        Ok(s) => s,
        Err(_) => before,
    }
}

/// An operation that returned `r` and turned `before` into `after` did
/// exactly what `step` says: on success the new record, on an error that
/// error with the record untouched.
pub open spec fn performed(
    before: TokenAccountView,
    after: TokenAccountView,
    r: Result<(), TokenError>,
    step: Result<TokenAccountView, TokenError>,
) -> bool {
    &&& after == resulting(before, step)
    &&& match step {
        Ok(_) => r is Ok,
        Err(e) => r == Err::<(), TokenError>(e),
    }
}

} // verus!
