use vstd::prelude::*;

use crate::error::TokenError;
use crate::state::{
    buy_step,
    created,
    enable_step,
    performed,
    sell_step,
    Identity,
    TokenAccount,
    TokenMetadata,
    DEFAULT_PRICE_IN_LAMPORTS,
};

verus! {

/// Creates the record of a new token with `supply` as its total supply,
/// `user` as its creator and `now` as its creation time. Nothing is in
/// circulation yet and trading starts disabled.
pub fn initialize_token(metadata: TokenMetadata, supply: u64, user: Identity, now: i64) -> (r:
    TokenAccount)
    ensures
        r@ == created(metadata.team_name@, metadata.symbol@, supply, user@, now),
{
    TokenAccount {
        team_name: metadata.team_name,
        symbol: metadata.symbol,
        total_supply: supply,
        circulating_supply: 0,
        creator: user,
        created_at: now,
        price_in_lamports: DEFAULT_PRICE_IN_LAMPORTS,
        trading_enabled: false,
        trading_volume_24h: 0,
    }
}

/// Opens the token to trading. Only its creator may do so; enabling twice is
/// no error.
pub fn enable_trading(token_account: &mut TokenAccount, creator: &Identity) -> (r: Result<(), TokenError>)
    ensures
        performed(old(token_account)@, final(token_account)@, r, enable_step(old(token_account)@, creator@)),
        r is Ok <==> creator@ == old(token_account).creator@,
        r is Err ==> r == Err::<(), TokenError>(TokenError::Unauthorized)
            && final(token_account).trading_enabled == old(token_account).trading_enabled,
{
    if !token_account.creator.same_as(creator) {
        return Err(TokenError::Unauthorized);
    }
    token_account.trading_enabled = true;
    Ok(())
}

/// Buys `amount` tokens: adds it to the circulating supply and to the
/// trading volume. Anyone may buy once trading is enabled.
pub fn buy_token(token_account: &mut TokenAccount, user: &Identity, amount: u64) -> (r: Result<
    (),
    TokenError,
>)
    ensures
        performed(old(token_account)@, final(token_account)@, r, buy_step(old(token_account)@, amount)),
        !old(token_account).trading_enabled ==> r == Err::<(), TokenError>(TokenError::TradingDisabled)
            && final(token_account)@ == old(token_account)@,
        old(token_account).trading_enabled && old(token_account).circulating_supply + amount > u64::MAX
            ==> r == Err::<(), TokenError>(TokenError::Overflow)
            && final(token_account).circulating_supply == old(token_account).circulating_supply
            && final(token_account).trading_volume_24h == old(token_account).trading_volume_24h,
{
    if !token_account.trading_enabled {
        return Err(TokenError::TradingDisabled);
    }
    let circulating = match token_account.circulating_supply.checked_add(amount) {
        Some(v) => v,
        None => return Err(TokenError::Overflow),
    };
    let volume = match token_account.trading_volume_24h.checked_add(amount) {
        Some(v) => v,
        None => return Err(TokenError::Overflow),
    };
    token_account.circulating_supply = circulating;
    token_account.trading_volume_24h = volume;
    Ok(())
}

/// Sells `amount` tokens: takes it off the circulating supply, which may not
/// go below zero. The trading volume is left as it is.
pub fn sell_token(token_account: &mut TokenAccount, user: &Identity, amount: u64) -> (r: Result<
    (),
    TokenError,
>)
    ensures
        performed(old(token_account)@, final(token_account)@, r, sell_step(old(token_account)@, amount)),
        !old(token_account).trading_enabled ==> r == Err::<(), TokenError>(TokenError::TradingDisabled)
            && final(token_account)@ == old(token_account)@,
        old(token_account).trading_enabled && amount > old(token_account).circulating_supply
            ==> r == Err::<(), TokenError>(TokenError::Overflow)
            && final(token_account).circulating_supply == old(token_account).circulating_supply,
{
    if !token_account.trading_enabled {
        return Err(TokenError::TradingDisabled);
    }
    let circulating = match token_account.circulating_supply.checked_sub(amount) {
        Some(v) => v,
        None => return Err(TokenError::Overflow),
    };
    token_account.circulating_supply = circulating;
    Ok(())
}

} // verus!
