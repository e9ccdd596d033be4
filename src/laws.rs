use vstd::prelude::*;

use crate::state::{buy_step, enable_step, resulting, sell_step, TokenAccountView};

verus! {

/// A buy of `amount` that succeeds, followed by a sell of the same `amount`,
/// succeeds too and brings the circulating supply back to where it was; the
/// rest of the record, but for the volume, is as before the buy.
pub proof fn lemma_buy_then_sell(s: TokenAccountView, amount: u64)
    requires
        buy_step(s, amount) is Ok,
    ensures
        sell_step(buy_step(s, amount)->Ok_0, amount) is Ok,
        ({
            let after = sell_step(buy_step(s, amount)->Ok_0, amount)->Ok_0;
            &&& after.circulating_supply == s.circulating_supply
            &&& after == TokenAccountView { trading_volume_24h: after.trading_volume_24h, ..s }
        }),
{
}

/// Enabling trading twice by the same caller leaves the record as enabling
/// it once does, whether the first attempt succeeded or not.
pub proof fn lemma_enable_idempotent(s: TokenAccountView, caller: Seq<u8>)
    ensures
        ({
            let once = resulting(s, enable_step(s, caller));
            resulting(once, enable_step(once, caller)) == once
        }),
        enable_step(s, caller) is Ok ==> enable_step(enable_step(s, caller)->Ok_0, caller) == enable_step(
            s,
            caller,
        ),
{
}

/// Whether `after` keeps what no operation may change in `before`: the names,
/// the total supply, the creator, the creation time and the price; and keeps
/// trading enabled once it was.
pub open spec fn keeps_fixed_fields(before: TokenAccountView, after: TokenAccountView) -> bool {
    &&& after.team_name == before.team_name
    &&& after.symbol == before.symbol
    &&& after.total_supply == before.total_supply
    &&& after.creator == before.creator
    &&& after.created_at == before.created_at
    &&& after.price_in_lamports == before.price_in_lamports
    &&& before.trading_enabled ==> after.trading_enabled
}

/// Whatever the caller and the amount, enabling, buying and selling never
/// change the fixed fields of a record, and never disable trading.
pub proof fn lemma_steps_keep_fixed_fields(s: TokenAccountView, caller: Seq<u8>, amount: u64)
    ensures
        keeps_fixed_fields(s, resulting(s, enable_step(s, caller))),
        keeps_fixed_fields(s, resulting(s, buy_step(s, amount))),
        keeps_fixed_fields(s, resulting(s, sell_step(s, amount))),
{
}

} // verus!
