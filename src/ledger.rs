use std::collections::HashMap;

use vstd::prelude::*;

use crate::error::SettlementError;
use crate::price::{native_output, quote_unscaled, scaled_output};

verus! {

broadcast use vstd::std_specs::hash::group_hash_axioms;

/// An asset is named by the identifier of the faucet account that issues it.
pub type AssetId = u128;

/// What the pool holds of `asset`: absent entries hold nothing.
pub open spec fn reserve_in(reserves: Map<AssetId, u64>, asset: AssetId) -> nat {
    if reserves.contains_key(asset) {
        reserves[asset] as nat
    } else {
        0
    }
}

/// Reserves after depositing `amount` of `asset`, or the reason it is refused.
pub open spec fn deposit_result(
    reserves: Map<AssetId, u64>,
    allow_zero: bool,
    asset: AssetId,
    amount: u64,
) -> Result<Map<AssetId, u64>, SettlementError> {
    if amount == 0 && !allow_zero {
        Err(SettlementError::InvalidAmount)
    } else if reserve_in(reserves, asset) + amount > u64::MAX {
        Err(SettlementError::ArithmeticOverflow)
    } else {
        Ok(reserves.insert(asset, (reserve_in(reserves, asset) + amount) as u64))
    }
}

/// Reserves after withdrawing `amount` of `asset`, or the reason it is refused.
pub open spec fn withdrawal_result(reserves: Map<AssetId, u64>, asset: AssetId, amount: u64) -> Result<
    Map<AssetId, u64>,
    SettlementError,
> {
    if reserve_in(reserves, asset) < amount {
        Err(SettlementError::InsufficientLiquidity)
    } else {
        Ok(reserves.insert(asset, (reserve_in(reserves, asset) - amount) as u64))
    }
}

/// Reserves after swapping `amount_in` of `asset_in` for `asset_out`, with the amount paid
/// out in native units, or the reason the swap is refused.
pub open spec fn swap_result(
    reserves: Map<AssetId, u64>,
    asset_in: AssetId,
    amount_in: u64,
    asset_out: AssetId,
) -> Result<(Map<AssetId, u64>, u64), SettlementError> {
    let held_in = reserve_in(reserves, asset_in);
    let held_out = reserve_in(reserves, asset_out);
    if amount_in == 0 || asset_in == asset_out {
        Err(SettlementError::InvalidAmount)
    } else if scaled_output(held_out as int, amount_in as int) > u64::MAX {
        Err(SettlementError::ArithmeticOverflow)
    } else if native_output(held_out as int, amount_in as int) > held_out {
        Err(SettlementError::InsufficientLiquidity)
    } else if held_in + amount_in > u64::MAX {
        Err(SettlementError::ArithmeticOverflow)
    } else {
        let out = native_output(held_out as int, amount_in as int);
        Ok(
            (
                reserves.insert(asset_in, (held_in + amount_in) as u64).insert(
                    asset_out,
                    (held_out - out) as u64,
                ),
                out as u64,
            ),
        )
    }
}

/// Depositing `amount` of `asset` and then withdrawing it again leaves every reserve as it
/// was, whenever the deposit itself is accepted.
pub proof fn lemma_deposit_withdrawal_round_trip(
    reserves: Map<AssetId, u64>,
    allow_zero: bool,
    asset: AssetId,
    amount: u64,
)
    requires
        deposit_result(reserves, allow_zero, asset, amount) is Ok,
    ensures
        withdrawal_result(deposit_result(reserves, allow_zero, asset, amount)->Ok_0, asset, amount) is Ok,
        forall|a: AssetId|
            reserve_in(
                withdrawal_result(
                    deposit_result(reserves, allow_zero, asset, amount)->Ok_0,
                    asset,
                    amount,
                )->Ok_0,
                a,
            ) == reserve_in(reserves, a),
{
}

/// A withdrawal never drives a reserve below zero: it fails with `InsufficientLiquidity`
/// exactly when the pool holds less than asked, and otherwise leaves the difference.
pub proof fn lemma_withdrawal_never_underflows(reserves: Map<AssetId, u64>, asset: AssetId, amount: u64)
    ensures
        withdrawal_result(reserves, asset, amount) == Err::<Map<AssetId, u64>, SettlementError>(
            SettlementError::InsufficientLiquidity,
        ) <==> amount > reserve_in(reserves, asset),
        withdrawal_result(reserves, asset, amount) is Ok ==> reserve_in(
            withdrawal_result(reserves, asset, amount)->Ok_0,
            asset,
        ) == reserve_in(reserves, asset) - amount,
{
}

/// A swap never drives a reserve below zero: when the output would exceed what the pool
/// holds it fails with `InsufficientLiquidity`, and a swap that succeeds pays out no more
/// than the output reserve and leaves every other reserve no lower.
pub proof fn lemma_swap_never_underflows(
    reserves: Map<AssetId, u64>,
    asset_in: AssetId,
    amount_in: u64,
    asset_out: AssetId,
)
    ensures
        (amount_in != 0 && asset_in != asset_out && scaled_output(
            reserve_in(reserves, asset_out) as int,
            amount_in as int,
        ) <= u64::MAX && native_output(reserve_in(reserves, asset_out) as int, amount_in as int)
            > reserve_in(reserves, asset_out)) ==> swap_result(
            reserves,
            asset_in,
            amount_in,
            asset_out,
        ) == Err::<(Map<AssetId, u64>, u64), SettlementError>(
            SettlementError::InsufficientLiquidity,
        ),
        swap_result(reserves, asset_in, amount_in, asset_out) is Ok ==> {
            let (m, out) = swap_result(reserves, asset_in, amount_in, asset_out)->Ok_0;
            &&& out <= reserve_in(reserves, asset_out)
            &&& reserve_in(m, asset_out) == reserve_in(reserves, asset_out) - out
            &&& forall|a: AssetId| a != asset_out ==> reserve_in(m, a) >= reserve_in(reserves, a)
        },
{
}

/// The reserve ledger of one pool account: a non-negative reserve per asset.
pub struct Pool {
    reserves: HashMap<AssetId, u64>,
    allow_zero_deposits: bool,
}

impl Pool {
    /// The reserve held of each asset that the pool has seen.
    pub closed spec fn reserves(&self) -> Map<AssetId, u64> {
        self.reserves@
    }

    /// Whether the pool's policy accepts deposits of zero.
    pub closed spec fn allows_zero_deposits(&self) -> bool {
        self.allow_zero_deposits
    }

    /// A freshly deployed pool: every reserve is zero.
    pub fn new(allow_zero_deposits: bool) -> (p: Pool)
        ensures
            p.reserves() == Map::<AssetId, u64>::empty(),
            p.allows_zero_deposits() == allow_zero_deposits,
    {
        Pool { reserves: HashMap::new(), allow_zero_deposits }
    }

    /// The reserve held of `asset`.
    pub fn reserve(&self, asset: AssetId) -> (r: u64)
        ensures
            r == reserve_in(self.reserves(), asset),
    {
        match self.reserves.get(&asset) {
            Some(v) => *v,
            None => 0,
        }
    }

    /// Adds `amount` of `asset` to the pool and returns the new reserve.
    /// Nothing changes when it fails.
    pub fn apply_deposit(&mut self, asset: AssetId, amount: u64) -> (r: Result<u64, SettlementError>)
        ensures
            final(self).allows_zero_deposits() == old(self).allows_zero_deposits(),
            match deposit_result(
                old(self).reserves(),
                old(self).allows_zero_deposits(),
                asset,
                amount,
            ) {
                Ok(m) => r == Ok::<u64, SettlementError>(m[asset]) && final(self).reserves() == m,
                Err(e) => r == Err::<u64, SettlementError>(e) && final(self).reserves() == old(
                    self,
                ).reserves(),
            },
    {
        if amount == 0 && !self.allow_zero_deposits {
            return Err(SettlementError::InvalidAmount);
        }
        let held = self.reserve(asset);
        if held > u64::MAX - amount {
            return Err(SettlementError::ArithmeticOverflow);
        }
        let updated = held + amount;
        self.reserves.insert(asset, updated);
        Ok(updated)
    }

    /// Takes `amount` of `asset` out of the pool and returns the new reserve.
    /// Fails with `InsufficientLiquidity`, changing nothing, when the pool holds less.
    pub fn apply_withdrawal(&mut self, asset: AssetId, amount: u64) -> (r: Result<
        u64,
        SettlementError,
    >)
        ensures
            final(self).allows_zero_deposits() == old(self).allows_zero_deposits(),
            match withdrawal_result(old(self).reserves(), asset, amount) {
                Ok(m) => r == Ok::<u64, SettlementError>(m[asset]) && final(self).reserves() == m,
                Err(e) => r == Err::<u64, SettlementError>(e) && final(self).reserves() == old(
                    self,
                ).reserves(),
            },
    {
        let held = self.reserve(asset);
        if held < amount {
            return Err(SettlementError::InsufficientLiquidity);
        }
        let updated = held - amount;
        self.reserves.insert(asset, updated);
        Ok(updated)
    }

    /// Swaps `amount_in` of `asset_in` for `asset_out` at the native-unit quote, and
    /// returns the amount paid out. Both reserves change together or not at all.
    pub fn apply_swap(&mut self, asset_in: AssetId, amount_in: u64, asset_out: AssetId) -> (r:
        Result<u64, SettlementError>)
        ensures
            final(self).allows_zero_deposits() == old(self).allows_zero_deposits(),
            match swap_result(old(self).reserves(), asset_in, amount_in, asset_out) {
                Ok((m, out)) => r == Ok::<u64, SettlementError>(out) && final(self).reserves() == m,
                Err(e) => r == Err::<u64, SettlementError>(e) && final(self).reserves() == old(
                    self,
                ).reserves(),
            },
    {
        if amount_in == 0 || asset_in == asset_out {
            return Err(SettlementError::InvalidAmount);
        }
        let held_in = self.reserve(asset_in);
        let held_out = self.reserve(asset_out);
        let out = match quote_unscaled(held_in, held_out, amount_in) {
            Ok(v) => v,
            Err(e) => return Err(e),
        };
        if out > held_out {
            return Err(SettlementError::InsufficientLiquidity);
        }
        if held_in > u64::MAX - amount_in {
            return Err(SettlementError::ArithmeticOverflow);
        }
        self.reserves.insert(asset_in, held_in + amount_in);
        self.reserves.insert(asset_out, held_out - out);
        Ok(out)
    }
}

} // verus!
