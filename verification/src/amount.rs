use vstd::prelude::*;

verus! {

/// Millisatoshis in one satoshi.
pub const MSATS_IN_SAT: u64 = 1000;

/// The unit of an ecash amount.
#[derive(Clone, Copy, Debug, PartialEq, Eq, Structural)]
pub enum CurrencyUnit {
    Sat,
    Msat,
    /// Any unit that the server does not settle over Lightning.
    Other,
}

/// Whether amounts of a unit can be settled over Lightning.
pub open spec fn settles(unit: CurrencyUnit) -> bool {
    unit is Sat || unit is Msat
}

/// `amount` scaled to `unit`: whole thousands of it for satoshis, the amount itself for
/// millisatoshis, and nothing for a unit that is not settled.
pub open spec fn scaled(unit: CurrencyUnit, amount: u64) -> Option<u64> {
    match unit {
        CurrencyUnit::Sat => Some(amount / MSATS_IN_SAT),
        CurrencyUnit::Msat => Some(amount),
        CurrencyUnit::Other => None,
    }
}

/// Scales an amount to a unit.
pub fn scale(unit: CurrencyUnit, amount: u64) -> (r: Option<u64>)
    ensures
        r == scaled(unit, amount),
        match unit {
            CurrencyUnit::Sat => r matches Some(n) && n * 1000 <= amount < n * 1000 + 1000,
            CurrencyUnit::Msat => r == Some(amount),
            CurrencyUnit::Other => r is None,
        },
{
    match unit {
        CurrencyUnit::Sat => Some(amount / MSATS_IN_SAT),
        CurrencyUnit::Msat => Some(amount),
        CurrencyUnit::Other => None,
    }
}

/// Scaling succeeds for exactly the units that are settled: satoshis and millisatoshis.
pub proof fn law_scaled_iff_settled(unit: CurrencyUnit, amount: u64)
    ensures
        scaled(unit, amount) is Some <==> settles(unit),
        settles(unit) <==> unit == CurrencyUnit::Sat || unit == CurrencyUnit::Msat,
{
}

/// A number of millisatoshis scaled to satoshis falls short of it by less than one satoshi, and
/// scaled to millisatoshis not at all.
pub proof fn law_scaling_rounds_down(msats: u64)
    ensures
        scaled(CurrencyUnit::Sat, msats)->0 * 1000 <= msats,
        msats - scaled(CurrencyUnit::Sat, msats)->0 * 1000 < 1000,
        scaled(CurrencyUnit::Msat, msats)->0 == msats,
{
}

/// Scaling to a unit keeps the order of amounts.
pub proof fn law_scaling_is_monotonic(unit: CurrencyUnit, less: u64, more: u64)
    requires
        settles(unit),
        less <= more,
    ensures
        scaled(unit, less)->0 <= scaled(unit, more)->0,
{
}

} // verus!
