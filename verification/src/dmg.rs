//! The resistance-based damage-reduction curve: one mitigation formula,
//! applied once per rotation entry for both physical and magic damage.
//!
//! Damage and resistance values are in milli-units (thousandths of a point).

use vstd::prelude::*;

verus! {

/// Largest raw damage the mitigation accepts, in milli-units.
/// Keeps the computation inside `u64`.
pub const DAMAGE_MAX: u64 = 100_000_000_000_000;

/// Largest resistance the mitigation accepts, in milli-units.
pub const RESIST_MAX: u64 = 10_000_000_000_000_000;

/// A target's two resistance stat lines, in milli-units.
#[derive(Clone, Copy, PartialEq, Eq, Structural, Debug)]
pub struct Resistance {
    pub armor: u64,
    pub magic_resist: u64,
}

impl Resistance {
    pub fn new(armor: u64, magic_resist: u64) -> (r: Resistance)
        ensures
            r.armor == armor,
            r.magic_resist == magic_resist,
    {
        Resistance { armor, magic_resist }
    }
}

/// `raw / (1 + resistance/100)` over milli-unit fixed-point values,
/// truncated to milli precision: a resistance of 100 points halves the
/// damage, a resistance of 0 leaves it unchanged.
pub open spec fn mitigate_spec(raw_damage: int, resistance: int) -> int {
    (raw_damage * 100_000) / (100_000 + resistance)
}

/// Applies the damage-reduction curve to one raw damage value.
pub fn calculate_mitigation(raw_damage: u64, resistance: u64) -> (mitigated: u64)
    requires
        raw_damage <= DAMAGE_MAX,
        resistance <= RESIST_MAX,
    ensures
        mitigated == mitigate_spec(raw_damage as int, resistance as int),
        mitigated <= raw_damage,
{
    proof {
        assert(raw_damage * 100_000 <= 10_000_000_000_000_000_000) by (nonlinear_arith)
            requires
                raw_damage <= 100_000_000_000_000,
        ;
        assert((raw_damage * 100_000) / (100_000 + resistance) <= raw_damage)
            by (nonlinear_arith)
            requires
                resistance >= 0,
                raw_damage >= 0,
        ;
    }
    (raw_damage * 100_000) / (100_000 + resistance)
}

/// Mitigation against the physical stat line.
pub fn mitigate_damage_by_armor(damage: u64, armor: u64) -> (mitigated: u64)
    requires
        damage <= DAMAGE_MAX,
        armor <= RESIST_MAX,
    ensures
        mitigated == mitigate_spec(damage as int, armor as int),
        mitigated <= damage,
{
    calculate_mitigation(damage, armor)
}

/// Mitigation against the magic stat line.
pub fn mitigate_damage_by_magic_resist(damage: u64, magic_resist: u64) -> (mitigated: u64)
    requires
        damage <= DAMAGE_MAX,
        magic_resist <= RESIST_MAX,
    ensures
        mitigated == mitigate_spec(damage as int, magic_resist as int),
        mitigated <= damage,
{
    calculate_mitigation(damage, magic_resist)
}

} // verus!
