pub mod counts;
pub mod direction;

use vstd::prelude::*;

verus! {

/// Operating mode of the batteries of a grid.
#[derive(Copy, Clone, PartialEq, Eq, Structural, PartialOrd, Ord, Hash, Debug)]
pub enum BatteryMode {
    Auto,
    Recharge,
    Discharge,
    Off,
}

/// Batteries take in power in this mode.
pub open spec fn battery_charging(m: BatteryMode) -> bool {
    m == BatteryMode::Auto || m == BatteryMode::Recharge
}

/// Batteries give out power in this mode.
pub open spec fn battery_discharging(m: BatteryMode) -> bool {
    m == BatteryMode::Auto || m == BatteryMode::Discharge
}

/// Display name of a battery mode.
pub open spec fn battery_mode_name(m: BatteryMode) -> Seq<char> {
    match m {
        BatteryMode::Auto => "Auto"@,
        BatteryMode::Recharge => "Recharge"@,
        BatteryMode::Discharge => "Discharge"@,
        BatteryMode::Off => "Off"@,
    }
}

impl Default for BatteryMode {
    fn default() -> (r: Self)
        ensures
            r == BatteryMode::Discharge,
    {
        BatteryMode::Discharge
    }
}

impl BatteryMode {
    /// All battery modes, in the order a user is offered them.
    pub fn items() -> (r: [BatteryMode; 4])
        ensures
            r@ == seq![BatteryMode::Auto, BatteryMode::Recharge, BatteryMode::Discharge, BatteryMode::Off],
    {
        let r = [BatteryMode::Auto, BatteryMode::Recharge, BatteryMode::Discharge, BatteryMode::Off];
        assert(r@ =~= seq![BatteryMode::Auto, BatteryMode::Recharge, BatteryMode::Discharge, BatteryMode::Off]);
        r
    }

    /// Whether batteries in this mode charge.
    pub fn is_charging(&self) -> (r: bool)
        ensures
            r == battery_charging(*self),
    {
        match self {
            BatteryMode::Auto => true,
            BatteryMode::Recharge => true,
            _ => false,
        }
    }

    /// Whether batteries in this mode discharge.
    pub fn is_discharging(&self) -> (r: bool)
        ensures
            r == battery_discharging(*self),
    {
        match self {
            BatteryMode::Auto => true,
            BatteryMode::Discharge => true,
            _ => false,
        }
    }

    /// Display name of this mode.
    pub fn name(&self) -> (r: &'static str)
        ensures
            r@ == battery_mode_name(*self),
    {
        match self {
            BatteryMode::Auto => "Auto",
            BatteryMode::Recharge => "Recharge",
            BatteryMode::Discharge => "Discharge",
            BatteryMode::Off => "Off",
        }
    }
}

/// Only `Auto` both charges and discharges; only `Off` does neither; every other mode does
/// exactly one of the two.
pub proof fn lemma_battery_mode_charge_discharge(m: BatteryMode)
    ensures
        (battery_charging(m) && battery_discharging(m)) <==> m == BatteryMode::Auto,
        (!battery_charging(m) && !battery_discharging(m)) <==> m == BatteryMode::Off,
{
}

/// Operating mode of the hydrogen tanks of a grid.
#[derive(Copy, Clone, PartialEq, Eq, Structural, PartialOrd, Ord, Hash, Debug)]
pub enum HydrogenTankMode {
    On,
    Stockpile,
    Off,
}

/// Tanks take in hydrogen in this mode.
pub open spec fn tank_refilling(m: HydrogenTankMode) -> bool {
    m == HydrogenTankMode::On || m == HydrogenTankMode::Stockpile
}

/// Tanks give out hydrogen in this mode.
pub open spec fn tank_providing(m: HydrogenTankMode) -> bool {
    m == HydrogenTankMode::On
}

/// Display name of a hydrogen tank mode.
pub open spec fn tank_mode_name(m: HydrogenTankMode) -> Seq<char> {
    match m {
        HydrogenTankMode::On => "On"@,
        HydrogenTankMode::Stockpile => "Stockpile"@,
        HydrogenTankMode::Off => "Off"@,
    }
}

impl Default for HydrogenTankMode {
    fn default() -> (r: Self)
        ensures
            r == HydrogenTankMode::On,
    {
        HydrogenTankMode::On
    }
}

impl HydrogenTankMode {
    /// All hydrogen tank modes, in the order a user is offered them.
    pub fn items() -> (r: [HydrogenTankMode; 3])
        ensures
            r@ == seq![HydrogenTankMode::On, HydrogenTankMode::Stockpile, HydrogenTankMode::Off],
    {
        let r = [HydrogenTankMode::On, HydrogenTankMode::Stockpile, HydrogenTankMode::Off];
        assert(r@ =~= seq![HydrogenTankMode::On, HydrogenTankMode::Stockpile, HydrogenTankMode::Off]);
        r
    }

    /// Whether tanks in this mode refill.
    pub fn is_refilling(&self) -> (r: bool)
        ensures
            r == tank_refilling(*self),
    {
        match self {
            HydrogenTankMode::On => true,
            HydrogenTankMode::Stockpile => true,
            _ => false,
        }
    }

    /// Whether tanks in this mode provide hydrogen to the grid.
    pub fn is_providing(&self) -> (r: bool)
        ensures
            r == tank_providing(*self),
    {
        match self {
            HydrogenTankMode::On => true,
            _ => false,
        }
    }

    /// Display name of this mode.
    pub fn name(&self) -> (r: &'static str)
        ensures
            r@ == tank_mode_name(*self),
    {
        match self {
            HydrogenTankMode::On => "On",
            HydrogenTankMode::Stockpile => "Stockpile",
            HydrogenTankMode::Off => "Off",
        }
    }
}

/// A tank that provides hydrogen also refills; a stockpiling tank refills without providing.
pub proof fn lemma_tank_providing_implies_refilling(m: HydrogenTankMode)
    ensures
        tank_providing(m) ==> tank_refilling(m),
        (tank_refilling(m) && !tank_providing(m)) <==> m == HydrogenTankMode::Stockpile,
        (!tank_refilling(m)) <==> m == HydrogenTankMode::Off,
{
}

} // verus!
