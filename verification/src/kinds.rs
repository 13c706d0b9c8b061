//! Identifiers of what the agent can produce and observe.
//!
//! The core names the unit kinds and upgrades that its own rules mention.
//! Every other kind that the host knows is carried as `Other` with the host's
//! number for it, which the core never interprets.

use vstd::prelude::*;

verus! {

/// The kind of a unit or structure.
#[derive(Clone, Copy, Debug, PartialEq, Eq, Structural, Hash)]
pub enum UnitKind {
    Drone,
    Zergling,
    Roach,
    Overlord,
    Hatchery,
    Lair,
    Hive,
    SpawningPool,
    EvolutionChamber,
    RoachWarren,
    Extractor,
    UltraliskCavern,
    HydraliskDen,
    Spire,
    InfestationPit,
    BanelingNest,
    LurkerDen,
    /// A kind that the core has no rule about, under the host's number.
    Other(u32),
}

/// A research upgrade.
#[derive(Clone, Copy, Debug, PartialEq, Eq, Structural, Hash)]
pub enum UpgradeKind {
    GlialReconstitution,
    TunnelingClaws,
    ChitinousPlating,
    ZergMeleeWeaponsLevel1,
    ZergMeleeWeaponsLevel2,
    ZergMeleeWeaponsLevel3,
    ZergGroundArmorsLevel1,
    ZergGroundArmorsLevel2,
    ZergGroundArmorsLevel3,
    ZergMissileWeaponsLevel1,
    ZergMissileWeaponsLevel2,
    ZergMissileWeaponsLevel3,
    Overlordspeed,
    Overlordtransport,
    Burrow,
    Zerglingattackspeed,
    Zerglingmovementspeed,
    Hydraliskspeed,
    ZergFlyerWeaponsLevel1,
    ZergFlyerWeaponsLevel2,
    ZergFlyerWeaponsLevel3,
    ZergFlyerArmorsLevel1,
    ZergFlyerArmorsLevel2,
    ZergFlyerArmorsLevel3,
    InfestorEnergyUpgrade,
    CentrificalHooks,
    AnabolicSynthesis,
    HydraliskSpeedUpgrade,
    NeuralParasite,
    LocustLifetimeIncrease,
    LurkerRange,
    EvolveGroovedSpines,
    EvolveMuscularAugments,
    /// An upgrade that the core has no rule about, under the host's number.
    Other(u32),
}

/// Something that can be produced: a unit or an upgrade.
#[derive(Clone, Copy, Debug, PartialEq, Eq, Structural, Hash)]
pub enum Buildable {
    Unit(UnitKind),
    Upgrade(UpgradeKind),
}

/// First code of the `Other` unit kinds; the named kinds lie below it.
pub const OTHER_UNIT_BASE: u64 = 32;

/// First code of the `Other` upgrades; the named upgrades lie below it.
pub const OTHER_UPGRADE_BASE: u64 = 64;

/// First component of the key of a unit.
pub const UNIT_CLASS: u64 = 0;

/// First component of the key of an upgrade.
pub const UPGRADE_CLASS: u64 = 1;

impl UnitKind {
    /// The integer that stands for this kind wherever kinds are keys.
    /// Different kinds have different codes.
    pub open spec fn code(self) -> u64 {
        match self {
            UnitKind::Drone => 0,
            UnitKind::Zergling => 1,
            UnitKind::Roach => 2,
            UnitKind::Overlord => 3,
            UnitKind::Hatchery => 4,
            UnitKind::Lair => 5,
            UnitKind::Hive => 6,
            UnitKind::SpawningPool => 7,
            UnitKind::EvolutionChamber => 8,
            UnitKind::RoachWarren => 9,
            UnitKind::Extractor => 10,
            UnitKind::UltraliskCavern => 11,
            UnitKind::HydraliskDen => 12,
            UnitKind::Spire => 13,
            UnitKind::InfestationPit => 14,
            UnitKind::BanelingNest => 15,
            UnitKind::LurkerDen => 16,
            UnitKind::Other(n) => (OTHER_UNIT_BASE + n) as u64,
        }
    }

    /// Computes [`UnitKind::code`].
    pub fn to_code(&self) -> (c: u64)
        ensures
            c == self.code(),
    {
        match self {
            UnitKind::Drone => 0,
            UnitKind::Zergling => 1,
            UnitKind::Roach => 2,
            UnitKind::Overlord => 3,
            UnitKind::Hatchery => 4,
            UnitKind::Lair => 5,
            UnitKind::Hive => 6,
            UnitKind::SpawningPool => 7,
            UnitKind::EvolutionChamber => 8,
            UnitKind::RoachWarren => 9,
            UnitKind::Extractor => 10,
            UnitKind::UltraliskCavern => 11,
            UnitKind::HydraliskDen => 12,
            UnitKind::Spire => 13,
            UnitKind::InfestationPit => 14,
            UnitKind::BanelingNest => 15,
            UnitKind::LurkerDen => 16,
            UnitKind::Other(n) => OTHER_UNIT_BASE + *n as u64,
        }
    }

    /// The kind that has the code `c`, if any.
    pub fn from_code(c: u64) -> (kind: Option<UnitKind>)
        ensures
            match kind {
                Some(k) => k.code() == c,
                None => forall|k: UnitKind| k.code() != c,
            },
    {
        if c >= OTHER_UNIT_BASE {
            if c - OTHER_UNIT_BASE <= u32::MAX as u64 {
                Some(UnitKind::Other((c - OTHER_UNIT_BASE) as u32))
            } else {
                None
            }
        } else if c == 0 {
            Some(UnitKind::Drone)
        } else if c == 1 {
            Some(UnitKind::Zergling)
        } else if c == 2 {
            Some(UnitKind::Roach)
        } else if c == 3 {
            Some(UnitKind::Overlord)
        } else if c == 4 {
            Some(UnitKind::Hatchery)
        } else if c == 5 {
            Some(UnitKind::Lair)
        } else if c == 6 {
            Some(UnitKind::Hive)
        } else if c == 7 {
            Some(UnitKind::SpawningPool)
        } else if c == 8 {
            Some(UnitKind::EvolutionChamber)
        } else if c == 9 {
            Some(UnitKind::RoachWarren)
        } else if c == 10 {
            Some(UnitKind::Extractor)
        } else if c == 11 {
            Some(UnitKind::UltraliskCavern)
        } else if c == 12 {
            Some(UnitKind::HydraliskDen)
        } else if c == 13 {
            Some(UnitKind::Spire)
        } else if c == 14 {
            Some(UnitKind::InfestationPit)
        } else if c == 15 {
            Some(UnitKind::BanelingNest)
        } else if c == 16 {
            Some(UnitKind::LurkerDen)
        } else {
            None
        }
    }
}

impl UpgradeKind {
    /// The integer that stands for this upgrade wherever upgrades are keys.
    /// Different upgrades have different codes.
    pub open spec fn code(self) -> u64 {
        match self {
            UpgradeKind::GlialReconstitution => 0,
            UpgradeKind::TunnelingClaws => 1,
            UpgradeKind::ChitinousPlating => 2,
            UpgradeKind::ZergMeleeWeaponsLevel1 => 3,
            UpgradeKind::ZergMeleeWeaponsLevel2 => 4,
            UpgradeKind::ZergMeleeWeaponsLevel3 => 5,
            UpgradeKind::ZergGroundArmorsLevel1 => 6,
            UpgradeKind::ZergGroundArmorsLevel2 => 7,
            UpgradeKind::ZergGroundArmorsLevel3 => 8,
            UpgradeKind::ZergMissileWeaponsLevel1 => 9,
            UpgradeKind::ZergMissileWeaponsLevel2 => 10,
            UpgradeKind::ZergMissileWeaponsLevel3 => 11,
            UpgradeKind::Overlordspeed => 12,
            UpgradeKind::Overlordtransport => 13,
            UpgradeKind::Burrow => 14,
            UpgradeKind::Zerglingattackspeed => 15,
            UpgradeKind::Zerglingmovementspeed => 16,
            UpgradeKind::Hydraliskspeed => 17,
            UpgradeKind::ZergFlyerWeaponsLevel1 => 18,
            UpgradeKind::ZergFlyerWeaponsLevel2 => 19,
            UpgradeKind::ZergFlyerWeaponsLevel3 => 20,
            UpgradeKind::ZergFlyerArmorsLevel1 => 21,
            UpgradeKind::ZergFlyerArmorsLevel2 => 22,
            UpgradeKind::ZergFlyerArmorsLevel3 => 23,
            UpgradeKind::InfestorEnergyUpgrade => 24,
            UpgradeKind::CentrificalHooks => 25,
            UpgradeKind::AnabolicSynthesis => 26,
            UpgradeKind::HydraliskSpeedUpgrade => 27,
            UpgradeKind::NeuralParasite => 28,
            UpgradeKind::LocustLifetimeIncrease => 29,
            UpgradeKind::LurkerRange => 30,
            UpgradeKind::EvolveGroovedSpines => 31,
            UpgradeKind::EvolveMuscularAugments => 32,
            UpgradeKind::Other(n) => (OTHER_UPGRADE_BASE + n) as u64,
        }
    }

    /// Computes [`UpgradeKind::code`].
    pub fn to_code(&self) -> (c: u64)
        ensures
            c == self.code(),
    {
        match self {
            UpgradeKind::GlialReconstitution => 0,
            UpgradeKind::TunnelingClaws => 1,
            UpgradeKind::ChitinousPlating => 2,
            UpgradeKind::ZergMeleeWeaponsLevel1 => 3,
            UpgradeKind::ZergMeleeWeaponsLevel2 => 4,
            UpgradeKind::ZergMeleeWeaponsLevel3 => 5,
            UpgradeKind::ZergGroundArmorsLevel1 => 6,
            UpgradeKind::ZergGroundArmorsLevel2 => 7,
            UpgradeKind::ZergGroundArmorsLevel3 => 8,
            UpgradeKind::ZergMissileWeaponsLevel1 => 9,
            UpgradeKind::ZergMissileWeaponsLevel2 => 10,
            UpgradeKind::ZergMissileWeaponsLevel3 => 11,
            UpgradeKind::Overlordspeed => 12,
            UpgradeKind::Overlordtransport => 13,
            UpgradeKind::Burrow => 14,
            UpgradeKind::Zerglingattackspeed => 15,
            UpgradeKind::Zerglingmovementspeed => 16,
            UpgradeKind::Hydraliskspeed => 17,
            UpgradeKind::ZergFlyerWeaponsLevel1 => 18,
            UpgradeKind::ZergFlyerWeaponsLevel2 => 19,
            UpgradeKind::ZergFlyerWeaponsLevel3 => 20,
            UpgradeKind::ZergFlyerArmorsLevel1 => 21,
            UpgradeKind::ZergFlyerArmorsLevel2 => 22,
            UpgradeKind::ZergFlyerArmorsLevel3 => 23,
            UpgradeKind::InfestorEnergyUpgrade => 24,
            UpgradeKind::CentrificalHooks => 25,
            UpgradeKind::AnabolicSynthesis => 26,
            UpgradeKind::HydraliskSpeedUpgrade => 27,
            UpgradeKind::NeuralParasite => 28,
            UpgradeKind::LocustLifetimeIncrease => 29,
            UpgradeKind::LurkerRange => 30,
            UpgradeKind::EvolveGroovedSpines => 31,
            UpgradeKind::EvolveMuscularAugments => 32,
            UpgradeKind::Other(n) => OTHER_UPGRADE_BASE + *n as u64,
        }
    }

    /// The upgrade that has the code `c`, if any.
    pub fn from_code(c: u64) -> (kind: Option<UpgradeKind>)
        ensures
            match kind {
                Some(k) => k.code() == c,
                None => forall|k: UpgradeKind| k.code() != c,
            },
    {
        if c >= OTHER_UPGRADE_BASE {
            if c - OTHER_UPGRADE_BASE <= u32::MAX as u64 {
                Some(UpgradeKind::Other((c - OTHER_UPGRADE_BASE) as u32))
            } else {
                None
            }
        } else if c == 0 {
            Some(UpgradeKind::GlialReconstitution)
        } else if c == 1 {
            Some(UpgradeKind::TunnelingClaws)
        } else if c == 2 {
            Some(UpgradeKind::ChitinousPlating)
        } else if c == 3 {
            Some(UpgradeKind::ZergMeleeWeaponsLevel1)
        } else if c == 4 {
            Some(UpgradeKind::ZergMeleeWeaponsLevel2)
        } else if c == 5 {
            Some(UpgradeKind::ZergMeleeWeaponsLevel3)
        } else if c == 6 {
            Some(UpgradeKind::ZergGroundArmorsLevel1)
        } else if c == 7 {
            Some(UpgradeKind::ZergGroundArmorsLevel2)
        } else if c == 8 {
            Some(UpgradeKind::ZergGroundArmorsLevel3)
        } else if c == 9 {
            Some(UpgradeKind::ZergMissileWeaponsLevel1)
        } else if c == 10 {
            Some(UpgradeKind::ZergMissileWeaponsLevel2)
        } else if c == 11 {
            Some(UpgradeKind::ZergMissileWeaponsLevel3)
        } else if c == 12 {
            Some(UpgradeKind::Overlordspeed)
        } else if c == 13 {
            Some(UpgradeKind::Overlordtransport)
        } else if c == 14 {
            Some(UpgradeKind::Burrow)
        } else if c == 15 {
            Some(UpgradeKind::Zerglingattackspeed)
        } else if c == 16 {
            Some(UpgradeKind::Zerglingmovementspeed)
        } else if c == 17 {
            Some(UpgradeKind::Hydraliskspeed)
        } else if c == 18 {
            Some(UpgradeKind::ZergFlyerWeaponsLevel1)
        } else if c == 19 {
            Some(UpgradeKind::ZergFlyerWeaponsLevel2)
        } else if c == 20 {
            Some(UpgradeKind::ZergFlyerWeaponsLevel3)
        } else if c == 21 {
            Some(UpgradeKind::ZergFlyerArmorsLevel1)
        } else if c == 22 {
            Some(UpgradeKind::ZergFlyerArmorsLevel2)
        } else if c == 23 {
            Some(UpgradeKind::ZergFlyerArmorsLevel3)
        } else if c == 24 {
            Some(UpgradeKind::InfestorEnergyUpgrade)
        } else if c == 25 {
            Some(UpgradeKind::CentrificalHooks)
        } else if c == 26 {
            Some(UpgradeKind::AnabolicSynthesis)
        } else if c == 27 {
            Some(UpgradeKind::HydraliskSpeedUpgrade)
        } else if c == 28 {
            Some(UpgradeKind::NeuralParasite)
        } else if c == 29 {
            Some(UpgradeKind::LocustLifetimeIncrease)
        } else if c == 30 {
            Some(UpgradeKind::LurkerRange)
        } else if c == 31 {
            Some(UpgradeKind::EvolveGroovedSpines)
        } else if c == 32 {
            Some(UpgradeKind::EvolveMuscularAugments)
        } else {
            None
        }
    }
}

impl Buildable {
    /// The pair of integers under which this buildable is filed: its class
    /// and the code of its kind. Different buildables have different keys.
    pub open spec fn key(self) -> (u64, u64) {
        match self {
            Buildable::Unit(kind) => (UNIT_CLASS, kind.code()),
            Buildable::Upgrade(kind) => (UPGRADE_CLASS, kind.code()),
        }
    }

    /// Computes [`Buildable::key`].
    pub fn to_key(&self) -> (k: (u64, u64))
        ensures
            k == self.key(),
    {
        match self {
            Buildable::Unit(kind) => (UNIT_CLASS, kind.to_code()),
            Buildable::Upgrade(kind) => (UPGRADE_CLASS, kind.to_code()),
        }
    }

    /// The buildable that is filed under `key`, if any.
    pub fn from_key(key: (u64, u64)) -> (b: Option<Buildable>)
        ensures
            match b {
                Some(b) => b.key() == key,
                None => forall|b: Buildable| b.key() != key,
            },
    {
        if key.0 == UNIT_CLASS {
            match UnitKind::from_code(key.1) {
                Some(kind) => Some(Buildable::Unit(kind)),
                None => {
                    assert forall|b: Buildable| b.key() != key by {
                        if let Buildable::Unit(k) = b {
                            assert(k.code() != key.1);
                        }
                    }
                    None
                },
            }
        } else if key.0 == UPGRADE_CLASS {
            match UpgradeKind::from_code(key.1) {
                Some(kind) => Some(Buildable::Upgrade(kind)),
                None => {
                    assert forall|b: Buildable| b.key() != key by {
                        if let Buildable::Upgrade(k) = b {
                            assert(k.code() != key.1);
                        }
                    }
                    None
                },
            }
        } else {
            None
        }
    }
}

/// Two unit kinds with the same code are the same kind.
pub proof fn unit_code_is_injective(a: UnitKind, b: UnitKind)
    requires
        a.code() == b.code(),
    ensures
        a == b,
{
}

/// Two upgrades with the same code are the same upgrade.
pub proof fn upgrade_code_is_injective(a: UpgradeKind, b: UpgradeKind)
    requires
        a.code() == b.code(),
    ensures
        a == b,
{
}

/// Two buildables with the same key are the same buildable.
pub proof fn buildable_key_is_injective(a: Buildable, b: Buildable)
    requires
        a.key() == b.key(),
    ensures
        a == b,
{
}

} // verus!
