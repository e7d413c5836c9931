//! What a character can be proficient with.

use vstd::prelude::*;
use crate::common::attribute::Attribute;

verus! {

/// A proficiency: how well, with what, and under which condition.
#[derive(Debug)]
pub struct Proficiency {
    /// How well the character masters it.
    pub level: ProficiencyLevel,
    /// What the proficiency applies to.
    pub kind: ProficiencyType,
    /// The condition under which the proficiency applies, if it has one.
    pub context: Option<String>,
}

/// How well a character masters something.
#[derive(Debug, Clone, Copy, PartialEq, Eq, Structural)]
pub enum ProficiencyLevel {
    Proficient,
    Expertise,
}

impl Default for ProficiencyLevel {
    /// A proficiency is plain unless it is said to be an expertise.
    fn default() -> (level: ProficiencyLevel)
        ensures
            level == ProficiencyLevel::Proficient,
    {
        ProficiencyLevel::Proficient
    }
}

/// What a proficiency applies to.
#[derive(Debug, Clone, Copy, PartialEq, Eq, Structural)]
pub enum ProficiencyType {
    Armor(ArmorType),
    Weapons(WeaponType),
    Tools(ToolType),
    SavingThrows(Attribute),
    Skills,
}

/// The kinds of armor.
#[derive(Debug, Clone, Copy, PartialEq, Eq, Structural)]
pub enum ArmorType {
    Light,
    Medium,
    Heavy,
    Shield,
}

/// The kinds of weapons: the four groups, then each weapon by itself.
#[derive(Debug, Clone, Copy, PartialEq, Eq, Structural)]
pub enum WeaponType {
    SimpleMelee,
    SimpleRanged,
    MartialMelee,
    MartialRanged,
    Club,
    Dagger,
    Greatclub,
    Handaxe,
    Javelin,
    LightHammer,
    Mace,
    Quarterstaff,
    Sickle,
    Spear,
    LightCrossbow,
    Dart,
    Shortbow,
    Sling,
    Battleaxe,
    Flail,
    Glaive,
    Greataxe,
    Greatsword,
    Halberd,
    Lance,
    Longsword,
    Maul,
    Morningstar,
    Pike,
    Rapier,
    Scimitar,
    Shortsword,
    Trident,
    WarPick,
    Warhammer,
    Whip,
    Blowgun,
    HandCrossbow,
    HeavyCrossbow,
    Longbow,
    Net,
}

/// The kinds of tools.
#[derive(Debug, Clone, Copy, PartialEq, Eq, Structural)]
pub enum ToolType {
    ArtisansTools(ArtisansTools),
    DisguiseKit,
    ForgeryKit,
    GamingSet(GamingSet),
    HerbalismKit,
    MusicalInstrument(MusicalInstrument),
    NavigatorsTools,
    PoisonersKit,
    ThievesTools,
}

/// The tools of the artisans, by trade.
#[derive(Debug, Clone, Copy, PartialEq, Eq, Structural)]
pub enum ArtisansTools {
    AlchemistsSupplies,
    BrewersSupplies,
    CalligraphersSupplies,
    CarpentersTools,
    CartographersTools,
    CobblersTools,
    CooksUtensils,
    GlassblowersTools,
    JewelersTools,
    LeatherworkersTools,
    MasonsTools,
    PaintersSupplies,
    PottersTools,
    SmithsTools,
    TinkersTools,
    WeaversTools,
    WoodcarversTools,
}

/// The gaming sets.
#[derive(Debug, Clone, Copy, PartialEq, Eq, Structural)]
pub enum GamingSet {
    DiceSet,
    DragonchessSet,
    PlayingCardSet,
    ThreeDragonAnteSet,
}

/// The musical instruments.
#[derive(Debug, Clone, Copy, PartialEq, Eq, Structural)]
pub enum MusicalInstrument {
    Bagpipes,
    Drum,
    Dulcimer,
    Flute,
    Lute,
    Lyre,
    Horn,
    PanFlute,
    Shawm,
    Viol,
}

} // verus!
