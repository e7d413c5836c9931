//! The dwarf and its two subraces.

use vstd::prelude::*;
use crate::common::Range;
use crate::common::language::{Language, LanguageLevel, LanguageView};
use crate::common::size::{Height, Size, SizeCategory, Weight};
use crate::common::speed::Speed;
use crate::common::summary::{Summary, SummaryView};
use crate::frontend::race::{
    Age, Race, RaceView, RacialTrait, RacialTraitView, Subrace, SubraceView,
};
use crate::frontend::races::common::{darkvision, darkvision_view};
use crate::frontend::utils::{Attribute, Choices, ChoicesView};

verus! {

/// The name of the race.
pub const NAME: &'static str = "Dwarf";

/// The name of the race in the plural.
pub const NAME_PLURAL: &'static str = "Dwarves";

/// The main text of the description.
pub const SUMMARY: &'static str =
    "Kingdoms rich in ancient grandeur, halls carved into the roots of mountains, the echoing of picks and hammers in deep mines and blazing forges, a commitment to clan and tradition, and a burning hatred of goblins and orcs — these common threads unite all dwarves.";

/// The title of the subsection "Short and Stout".
pub const SHORT_AND_STOUT_TITLE: &'static str = "Short and Stout";

/// The text of the subsection "Short and Stout".
pub const SHORT_AND_STOUT_TEXT: &'static str =
    "Bold and hardy, dwarves are known as skilled warriors, miners, and workers of stone and metal. Though they stand well under 5 feet tall, dwarves are so broad and compact that they can weigh as much as a human standing nearly two feet taller. Their courage and endurance are also easily a match for any of the larger folk.\n\n\n        Dwarven skin ranges from deep brown to a paler hue tinged with red, but the most common shades are light brown or deep tan, like certain tones of earth. Their hair, worn long but in simple styles, is usually black, gray, or brown, though paler dwarves often have red hair. Male dwarves value their beards highly and groom them carefully.";

/// The title of the subsection "Long Memory, Long Grudges".
pub const LONG_MEMORY_TITLE: &'static str = "Long Memory, Long Grudges";

/// The text of the subsection "Long Memory, Long Grudges".
pub const LONG_MEMORY_TEXT: &'static str =
    "Dwarves can live to be more than 400 years old, so the oldest living dwarves often remember a very different world. For example, some of the oldest dwarves living in Citadel Felbarr (in the world of the Forgotten Realms) can recall the day, more than three centuries ago, when orcs conquered the fortress and drove them into an exile that lasted over 250 years. This longevity grants them a perspective on the world that shorter-lived races such as humans and halflings lack.\n\n\n        Dwarves are solid and enduring like the mountains they love, weathering the passage of centuries with stoic endurance and little change. They respect the traditions of their clans, tracing their ancestry back to the founding of their most ancient strongholds in the youth of the world, and don’t abandon those traditions lightly. Part of those traditions is devotion to the gods of the dwarves, who uphold the dwarven ideals of industrious labor, skill in battle, and devotion to the forge.\n\n\n        Individual dwarves are determined and loyal, true to their word and decisive in action, sometimes to the point of stubbornness. Many dwarves have a strong sense of justice, and they are slow to forget wrongs they have suffered. A wrong done to one dwarf is a wrong done to the dwarf’s entire clan, so what begins as one dwarf’s hunt for vengeance can become a full-blown clan feud.";

/// The title of the subsection "Clans and Kingdoms".
pub const CLANS_AND_KINGDOMS_TITLE: &'static str = "Clans and Kingdoms";

/// The text of the subsection "Clans and Kingdoms".
pub const CLANS_AND_KINGDOMS_TEXT: &'static str =
    "Dwarven kingdoms stretch deep beneath the mountains where the dwarves mine gems and precious metals and forge items of wonder. They love the beauty and artistry of precious metals and fine jewelry, and in some dwarves this love festers into avarice. Whatever wealth they can’t find in their mountains, they gain through trade. They dislike boats, so enterprising humans and halflings frequently handle trade in dwarven goods along water routes. Trustworthy members of other races are welcome in dwarf settlements, though some areas are off limits even to them.\n\n\n        The chief unit of dwarven society is the clan, and dwarves highly value social standing. Even dwarves who live far from their own kingdoms cherish their clan identities and affiliations, recognize related dwarves, and invoke their ancestors’ names in oaths and curses. To be clanless is the worst fate that can befall a dwarf.\n\n\n        Dwarves in other lands are typically artisans, especially weaponsmiths, armorers, and jewelers. Some become mercenaries or bodyguards, highly sought after for their courage and loyalty.";

/// The title of the subsection "Gods, Gold, and Clan".
pub const GODS_GOLD_AND_CLAN_TITLE: &'static str = "Gods, Gold, and Clan";

/// The text of the subsection "Gods, Gold, and Clan".
pub const GODS_GOLD_AND_CLAN_TEXT: &'static str =
    "Dwarves who take up the adventuring life might be motivated by a desire for treasure — for its own sake, for a specific purpose, or even out of an altruistic desire to help others. Other dwarves are driven by the command or inspiration of a deity, a direct calling or simply a desire to bring glory to one of the dwarf gods. Clan and ancestry are also important motivators. A dwarf might seek to restore a clan’s lost honor, avenge an ancient wrong the clan suffered, or earn a new place within the clan after having been exiled. Or a dwarf might search for the axe wielded by a mighty ancestor, lost on the field of battle centuries ago.";

/// The title of the subsection "Dwarf Names".
pub const DWARF_NAMES_TITLE: &'static str = "Dwarf Names";

/// The text of the subsection "Dwarf Names".
pub const DWARF_NAMES_TEXT: &'static str =
    "A dwarf’s name is granted by a clan elder, in accordance with tradition. Every proper dwarven name has been used and reused down through the generations. A dwarf’s name belongs to the clan, not to the individual. A dwarf who misuses or brings shame to a clan name is stripped of the name and forbidden by law to use any dwarven name in its place.\n\n\n        Male Names: Adrik, Alberich, Baern, Barendd, Brottor, Bruenor, Dain, Darrak, Delg, Eberk, Einkil, Fargrim, Flint, Gardain, Harbek, Kildrak, Morgran, Orsik, Oskar, Rangrim, Rurik, Taklinn, Thoradin, Thorin, Tordek, Traubon, Travok, Ulfgar, Veit, Vondal\n\n\n        Female Names: Amber, Artin, Audhild, Bardryn, Dagnal, Diesa, Eldeth, Falkrunn, Finellen, Gunnloda, Gurdis, Helja, Hlin, Kathra, Kristryd, Ilde, Liftrasa, Mardred, Riswynn, Sannl, Torbera, Torgga, Vistra\n\n\n        Clan Names: Balderk, Battlehammer, Brawnanvil, Dankil, Fireforge, Frostbeard, Gorunn, Holderhek, Ironfist, Loderr, Lutgehr, Rumnaheim, Strakeln, Torunn, Ungart";

/// The language shared by most peoples.
pub const COMMON: &'static str = "Common";

/// The language of the dwarves.
pub const DWARVISH: &'static str = "Dwarvish";

/// A set of artisan's tools.
pub const SMITHS_TOOLS: &'static str = "Smith's tools";

/// A set of artisan's tools.
pub const BREWERS_SUPPLIES: &'static str = "Brewer's supplies";

/// A set of artisan's tools.
pub const MASONS_TOOLS: &'static str = "Mason's tools";

/// The name of the hill dwarf.
pub const HILL_DWARF_NAME: &'static str = "Hill Dwarf";

/// The description of the hill dwarf.
pub const HILL_DWARF_SUMMARY: &'static str =
    "As a hill dwarf, you have keen senses, deep intuition, and remarkable resilience. The gold dwarves of Faerûn in their mighty southern kingdom are hill dwarves, as are the exiled Neidar and the debased Klar of Krynn in the Dragonlance setting.";

/// The name of the hill dwarf's trait.
pub const DWARVEN_TOUGHNESS_NAME: &'static str = "Dwarven Toughness";

/// What the hill dwarf's trait does.
pub const DWARVEN_TOUGHNESS_SUMMARY: &'static str =
    "Your hit point maximum increases by 1, and it increases by 1 every time you gain a level.";

/// The name of the mountain dwarf.
pub const MOUNTAIN_DWARF_NAME: &'static str = "Mountain Dwarf";

/// The description of the mountain dwarf.
pub const MOUNTAIN_DWARF_SUMMARY: &'static str =
    "As a mountain dwarf, you’re strong and hardy, accustomed to a difficult life in rugged terrain. You’re probably on the tall side (for a dwarf), and tend toward lighter coloration. The shield dwarves of northern Faerûn, as well as the ruling Hylar clan and the noble Daewar clan of Dragonlance, are mountain dwarves";

/// The name of the mountain dwarf's trait.
pub const DWARVEN_ARMOR_TRAINING_NAME: &'static str = "Dwarven Armor Training";

/// What the mountain dwarf's trait does.
pub const DWARVEN_ARMOR_TRAINING_SUMMARY: &'static str = "You have proficiency with light and medium armor";

/// The name of the trait "Dwarven Resilience".
pub const DWARVEN_RESILIENCE_NAME: &'static str = "Dwarven Resilience";

/// What the trait "Dwarven Resilience" does.
pub const DWARVEN_RESILIENCE_SUMMARY: &'static str =
    "You have advantage on saving throws against poison, and you have resistance against poison damage.";

/// The name of the trait "Dwarven Combat Training".
pub const DWARVEN_COMBAT_TRAINING_NAME: &'static str = "Dwarven Combat Training";

/// What the trait "Dwarven Combat Training" does.
pub const DWARVEN_COMBAT_TRAINING_SUMMARY: &'static str =
    "You have proficiency with the battleaxe, handaxe, light hammer, and warhammer";

/// The name of the trait "Stonecunning".
pub const STONECUNNING_NAME: &'static str = "Stonecunning";

/// What the trait "Stonecunning" does.
pub const STONECUNNING_SUMMARY: &'static str =
    "Whenever you make an Intelligence (History) check related to the origin of stonework, you are considered proficient in the History skill and add double your proficiency bonus to the check, instead of your normal proficiency bonus.";

/// The name of the trait "Dwarven Speed".
pub const DWARVEN_SPEED_NAME: &'static str = "Dwarven Speed";

/// What the trait "Dwarven Speed" does.
pub const DWARVEN_SPEED_SUMMARY: &'static str = "Your speed is not reduced by wearing heavy armor.";

/// The value of the description of the dwarves.
pub open spec fn summary_view() -> SummaryView {
    SummaryView {
        main: SUMMARY@,
        subsections: seq![
            (SHORT_AND_STOUT_TITLE@, SHORT_AND_STOUT_TEXT@),
            (LONG_MEMORY_TITLE@, LONG_MEMORY_TEXT@),
            (CLANS_AND_KINGDOMS_TITLE@, CLANS_AND_KINGDOMS_TEXT@),
            (GODS_GOLD_AND_CLAN_TITLE@, GODS_GOLD_AND_CLAN_TEXT@),
            (DWARF_NAMES_TITLE@, DWARF_NAMES_TEXT@),
        ],
    }
}

/// Returns one subsection of a description.
fn subsection(title: &str, text: &str) -> (r: (String, String))
    ensures
        r.deep_view() == (title@, text@),
{
    (String::from_str(title), String::from_str(text))
}

/// Returns the description of the dwarves: the main text and five
/// subsections.
pub fn summary() -> (r: Summary)
    ensures
        r.deep_view() == summary_view(),
{
    let mut subsections: Vec<(String, String)> = Vec::new();
    subsections.push(subsection(SHORT_AND_STOUT_TITLE, SHORT_AND_STOUT_TEXT));
    subsections.push(subsection(LONG_MEMORY_TITLE, LONG_MEMORY_TEXT));
    subsections.push(subsection(CLANS_AND_KINGDOMS_TITLE, CLANS_AND_KINGDOMS_TEXT));
    subsections.push(subsection(GODS_GOLD_AND_CLAN_TITLE, GODS_GOLD_AND_CLAN_TEXT));
    subsections.push(subsection(DWARF_NAMES_TITLE, DWARF_NAMES_TEXT));
    assert(subsections.deep_view() =~= summary_view().subsections);
    Summary { main: String::from_str(SUMMARY), subsections }
}

/// The size of the dwarves: medium, 4 to 5 feet tall, 150 pounds.
pub open spec fn size_spec() -> Size {
    Size {
        category: SizeCategory::Medium,
        height: Some(
            Range { start: Height { feet: 4, inches: 0 }, end: Height { feet: 5, inches: 0 } },
        ),
        weight: Some(Range { start: Weight(150), end: Weight(150) }),
    }
}

/// Returns the size of the dwarves.
pub fn size() -> (r: Size)
    ensures
        r == size_spec(),
        r.wf(),
{
    Size {
        category: SizeCategory::Medium,
        height: Some(
            Range { start: Height { feet: 4, inches: 0 }, end: Height { feet: 5, inches: 0 } },
        ),
        weight: Some(Range { start: Weight(150), end: Weight(150) }),
    }
}

/// The value of a language that is spoken, read and written.
pub open spec fn fluent_view(name: Seq<char>) -> LanguageView {
    LanguageView {
        name,
        levels: seq![LanguageLevel::Speak, LanguageLevel::Read, LanguageLevel::Write],
    }
}

/// Returns a language that is spoken, read and written.
fn fluent(name: &str) -> (r: Language)
    ensures
        r.deep_view() == fluent_view(name@),
{
    let mut levels: Vec<LanguageLevel> = Vec::new();
    levels.push(LanguageLevel::Speak);
    levels.push(LanguageLevel::Read);
    levels.push(LanguageLevel::Write);
    assert(levels@ =~= seq![LanguageLevel::Speak, LanguageLevel::Read, LanguageLevel::Write]);
    Language { name: String::from_str(name), levels }
}

/// The value of the languages of the dwarves.
pub open spec fn languages_view() -> Seq<LanguageView> {
    seq![fluent_view(COMMON@), fluent_view(DWARVISH@)]
}

/// Returns the languages of the dwarves: Common and Dwarvish, each spoken,
/// read and written.
pub fn languages() -> (r: Vec<Language>)
    ensures
        r.deep_view() == languages_view(),
{
    let mut r: Vec<Language> = Vec::new();
    r.push(fluent(COMMON));
    r.push(fluent(DWARVISH));
    assert(r.deep_view() =~= languages_view());
    r
}

/// The value of the proficiencies of the dwarves.
pub open spec fn proficiencies_view() -> Seq<ChoicesView<Seq<char>>> {
    seq![ChoicesView::One(seq![SMITHS_TOOLS@, BREWERS_SUPPLIES@, MASONS_TOOLS@])]
}

/// Returns the proficiencies of the dwarves: one of three sets of artisan's
/// tools.
pub fn proficiencies() -> (r: Vec<Choices<String>>)
    ensures
        r.deep_view() == proficiencies_view(),
{
    let mut tools: Vec<String> = Vec::new();
    tools.push(String::from_str(SMITHS_TOOLS));
    tools.push(String::from_str(BREWERS_SUPPLIES));
    tools.push(String::from_str(MASONS_TOOLS));
    assert(tools.deep_view() =~= seq![SMITHS_TOOLS@, BREWERS_SUPPLIES@, MASONS_TOOLS@]);
    let mut r: Vec<Choices<String>> = Vec::new();
    r.push(Choices::One(tools));
    assert(r.deep_view() =~= proficiencies_view());
    r
}

/// The value of a subrace that adds one increase and one trait to the race.
pub open spec fn subrace_view(
    name: Seq<char>,
    summary: Seq<char>,
    increase: Attribute,
    granted: RacialTraitView,
) -> SubraceView {
    SubraceView {
        name,
        summary: SummaryView { main: summary, subsections: Seq::empty() },
        asi: seq![increase],
        languages: Seq::empty(),
        proficiencies: Seq::empty(),
        traits: seq![granted],
    }
}

/// Returns a subrace that adds one increase and one trait to the race.
fn subrace(name: &str, summary: &str, increase: Attribute, granted: RacialTrait) -> (r: Subrace)
    ensures
        r.deep_view() == subrace_view(name@, summary@, increase, granted.deep_view()),
{
    let mut asi: Vec<Attribute> = Vec::new();
    asi.push(increase);
    let mut traits: Vec<RacialTrait> = Vec::new();
    traits.push(granted);
    let r = Subrace {
        name: String::from_str(name),
        summary: Summary::plain(summary),
        asi,
        languages: Vec::new(),
        proficiencies: Vec::new(),
        traits,
    };
    assert(r.asi@ =~= seq![increase]);
    assert(r.languages.deep_view() =~= Seq::empty());
    assert(r.proficiencies.deep_view() =~= Seq::empty());
    assert(r.traits.deep_view() =~= seq![granted.deep_view()]);
    r
}

/// The value of the hill dwarf.
pub open spec fn hill_dwarf_view() -> SubraceView {
    subrace_view(
        HILL_DWARF_NAME@,
        HILL_DWARF_SUMMARY@,
        Attribute::Wisdom(1),
        RacialTraitView {
            name: DWARVEN_TOUGHNESS_NAME@,
            summary: DWARVEN_TOUGHNESS_SUMMARY@,
            action_type: None,
        },
    )
}

/// Returns the hill dwarf: Wisdom increases by 1, and the trait is Dwarven
/// Toughness.
pub fn hill_dwarf() -> (r: Subrace)
    ensures
        r.deep_view() == hill_dwarf_view(),
{
    subrace(
        HILL_DWARF_NAME,
        HILL_DWARF_SUMMARY,
        Attribute::Wisdom(1),
        RacialTrait::passive(DWARVEN_TOUGHNESS_NAME, DWARVEN_TOUGHNESS_SUMMARY),
    )
}

/// The value of the mountain dwarf.
pub open spec fn mountain_dwarf_view() -> SubraceView {
    subrace_view(
        MOUNTAIN_DWARF_NAME@,
        MOUNTAIN_DWARF_SUMMARY@,
        Attribute::Strength(2),
        RacialTraitView {
            name: DWARVEN_ARMOR_TRAINING_NAME@,
            summary: DWARVEN_ARMOR_TRAINING_SUMMARY@,
            action_type: None,
        },
    )
}

/// Returns the mountain dwarf: Strength increases by 2, and the trait is
/// Dwarven Armor Training.
pub fn mountain_dwarf() -> (r: Subrace)
    ensures
        r.deep_view() == mountain_dwarf_view(),
{
    subrace(
        MOUNTAIN_DWARF_NAME,
        MOUNTAIN_DWARF_SUMMARY,
        Attribute::Strength(2),
        RacialTrait::passive(DWARVEN_ARMOR_TRAINING_NAME, DWARVEN_ARMOR_TRAINING_SUMMARY),
    )
}

/// The value of a trait that takes no part of a turn.
pub open spec fn passive_view(name: Seq<char>, summary: Seq<char>) -> RacialTraitView {
    RacialTraitView { name, summary, action_type: None }
}

/// The value of the traits of the dwarves.
pub open spec fn traits_view() -> Seq<RacialTraitView> {
    seq![
        darkvision_view(),
        passive_view(DWARVEN_SPEED_NAME@, DWARVEN_SPEED_SUMMARY@),
        passive_view(DWARVEN_RESILIENCE_NAME@, DWARVEN_RESILIENCE_SUMMARY@),
        passive_view(DWARVEN_COMBAT_TRAINING_NAME@, DWARVEN_COMBAT_TRAINING_SUMMARY@),
        passive_view(STONECUNNING_NAME@, STONECUNNING_SUMMARY@),
    ]
}

/// Returns the traits of the dwarves, in the order in which they are shown.
pub fn traits() -> (r: Vec<RacialTrait>)
    ensures
        r.deep_view() == traits_view(),
{
    let mut r: Vec<RacialTrait> = Vec::new();
    r.push(darkvision());
    r.push(RacialTrait::passive(DWARVEN_SPEED_NAME, DWARVEN_SPEED_SUMMARY));
    r.push(RacialTrait::passive(DWARVEN_RESILIENCE_NAME, DWARVEN_RESILIENCE_SUMMARY));
    r.push(RacialTrait::passive(DWARVEN_COMBAT_TRAINING_NAME, DWARVEN_COMBAT_TRAINING_SUMMARY));
    r.push(RacialTrait::passive(STONECUNNING_NAME, STONECUNNING_SUMMARY));
    assert(r.deep_view() =~= traits_view());
    r
}

/// The value of the dwarf.
pub open spec fn dwarf_view() -> RaceView {
    RaceView {
        name: NAME@,
        name_plural: NAME_PLURAL@,
        summary: summary_view(),
        asi: seq![Attribute::Constitution(2)],
        age: Age { adult: 50, lifespan: 350 },
        size: size_spec(),
        speed: seq![Speed::Walking(25)],
        languages: languages_view(),
        proficiencies: proficiencies_view(),
        subraces: seq![hill_dwarf_view(), mountain_dwarf_view()],
        traits: traits_view(),
    }
}

/// Returns the dwarf: Constitution increases by 2, adult at 50 and living to
/// 350 years, walking 25 feet, with the hill dwarf and the mountain dwarf as
/// subraces.
pub fn dwarf() -> (r: Race)
    ensures
        r.deep_view() == dwarf_view(),
        r.size.wf(),
{
    let mut asi: Vec<Attribute> = Vec::new();
    asi.push(Attribute::Constitution(2));
    let mut speed: Vec<Speed> = Vec::new();
    speed.push(Speed::Walking(25));
    let mut subraces: Vec<Subrace> = Vec::new();
    subraces.push(hill_dwarf());
    subraces.push(mountain_dwarf());
    let r = Race {
        name: String::from_str(NAME),
        name_plural: String::from_str(NAME_PLURAL),
        summary: summary(),
        asi,
        age: Age { adult: 50, lifespan: 350 },
        size: size(),
        speed,
        languages: languages(),
        proficiencies: proficiencies(),
        subraces,
        traits: traits(),
    };
    assert(r.asi@ =~= seq![Attribute::Constitution(2)]);
    assert(r.speed@ =~= seq![Speed::Walking(25)]);
    assert(r.subraces.deep_view() =~= seq![hill_dwarf_view(), mountain_dwarf_view()]);
    r
}

} // verus!
