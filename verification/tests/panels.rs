use dregg::common::language::{Language, LanguageLevel};
use dregg::common::speed::Speed;
use dregg::common::summary::Summary;
use dregg::frontend::race::{
    asi_section, languages_section, languages_text, proficiencies_section, single_line,
    speed_section, subrace_options, trait_sections, Age, RaceName, RacialTrait, Subrace,
};
use dregg::frontend::races::common::darkvision;
use dregg::frontend::races::dwarf;
use dregg::frontend::utils::{Action, Attribute, Choices};
use dregg::lists::{same_items, same_texts};

fn fluent(name: &str) -> Language {
    Language {
        name: name.to_string(),
        levels: vec![LanguageLevel::Speak, LanguageLevel::Read, LanguageLevel::Write],
    }
}

fn words(items: &[&str]) -> Vec<String> {
    items.iter().map(|item| item.to_string()).collect()
}

#[test]
fn an_increase_on_its_own_line_ends_with_a_line_feed() {
    assert_eq!(Attribute::Strength(2).text(), "Strength score increases by 2.\n");
    assert_eq!(Attribute::Dexterity(1).text(), "Dexterity score increases by 1.\n");
    assert_eq!(Attribute::Constitution(2).text(), "Constitution score increases by 2.\n");
    assert_eq!(Attribute::Intelligence(0).text(), "Intelligence score increases by 0.\n");
    assert_eq!(Attribute::Wisdom(1).text(), "Wisdom score increases by 1.\n");
    assert_eq!(Attribute::Charisma(255).text(), "Charisma score increases by 255.\n");
}

#[test]
fn an_increase_among_others_ends_with_a_space() {
    assert_eq!(Attribute::Constitution(2).to_string(), "Constitution score increases by 2. ");
    assert_eq!(Attribute::Wisdom(10).to_string(), "Wisdom score increases by 10. ");
}

#[test]
fn a_pick_of_one_is_offered_as_a_choice() {
    let choice = Choices::One(words(&["Smith's tools", "Brewer's supplies", "Mason's tools"]));
    assert_eq!(
        choice.text("You gain proficiency with"),
        "You gain proficiency with one of the following of your choice: Smith's tools, Brewer's supplies, Mason's tools."
    );
}

#[test]
fn a_grant_of_all_lists_everything() {
    let choice = Choices::All(words(&["light armor", "medium armor"]));
    assert_eq!(
        choice.text("You gain proficiency with"),
        "You gain proficiency with all of the following: light armor, medium armor."
    );
}

#[test]
fn a_choice_of_nothing_or_of_one_thing_has_no_comma() {
    assert_eq!(Choices::One(words(&[])).text("Pick"), "Pick one of the following of your choice: .");
    assert_eq!(Choices::All(words(&["a"])).text("Take"), "Take all of the following: a.");
    assert_eq!(Choices::All(words(&["a"])).text(""), " all of the following: a.");
}

#[test]
fn choices_take_one_pick_or_none() {
    let one = Choices::One(words(&["a", "b"]));
    assert!(one.accepts(&vec![1]));
    assert!(!one.accepts(&vec![2]));
    assert!(!one.accepts(&vec![]));
    assert!(!one.accepts(&vec![0, 1]));
    let all = Choices::All(words(&["a", "b"]));
    assert!(all.accepts(&vec![]));
    assert!(!all.accepts(&vec![0]));
}

#[test]
fn choices_compare_by_kind_and_options() {
    let one = Choices::One(words(&["a", "b"]));
    assert!(one == one.clone());
    assert!(one != Choices::All(words(&["a", "b"])));
    assert!(one != Choices::One(words(&["a"])));
    assert!(one != Choices::One(words(&["a", "c"])));
    assert!(Choices::All(words(&[])) == Choices::All(words(&[])));
}

#[test]
fn lists_are_the_same_when_every_item_is() {
    assert!(same_texts(&words(&["a", "b"]), &words(&["a", "b"])));
    assert!(!same_texts(&words(&["a", "b"]), &words(&["b", "a"])));
    assert!(!same_texts(&words(&["a"]), &words(&["a", "b"])));
    assert!(same_texts(&words(&[]), &words(&[])));
    assert!(same_items(&vec![fluent("Common")], &vec![fluent("Common")]));
    assert!(!same_items(&vec![fluent("Common")], &vec![fluent("Dwarvish")]));
    assert!(!same_items(&vec![fluent("Common")], &vec![]));
}

#[test]
fn the_age_sentence_names_adulthood_and_lifespan() {
    let age = Age { adult: 50, lifespan: 350 };
    assert_eq!(
        age.text("Dwarves"),
        "Dwarves are considered adults at 50 years old. On average, they live to 350 years."
    );
    assert_eq!(
        Age { adult: 0, lifespan: 0 }.text(""),
        " are considered adults at 0 years old. On average, they live to 0 years."
    );
}

#[test]
fn one_language_comes_after_and() {
    assert_eq!(languages_text(&vec![fluent("Common")]), "You know and Common (Speak, Read, Write).");
}

#[test]
fn two_languages_are_joined_by_and() {
    assert_eq!(
        languages_text(&vec![fluent("Common"), fluent("Dwarvish")]),
        "You know Common (Speak, Read, Write) and Dwarvish (Speak, Read, Write)."
    );
}

#[test]
fn more_than_two_languages_get_commas() {
    let heard = Language { name: "Elvish".to_string(), levels: vec![LanguageLevel::Understand] };
    assert_eq!(
        languages_text(&vec![fluent("Common"), fluent("Dwarvish"), heard]),
        "You know , Common (Speak, Read, Write) , Dwarvish (Speak, Read, Write) and Elvish (Understand)."
    );
}

#[test]
fn no_language_leaves_the_sentence_open() {
    assert_eq!(languages_text(&vec![]), "You know ");
}

#[test]
fn empty_lists_give_no_section() {
    assert!(asi_section(&vec![]).is_none());
    assert!(speed_section(&vec![]).is_none());
    assert!(proficiencies_section(&vec![]).is_none());
    assert!(languages_section(&vec![]).is_none());
    assert!(trait_sections(&vec![]).is_empty());
}

#[test]
fn sections_hold_one_line_for_each_item() {
    let asi = asi_section(&vec![Attribute::Strength(2), Attribute::Wisdom(1)]).unwrap();
    assert_eq!(asi.heading, "Ability Score Increase: ");
    assert_eq!(asi.lines, words(&["Strength score increases by 2. ", "Wisdom score increases by 1. "]));

    let speed = speed_section(&vec![Speed::Walking(25), Speed::Swimming(10)]).unwrap();
    assert_eq!(speed.heading, "Speed: ");
    assert_eq!(speed.lines, words(&["Walking speed of 25 feet.", "Swimming speed of 10 feet."]));

    let proficiencies =
        proficiencies_section(&vec![Choices::One(words(&["a", "b"])), Choices::All(words(&["c"]))])
            .unwrap();
    assert_eq!(proficiencies.heading, "Proficiencies: ");
    assert_eq!(
        proficiencies.lines,
        words(&[
            "You gain proficiency with one of the following of your choice: a, b.",
            "You gain proficiency with all of the following: c.",
        ])
    );

    let languages = languages_section(&vec![fluent("Common")]).unwrap();
    assert_eq!(languages.heading, "Languages: ");
    assert_eq!(languages.lines, words(&["You know and Common (Speak, Read, Write)."]));

    let line = single_line("Age: ", "old".to_string());
    assert_eq!(line.heading, "Age: ");
    assert_eq!(line.lines, words(&["old"]));
}

#[test]
fn a_trait_is_headed_by_its_name() {
    let speedy = RacialTrait::passive("Dwarven Speed", "Your speed is not reduced by wearing heavy armor.");
    assert_eq!(speedy.action_type, None);
    let section = speedy.section();
    assert_eq!(section.heading, "Dwarven Speed: ");
    assert_eq!(section.lines, words(&["Your speed is not reduced by wearing heavy armor."]));

    let sections = trait_sections(&vec![speedy.clone(), darkvision()]);
    assert_eq!(sections.len(), 2);
    assert_eq!(sections[0].heading, "Dwarven Speed: ");
    assert_eq!(sections[1].heading, "Darkvision: ");
    assert_eq!(sections[1].lines, vec![darkvision().summary]);
}

#[test]
fn traits_compare_by_name_summary_and_action() {
    let quiet = RacialTrait::passive("a", "b");
    assert!(quiet == quiet.clone());
    assert!(quiet != RacialTrait::passive("a", "c"));
    assert!(quiet != RacialTrait::passive("c", "b"));
    let active = RacialTrait {
        name: "a".to_string(),
        summary: "b".to_string(),
        action_type: Some(Action::BonusAction),
    };
    assert!(quiet != active);
    assert!(active == active.clone());
    let reacting = RacialTrait {
        name: "a".to_string(),
        summary: "b".to_string(),
        action_type: Some(Action::Reaction),
    };
    assert!(active != reacting);
}

#[test]
fn darkvision_is_a_passive_trait() {
    let trait_ = darkvision();
    assert_eq!(trait_.name, "Darkvision");
    assert_eq!(
        trait_.summary,
        "You can see in dim light within 60 feet of you as if it were bright light, and in darkness as if it were dim light. You can’t discern color in darkness, only shades of gray."
    );
    assert_eq!(trait_.action_type, None);
}

#[test]
fn the_hill_dwarf_adds_wisdom_and_toughness() {
    let hill = dwarf::hill_dwarf();
    assert_eq!(hill.name, "Hill Dwarf");
    assert!(hill.summary.main.starts_with("As a hill dwarf, you have keen senses"));
    assert!(hill.summary.main.ends_with("in the Dragonlance setting."));
    assert!(hill.summary.subsections.is_empty());
    assert_eq!(hill.asi, vec![Attribute::Wisdom(1)]);
    assert!(hill.languages.is_empty());
    assert!(hill.proficiencies.is_empty());
    assert_eq!(hill.traits.len(), 1);
    assert_eq!(hill.traits[0].name, "Dwarven Toughness");
    assert_eq!(
        hill.traits[0].summary,
        "Your hit point maximum increases by 1, and it increases by 1 every time you gain a level."
    );
}

#[test]
fn the_mountain_dwarf_adds_strength_and_armor_training() {
    let mountain = dwarf::mountain_dwarf();
    assert_eq!(mountain.name, "Mountain Dwarf");
    assert!(mountain.summary.main.starts_with("As a mountain dwarf, you’re strong and hardy"));
    assert_eq!(mountain.asi, vec![Attribute::Strength(2)]);
    assert_eq!(mountain.traits.len(), 1);
    assert_eq!(mountain.traits[0].name, "Dwarven Armor Training");
    assert_eq!(mountain.traits[0].summary, "You have proficiency with light and medium armor");
}

#[test]
fn the_dwarf_holds_its_reference_data() {
    let race = dwarf::dwarf();
    assert_eq!(race.name, "Dwarf");
    assert_eq!(race.name_plural, "Dwarves");
    assert_eq!(race.asi, vec![Attribute::Constitution(2)]);
    assert_eq!(race.age, Age { adult: 50, lifespan: 350 });
    assert_eq!(race.speed, vec![Speed::Walking(25)]);
    assert!(race.languages == vec![fluent("Common"), fluent("Dwarvish")]);
    assert!(
        race.proficiencies
            == vec![Choices::One(words(&["Smith's tools", "Brewer's supplies", "Mason's tools"]))]
    );
    assert!(race.subraces == vec![dwarf::hill_dwarf(), dwarf::mountain_dwarf()]);
    let names: Vec<&str> = race.traits.iter().map(|t| t.name.as_str()).collect();
    assert_eq!(
        names,
        vec![
            "Darkvision",
            "Dwarven Speed",
            "Dwarven Resilience",
            "Dwarven Combat Training",
            "Stonecunning"
        ]
    );
    assert!(race.traits == dwarf::traits());
    assert!(race.summary == dwarf::summary());
    assert!(race.languages == dwarf::languages());
    assert!(race.proficiencies == dwarf::proficiencies());
}

#[test]
fn the_dwarf_summary_has_five_subsections_in_order() {
    let summary = dwarf::summary();
    assert!(summary.main.starts_with("Kingdoms rich in ancient grandeur"));
    assert!(summary.main.ends_with("these common threads unite all dwarves."));
    let titles: Vec<&str> = summary.subsections.iter().map(|(title, _)| title.as_str()).collect();
    assert_eq!(
        titles,
        vec![
            "Short and Stout",
            "Long Memory, Long Grudges",
            "Clans and Kingdoms",
            "Gods, Gold, and Clan",
            "Dwarf Names"
        ]
    );
    assert!(summary.subsections[0].1.starts_with("Bold and hardy, dwarves are known"));
    assert!(summary.subsections[0].1.contains("larger folk.\n\n\n        Dwarven skin ranges"));
    assert!(summary.subsections[4].1.ends_with("Torunn, Ungart"));
}

#[test]
fn the_dwarf_size_is_in_order() {
    let size = dwarf::size();
    let height = size.height.unwrap();
    let weight = size.weight.unwrap();
    assert!(height.start.feet * 12 + height.start.inches <= height.end.feet * 12 + height.end.inches);
    assert!(weight.start.0 <= weight.end.0);
    assert_eq!(height.text(), "4 feet to 5 feet");
    assert_eq!(weight.text(), "150 pounds");
}

#[test]
fn the_subrace_panel_shows_what_the_subrace_adds() {
    let hill = dwarf::hill_dwarf();
    let info = hill.info();
    assert_eq!(info.title, "Hill Dwarf");
    assert!(info.summary == hill.summary);
    let asi = info.asi.unwrap();
    assert_eq!(asi.heading, "Ability Score Increase: ");
    assert_eq!(asi.lines, words(&["Wisdom score increases by 1. "]));
    assert!(info.proficiencies.is_none());
    assert!(info.languages.is_none());
    assert_eq!(info.traits.len(), 1);
    assert_eq!(info.traits[0].heading, "Dwarven Toughness: ");
}

#[test]
fn the_race_summary_text_round_trips_unchanged() {
    let race = dwarf::dwarf();
    let info = race.info(None);
    assert_eq!(info.summary.main, race.summary.main);
    assert_eq!(info.summary.subsections, race.summary.subsections);
    assert!(info.summary == dwarf::summary());
}

#[test]
fn the_race_panel_shows_every_section_of_the_dwarf() {
    let race = dwarf::dwarf();
    let info = race.info(None);
    assert_eq!(info.title, "Dwarf");
    let asi = info.asi.unwrap();
    assert_eq!(asi.lines, words(&["Constitution score increases by 2. "]));
    assert_eq!(info.age.heading, "Age: ");
    assert_eq!(
        info.age.lines,
        words(&["Dwarves are considered adults at 50 years old. On average, they live to 350 years."])
    );
    assert_eq!(info.size.heading, "Size: ");
    assert_eq!(
        info.size.lines,
        words(&["Dwarves stand at around 4 feet to 5 feet tall and weigh about 150 pounds. Your size is Medium."])
    );
    assert_eq!(info.speed.unwrap().lines, words(&["Walking speed of 25 feet."]));
    assert_eq!(
        info.proficiencies.unwrap().lines,
        words(&["You gain proficiency with one of the following of your choice: Smith's tools, Brewer's supplies, Mason's tools."])
    );
    assert_eq!(info.traits.len(), 5);
    assert_eq!(info.traits[0].heading, "Darkvision: ");
    assert_eq!(info.traits[4].heading, "Stonecunning: ");
    assert_eq!(
        info.languages.unwrap().lines,
        words(&["You know Common (Speak, Read, Write) and Dwarvish (Speak, Read, Write)."])
    );
    let picker = info.subraces.unwrap();
    assert_eq!(picker.heading, "Select a new subrace: ");
    let labels: Vec<(&str, bool)> =
        picker.options.iter().map(|o| (o.label.as_str(), o.selected)).collect();
    assert_eq!(labels, vec![("Hill Dwarf", false), ("Mountain Dwarf", false)]);
    assert!(picker.selected.is_none());
}

#[test]
fn the_race_panel_marks_and_shows_the_subrace_picked() {
    let race = dwarf::dwarf();
    let mountain = dwarf::mountain_dwarf();
    let picker = race.info(Some(&mountain)).subraces.unwrap();
    let marks: Vec<bool> = picker.options.iter().map(|o| o.selected).collect();
    assert_eq!(marks, vec![false, true]);
    let shown = picker.selected.unwrap();
    assert_eq!(shown.title, "Mountain Dwarf");
    assert_eq!(shown.asi.unwrap().lines, words(&["Strength score increases by 2. "]));
}

#[test]
fn a_race_without_subraces_has_no_subrace_list() {
    let mut race = dwarf::dwarf();
    race.subraces.clear();
    race.asi.clear();
    race.speed.clear();
    race.proficiencies.clear();
    race.languages.clear();
    race.traits.clear();
    let hill = dwarf::hill_dwarf();
    let info = race.info(Some(&hill));
    assert!(info.subraces.is_none());
    assert!(info.asi.is_none());
    assert!(info.speed.is_none());
    assert!(info.proficiencies.is_none());
    assert!(info.languages.is_none());
    assert!(info.traits.is_empty());
    assert_eq!(info.age.lines.len(), 1);
    assert_eq!(info.size.lines.len(), 1);
}

#[test]
fn subrace_options_mark_only_the_subrace_picked() {
    let subraces = vec![dwarf::hill_dwarf(), dwarf::mountain_dwarf()];
    let hill = dwarf::hill_dwarf();
    let marks: Vec<bool> =
        subrace_options(&subraces, Some(&hill)).iter().map(|o| o.selected).collect();
    assert_eq!(marks, vec![true, false]);
    let mut stranger = dwarf::hill_dwarf();
    stranger.name = "Deep Dwarf".to_string();
    let marks: Vec<bool> =
        subrace_options(&subraces, Some(&stranger)).iter().map(|o| o.selected).collect();
    assert_eq!(marks, vec![false, false]);
    assert!(subrace_options(&vec![], Some(&hill)).is_empty());
}

#[test]
fn subraces_compare_by_everything_they_hold() {
    let hill = dwarf::hill_dwarf();
    assert!(hill == hill.clone());
    assert!(hill != dwarf::mountain_dwarf());
    let change = |edit: &dyn Fn(&mut Subrace)| {
        let mut other = dwarf::hill_dwarf();
        edit(&mut other);
        other
    };
    assert!(hill != change(&|s| s.name.push('!')));
    assert!(hill != change(&|s| s.summary = Summary::plain("other")));
    assert!(hill != change(&|s| s.asi.push(Attribute::Wisdom(1))));
    assert!(hill != change(&|s| s.asi[0] = Attribute::Wisdom(2)));
    assert!(hill != change(&|s| s.languages.push(fluent("Common"))));
    assert!(hill != change(&|s| s.proficiencies.push(Choices::All(vec![]))));
    assert!(hill != change(&|s| s.traits.clear()));
}

#[test]
fn a_race_knows_its_subraces() {
    let race = dwarf::dwarf();
    assert!(race.has_subrace(&dwarf::hill_dwarf()));
    assert!(race.has_subrace(&dwarf::mountain_dwarf()));
    let mut stranger = dwarf::hill_dwarf();
    stranger.name = "Deep Dwarf".to_string();
    assert!(!race.has_subrace(&stranger));
}

#[test]
fn race_names_map_to_their_races() {
    assert_eq!(RaceName::ALL, [RaceName::Dwarf]);
    assert_eq!(RaceName::Dwarf.to_string(), "Dwarf");
    assert_eq!(RaceName::from_name("Dwarf"), Some(RaceName::Dwarf));
    assert_eq!(RaceName::from_name("dwarf"), None);
    assert_eq!(RaceName::from_name("Elf"), None);
    assert_eq!(RaceName::from_name(""), None);
    assert_eq!(RaceName::Dwarf.race().name, "Dwarf");
    let races = RaceName::races();
    assert_eq!(races.len(), 1);
    assert_eq!(races[0].name, "Dwarf");
    for name in RaceName::ALL {
        assert_eq!(RaceName::from_name(&name.to_string()), Some(name));
        assert_eq!(name.race().name, name.to_string());
    }
}
