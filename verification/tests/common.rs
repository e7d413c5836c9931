use dregg::common::attribute::{AbilityScores, Attribute, ASI};
use dregg::common::language::{Language, LanguageLevel};
use dregg::common::proficiency::{ProficiencyLevel, ProficiencyType, WeaponType};
use dregg::common::size::{Height, Size, SizeCategory, Weight};
use dregg::common::speed::Speed;
use dregg::common::summary::Summary;
use dregg::common::{Choice, Range, RangeTrait, UnderOver};

fn feet(feet: u32, inches: u32) -> Height {
    Height { feet, inches }
}

#[test]
fn ability_scores_start_at_eight() {
    let scores = AbilityScores::default();
    assert_eq!(
        scores,
        AbilityScores {
            strength: 8,
            dexterity: 8,
            constitution: 8,
            intelligence: 8,
            wisdom: 8,
            charisma: 8,
        }
    );
}

#[test]
fn attributes_and_increases_compare_by_value() {
    assert_eq!(Attribute::Wisdom, Attribute::Wisdom);
    assert_ne!(Attribute::Wisdom, Attribute::Charisma);
    assert_eq!(ASI::Any(1), ASI::Any(1));
    assert_ne!(ASI::Strength(2), ASI::Strength(1));
}

#[test]
fn a_proficiency_is_plain_by_default() {
    assert_eq!(ProficiencyLevel::default(), ProficiencyLevel::Proficient);
    assert_ne!(
        ProficiencyType::Weapons(WeaponType::Battleaxe),
        ProficiencyType::Weapons(WeaponType::Handaxe)
    );
}

#[test]
fn language_levels_have_their_words() {
    assert_eq!(LanguageLevel::Speak.text(), "Speak");
    assert_eq!(LanguageLevel::Read.text(), "Read");
    assert_eq!(LanguageLevel::Write.text(), "Write");
    assert_eq!(LanguageLevel::Understand.text(), "Understand");
}

#[test]
fn a_language_is_displayed_with_its_levels() {
    let common = Language {
        name: "Common".to_string(),
        levels: vec![LanguageLevel::Speak, LanguageLevel::Read, LanguageLevel::Write],
    };
    assert_eq!(common.to_string(), "Common (Speak, Read, Write)");
    let heard = Language { name: "Elvish".to_string(), levels: vec![LanguageLevel::Understand] };
    assert_eq!(heard.to_string(), "Elvish (Understand)");
    let unknown = Language { name: "Orc".to_string(), levels: vec![] };
    assert_eq!(unknown.to_string(), "Orc ()");
}

#[test]
fn languages_compare_by_name_and_levels() {
    let a = Language { name: "Common".to_string(), levels: vec![LanguageLevel::Speak] };
    let same = a.clone();
    let other_level = Language { name: "Common".to_string(), levels: vec![LanguageLevel::Read] };
    let more_levels = Language {
        name: "Common".to_string(),
        levels: vec![LanguageLevel::Speak, LanguageLevel::Read],
    };
    let other_name = Language { name: "Dwarvish".to_string(), levels: vec![LanguageLevel::Speak] };
    assert!(a == same);
    assert!(a != other_level);
    assert!(a != more_levels);
    assert!(a != other_name);
}

#[test]
fn speeds_are_described_in_feet() {
    assert_eq!(Speed::Walking(25).text(), "Walking speed of 25 feet.");
    assert_eq!(Speed::Flying(60).text(), "Flying speed of 60 feet.");
    assert_eq!(Speed::Swimming(0).text(), "Swimming speed of 0 feet.");
    assert_eq!(Speed::Climbing(65535).text(), "Climbing speed of 65535 feet.");
    assert_eq!(Speed::Walking(30).to_string(), Speed::Walking(30).text());
}

#[test]
fn size_categories_have_their_names() {
    assert_eq!(SizeCategory::Tiny.text(), "Tiny");
    assert_eq!(SizeCategory::Small.text(), "Small");
    assert_eq!(SizeCategory::Medium.text(), "Medium");
    assert_eq!(SizeCategory::Large.text(), "Large");
    assert_eq!(SizeCategory::Gargantuan.text(), "Gargantuan");
    assert_eq!(SizeCategory::Medium.name(), "Medium");
}

#[test]
fn a_height_is_in_feet_only_without_inches() {
    assert!(feet(4, 0).feet_only());
    assert!(!feet(4, 1).feet_only());
    assert!(feet(0, 0).feet_only());
}

#[test]
fn a_range_is_singular_when_it_starts_where_it_ends() {
    assert!(Range { start: 3u32, end: 3u32 }.is_singular());
    assert!(!Range { start: 3u32, end: 4u32 }.is_singular());
    assert!(Range { start: feet(5, 2), end: feet(5, 2) }.is_singular());
    assert!(!Range { start: feet(5, 2), end: feet(5, 3) }.is_singular());
    assert!(!Range { start: feet(4, 2), end: feet(5, 2) }.is_singular());
    assert!(Range { start: Weight(150), end: Weight(150) }.is_singular());
    assert!(!Range { start: Weight(150), end: Weight(151) }.is_singular());
}

#[test]
fn a_single_height_is_written_once() {
    assert_eq!(Range { start: feet(4, 0), end: feet(4, 0) }.text(), "4 feet");
    assert_eq!(Range { start: feet(5, 7), end: feet(5, 7) }.text(), "5 feet and 7 inches");
}

#[test]
fn a_height_range_is_written_from_start_to_end() {
    assert_eq!(Range { start: feet(4, 0), end: feet(5, 0) }.text(), "4 feet to 5 feet");
    assert_eq!(
        Range { start: feet(4, 6), end: feet(5, 0) }.text(),
        "4 feet and 6 inches to 5 feet"
    );
    assert_eq!(
        Range { start: feet(4, 0), end: feet(5, 11) }.text(),
        "4 feet to 5 feet and 11 inches"
    );
    assert_eq!(
        Range { start: feet(4, 6), end: feet(4, 9) }.text(),
        "4 feet and 6 inches to 4 feet and 9 inches"
    );
}

#[test]
fn a_weight_range_is_written_in_pounds() {
    assert_eq!(Range { start: Weight(150), end: Weight(150) }.text(), "150 pounds");
    assert_eq!(Range { start: Weight(90), end: Weight(200) }.text(), "90 to 200 pounds");
    assert_eq!(Range { start: Weight(0), end: Weight(0) }.text(), "0 pounds");
}

#[test]
fn the_size_sentence_names_what_is_known() {
    let height = || Some(Range { start: feet(4, 0), end: feet(5, 0) });
    let weight = || Some(Range { start: Weight(150), end: Weight(150) });
    let both = Size { category: SizeCategory::Medium, height: height(), weight: weight() };
    assert_eq!(
        both.text("Dwarves"),
        "Dwarves stand at around 4 feet to 5 feet tall and weigh about 150 pounds. Your size is Medium."
    );
    let tall = Size { category: SizeCategory::Large, height: height(), weight: None };
    assert_eq!(
        tall.text("Giants"),
        "Giants stand at around 4 feet to 5 feet tall. Your size is Large."
    );
    let heavy = Size { category: SizeCategory::Small, height: None, weight: weight() };
    assert_eq!(heavy.text("Gnomes"), "Gnomes weight about 150 pounds. Your size is Small.");
    let bare = Size { category: SizeCategory::Tiny, height: None, weight: None };
    assert_eq!(bare.text("Sprites"), "Your size is Tiny.");
}

#[test]
fn ranges_hand_out_their_ends() {
    let range = Range { start: 2u8, end: 9u8 };
    assert_eq!(range.start(), 2);
    assert_eq!(range.end(), 9);
    let outside = UnderOver { under: 10u16, over: 20u16 };
    assert_eq!(outside.start(), 10);
    assert_eq!(outside.end(), 20);
    let named = Range { start: "a".to_string(), end: "z".to_string() };
    assert_eq!(named.start(), "a");
    assert_eq!(named.end(), "z");
}

#[test]
fn a_choice_holds_its_options() {
    let one: Choice<u8> = Choice::OneOf(vec![1, 2]);
    let all: Choice<u8> = Choice::AllOf(vec![1, 2]);
    let single: Choice<u8> = Choice::Single(3);
    assert!(matches!(one, Choice::OneOf(ref options) if options.len() == 2));
    assert!(matches!(all, Choice::AllOf(ref options) if options.len() == 2));
    assert!(matches!(single, Choice::Single(3)));
}

#[test]
fn a_pick_of_one_takes_exactly_one_option() {
    let one: Choice<u8> = Choice::OneOf(vec![10, 20]);
    assert!(one.accepts(&vec![0]));
    assert!(one.accepts(&vec![1]));
    assert!(!one.accepts(&vec![2]));
    assert!(!one.accepts(&vec![]));
    assert!(!one.accepts(&vec![0, 1]));
    let nothing_to_pick: Choice<u8> = Choice::OneOf(vec![]);
    assert!(!nothing_to_pick.accepts(&vec![0]));
    assert!(!nothing_to_pick.accepts(&vec![]));
}

#[test]
fn a_grant_of_all_leaves_nothing_to_pick() {
    let all: Choice<u8> = Choice::AllOf(vec![10, 20]);
    assert!(all.accepts(&vec![]));
    assert!(!all.accepts(&vec![0]));
    let single: Choice<u8> = Choice::Single(3);
    assert!(single.accepts(&vec![]));
    assert!(!single.accepts(&vec![0]));
}

#[test]
fn summaries_compare_by_text_and_subsections() {
    let plain = Summary::plain("main");
    assert_eq!(plain.main, "main");
    assert!(plain.subsections.is_empty());
    let with = Summary {
        main: "main".to_string(),
        subsections: vec![("a".to_string(), "b".to_string())],
    };
    let copy = with.clone();
    assert!(with == copy);
    assert_eq!(copy.subsections, vec![("a".to_string(), "b".to_string())]);
    assert!(with != plain);
    let other_title = Summary {
        main: "main".to_string(),
        subsections: vec![("c".to_string(), "b".to_string())],
    };
    let other_text = Summary {
        main: "main".to_string(),
        subsections: vec![("a".to_string(), "c".to_string())],
    };
    let other_main = Summary {
        main: "other".to_string(),
        subsections: vec![("a".to_string(), "b".to_string())],
    };
    assert!(with != other_title);
    assert!(with != other_text);
    assert!(with != other_main);
}
