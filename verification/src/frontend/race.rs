//! The races a character can be, as the pages show them.

use vstd::prelude::*;
use vstd::std_specs::cmp::PartialEqSpecImpl;
use crate::common::language::LanguageView;
use crate::common::summary::SummaryView;
use crate::frontend::utils::{
    Action, Attribute, Choices, ChoicesView, Language, Speed, Summary,
};
use crate::frontend::panel::{
    RaceInfo, RaceInfoView, RadioOption, RadioOptionView, Section, SectionView, SubraceInfo,
    SubraceInfoView, SubracePicker, SubracePickerView,
};
use crate::frontend::races::dwarf;
use crate::frontend::races::dwarf::{dwarf, dwarf_view};
use crate::lists::{lemma_deep_view_eq, lemma_deep_view_push, same_items};
use crate::text::{decimal, push_decimal};

pub use crate::common::size::{Height, Size, Weight};

verus! {

/// A trait granted by a race or by a subrace.
#[derive(Debug)]
pub struct RacialTrait {
    /// The name of the trait.
    pub name: String,
    /// What the trait does, in words.
    pub summary: String,
    /// How much of a turn the use of the trait takes, if it takes any.
    pub action_type: Option<Action>,
}

/// The mathematical value of a [`RacialTrait`].
pub struct RacialTraitView {
    pub name: Seq<char>,
    pub summary: Seq<char>,
    pub action_type: Option<Action>,
}

impl DeepView for RacialTrait {
    type V = RacialTraitView;

    open spec fn deep_view(&self) -> RacialTraitView {
        RacialTraitView {
            name: self.name@,
            summary: self.summary@,
            action_type: self.action_type,
        }
    }
}

impl RacialTrait {
    /// Returns a trait that takes no part of a turn.
    pub fn passive(name: &str, summary: &str) -> (r: RacialTrait)
        ensures
            r.deep_view() == (RacialTraitView {
                name: name@,
                summary: summary@,
                action_type: None,
            }),
    {
        RacialTrait {
            name: String::from_str(name),
            summary: String::from_str(summary),
            action_type: None,
        }
    }
}

impl Clone for RacialTrait {
    fn clone(&self) -> (r: RacialTrait)
        ensures
            r.deep_view() == self.deep_view(),
    {
        let action_type = match &self.action_type {
            Some(action) => Some(*action),
            None => None,
        };
        RacialTrait { name: self.name.clone(), summary: self.summary.clone(), action_type }
    }
}

impl PartialEq for RacialTrait {
    fn eq(&self, other: &RacialTrait) -> (r: bool) {
        let same_action = match (&self.action_type, &other.action_type) {
            (Some(a), Some(b)) => *a == *b,
            (None, None) => true,
            _ => false,
        };
        same_action && self.name == other.name && self.summary == other.summary
    }
}

impl Eq for RacialTrait {

}

impl PartialEqSpecImpl for RacialTrait {
    open spec fn obeys_eq_spec() -> bool {
        true
    }

    open spec fn eq_spec(&self, other: &RacialTrait) -> bool {
        self.deep_view() == other.deep_view()
    }
}

/// The ages that mark the life of the members of a race, in years.
#[derive(Debug, Clone, Copy, PartialEq, Eq, Structural)]
pub struct Age {
    /// The age from which a member counts as an adult.
    pub adult: u16,
    /// The age that a member reaches on average.
    pub lifespan: u16,
}

/// A specialization of a race.
#[derive(Debug)]
pub struct Subrace {
    /// The name of the subrace.
    pub name: String,
    /// The description of the subrace.
    pub summary: Summary,
    /// The ability score increases that the subrace adds.
    pub asi: Vec<Attribute>,
    /// The languages that the subrace adds.
    pub languages: Vec<Language>,
    /// The proficiencies that the subrace adds.
    pub proficiencies: Vec<Choices<String>>,
    /// The traits that the subrace adds.
    pub traits: Vec<RacialTrait>,
}

/// The mathematical value of a [`Subrace`].
pub struct SubraceView {
    pub name: Seq<char>,
    pub summary: SummaryView,
    pub asi: Seq<Attribute>,
    pub languages: Seq<LanguageView>,
    pub proficiencies: Seq<ChoicesView<Seq<char>>>,
    pub traits: Seq<RacialTraitView>,
}

impl DeepView for Subrace {
    type V = SubraceView;

    open spec fn deep_view(&self) -> SubraceView {
        SubraceView {
            name: self.name@,
            summary: self.summary.deep_view(),
            asi: self.asi@,
            languages: self.languages.deep_view(),
            proficiencies: self.proficiencies.deep_view(),
            traits: self.traits.deep_view(),
        }
    }
}

impl Clone for Subrace {
    fn clone(&self) -> (r: Subrace)
        ensures
            r.deep_view() == self.deep_view(),
    {
        let r = Subrace {
            name: self.name.clone(),
            summary: self.summary.clone(),
            asi: self.asi.clone(),
            languages: self.languages.clone(),
            proficiencies: self.proficiencies.clone(),
            traits: self.traits.clone(),
        };
        proof {
            assert(r.asi@ =~= self.asi@);
            lemma_deep_view_eq(self.languages, r.languages);
            lemma_deep_view_eq(self.proficiencies, r.proficiencies);
            lemma_deep_view_eq(self.traits, r.traits);
        }
        r
    }
}

/// Returns `true` if the two lists hold the same increases in the same order.
fn same_increases(a: &Vec<Attribute>, b: &Vec<Attribute>) -> (r: bool)
    ensures
        r == (a@ == b@),
{
    if a.len() != b.len() {
        return false;
    }
    let mut i: usize = 0;
    while i < a.len()
        invariant
            i <= a.len(),
            a.len() == b.len(),
            forall|j: int| 0 <= j < i ==> a@[j] == b@[j],
        decreases a.len() - i,
    {
        if a[i] != b[i] {
            return false;
        }
        i += 1;
    }
    assert(a@ =~= b@);
    true
}

impl PartialEq for Subrace {
    fn eq(&self, other: &Subrace) -> (r: bool) {
        self.name == other.name && self.summary == other.summary && same_increases(
            &self.asi,
            &other.asi,
        ) && same_items(&self.languages, &other.languages) && same_items(
            &self.proficiencies,
            &other.proficiencies,
        ) && same_items(&self.traits, &other.traits)
    }
}

impl Eq for Subrace {

}

impl PartialEqSpecImpl for Subrace {
    open spec fn obeys_eq_spec() -> bool {
        true
    }

    open spec fn eq_spec(&self, other: &Subrace) -> bool {
        self.deep_view() == other.deep_view()
    }
}

/// A race a character can be.
#[derive(Debug)]
pub struct Race {
    /// The name of the race.
    pub name: String,
    /// The name of the race in the plural.
    pub name_plural: String,
    /// The description of the race.
    pub summary: Summary,
    /// The ability score increases that the race gives.
    pub asi: Vec<Attribute>,
    /// The ages that mark the life of its members.
    pub age: Age,
    /// The size of its members.
    pub size: Size,
    /// The speeds of its members.
    pub speed: Vec<Speed>,
    /// The languages that its members know.
    pub languages: Vec<Language>,
    /// The proficiencies that the race gives.
    pub proficiencies: Vec<Choices<String>>,
    /// The subraces among which a member chooses; there may be none.
    pub subraces: Vec<Subrace>,
    /// The traits that the race gives.
    pub traits: Vec<RacialTrait>,
}

/// The mathematical value of a [`Race`].
pub struct RaceView {
    pub name: Seq<char>,
    pub name_plural: Seq<char>,
    pub summary: SummaryView,
    pub asi: Seq<Attribute>,
    pub age: Age,
    pub size: Size,
    pub speed: Seq<Speed>,
    pub languages: Seq<LanguageView>,
    pub proficiencies: Seq<ChoicesView<Seq<char>>>,
    pub subraces: Seq<SubraceView>,
    pub traits: Seq<RacialTraitView>,
}

impl DeepView for Race {
    type V = RaceView;

    open spec fn deep_view(&self) -> RaceView {
        RaceView {
            name: self.name@,
            name_plural: self.name_plural@,
            summary: self.summary.deep_view(),
            asi: self.asi@,
            age: self.age,
            size: self.size,
            speed: self.speed@,
            languages: self.languages.deep_view(),
            proficiencies: self.proficiencies.deep_view(),
            subraces: self.subraces.deep_view(),
            traits: self.traits.deep_view(),
        }
    }
}

impl Age {
    /// The sentence on the ages of a race named `name_plural`.
    pub open spec fn text_spec(self, name_plural: Seq<char>) -> Seq<char> {
        name_plural + " are considered adults at "@ + decimal(self.adult as nat)
            + " years old. On average, they live to "@ + decimal(self.lifespan as nat)
            + " years."@
    }

    /// Returns the sentence on the ages of a race named `name_plural`.
    pub fn text(&self, name_plural: &str) -> (s: String)
        ensures
            s@ == self.text_spec(name_plural@),
    {
        let mut s = String::from_str(name_plural);
        s.append(" are considered adults at ");
        push_decimal(&mut s, self.adult as u64);
        s.append(" years old. On average, they live to ");
        push_decimal(&mut s, self.lifespan as u64);
        s.append(" years.");
        s
    }
}

/// A section that holds the one line `line` under `heading`.
pub open spec fn single_line_spec(heading: Seq<char>, line: Seq<char>) -> SectionView {
    SectionView { heading, lines: seq![line] }
}

/// Returns a section that holds the one line `line` under `heading`.
pub fn single_line(heading: &str, line: String) -> (r: Section)
    ensures
        r.deep_view() == single_line_spec(heading@, line@),
{
    let mut lines: Vec<String> = Vec::new();
    lines.push(line);
    let r = Section { heading: String::from_str(heading), lines };
    assert(r.lines.deep_view() =~= seq![line@]);
    r
}

/// The lines on a list of increases: each increase as it is displayed.
pub open spec fn increase_lines(asi: Seq<Attribute>) -> Seq<Seq<char>> {
    Seq::new(asi.len(), |i: int| asi[i].display_spec())
}

/// The section on the ability score increases: nothing for an empty list,
/// else one line for each increase.
pub open spec fn asi_section_spec(asi: Seq<Attribute>) -> Option<SectionView> {
    if asi.len() > 0 {
        Some(SectionView { heading: "Ability Score Increase: "@, lines: increase_lines(asi) })
    } else {
        None
    }
}

/// Returns the section on the ability score increases, if there are any.
pub fn asi_section(asi: &Vec<Attribute>) -> (r: Option<Section>)
    ensures
        r.deep_view() == asi_section_spec(asi@),
{
    if asi.len() == 0 {
        return None;
    }
    let mut lines: Vec<String> = Vec::new();
    let mut i: usize = 0;
    while i < asi.len()
        invariant
            i <= asi.len(),
            lines.deep_view() == increase_lines(asi@.take(i as int)),
        decreases asi.len() - i,
    {
        let ghost before = lines;
        let line = asi[i].to_string();
        lines.push(line);
        proof {
            lemma_deep_view_push(before, lines, line);
            assert(increase_lines(asi@.take(i + 1)) =~= increase_lines(asi@.take(i as int)).push(
                asi@[i as int].display_spec(),
            ));
        }
        i += 1;
    }
    assert(asi@.take(i as int) =~= asi@);
    Some(Section { heading: String::from_str("Ability Score Increase: "), lines })
}

/// The lines on a list of speeds: the sentence on each speed.
pub open spec fn speed_lines(speed: Seq<Speed>) -> Seq<Seq<char>> {
    Seq::new(speed.len(), |i: int| speed[i].text_spec())
}

/// The section on the speeds: nothing for an empty list, else one line for
/// each speed.
pub open spec fn speed_section_spec(speed: Seq<Speed>) -> Option<SectionView> {
    if speed.len() > 0 {
        Some(SectionView { heading: "Speed: "@, lines: speed_lines(speed) })
    } else {
        None
    }
}

/// Returns the section on the speeds, if there are any.
pub fn speed_section(speed: &Vec<Speed>) -> (r: Option<Section>)
    ensures
        r.deep_view() == speed_section_spec(speed@),
{
    if speed.len() == 0 {
        return None;
    }
    let mut lines: Vec<String> = Vec::new();
    let mut i: usize = 0;
    while i < speed.len()
        invariant
            i <= speed.len(),
            lines.deep_view() == speed_lines(speed@.take(i as int)),
        decreases speed.len() - i,
    {
        let ghost before = lines;
        let line = speed[i].to_string();
        lines.push(line);
        proof {
            lemma_deep_view_push(before, lines, line);
            assert(speed_lines(speed@.take(i + 1)) =~= speed_lines(speed@.take(i as int)).push(
                speed@[i as int].text_spec(),
            ));
        }
        i += 1;
    }
    assert(speed@.take(i as int) =~= speed@);
    Some(Section { heading: String::from_str("Speed: "), lines })
}

/// The lines on a list of proficiency choices: the sentence that offers each
/// choice.
pub open spec fn proficiency_lines(choices: Seq<ChoicesView<Seq<char>>>) -> Seq<Seq<char>> {
    Seq::new(choices.len(), |i: int| choices[i].text("You gain proficiency with"@))
}

/// The section on the proficiencies: nothing for an empty list, else one line
/// for each choice.
pub open spec fn proficiencies_section_spec(choices: Seq<ChoicesView<Seq<char>>>) -> Option<
    SectionView,
> {
    if choices.len() > 0 {
        Some(SectionView { heading: "Proficiencies: "@, lines: proficiency_lines(choices) })
    } else {
        None
    }
}

/// Returns the section on the proficiencies, if there are any.
pub fn proficiencies_section(choices: &Vec<Choices<String>>) -> (r: Option<Section>)
    ensures
        r.deep_view() == proficiencies_section_spec(choices.deep_view()),
{
    if choices.len() == 0 {
        assert(choices.deep_view().len() == 0);
        return None;
    }
    let ghost all = choices.deep_view();
    let mut lines: Vec<String> = Vec::new();
    let mut i: usize = 0;
    while i < choices.len()
        invariant
            i <= choices.len(),
            all == choices.deep_view(),
            lines.deep_view() == proficiency_lines(all.take(i as int)),
        decreases choices.len() - i,
    {
        let ghost before = lines;
        let line = choices[i].text("You gain proficiency with");
        lines.push(line);
        proof {
            lemma_deep_view_push(before, lines, line);
            assert(all[i as int] == choices@[i as int].deep_view());
            assert(proficiency_lines(all.take(i + 1)) =~= proficiency_lines(
                all.take(i as int),
            ).push(all[i as int].text("You gain proficiency with"@)));
        }
        i += 1;
    }
    assert(all.take(i as int) =~= all);
    assert(all.len() > 0);
    Some(Section { heading: String::from_str("Proficiencies: "), lines })
}

impl RacialTraitView {
    /// The section on the trait: its name and a colon as the heading, its
    /// summary as the one line.
    pub open spec fn section(self) -> SectionView {
        single_line_spec(self.name + ": "@, self.summary)
    }
}

impl RacialTrait {
    /// Returns the section on the trait.
    pub fn section(&self) -> (r: Section)
        ensures
            r.deep_view() == self.deep_view().section(),
    {
        let mut heading = self.name.clone();
        heading.append(": ");
        single_line(heading.as_str(), self.summary.clone())
    }
}

/// The sections on a list of traits: one for each trait, in the same order.
pub open spec fn trait_sections_spec(traits: Seq<RacialTraitView>) -> Seq<SectionView> {
    Seq::new(traits.len(), |i: int| traits[i].section())
}

/// Returns the sections on a list of traits.
pub fn trait_sections(traits: &Vec<RacialTrait>) -> (r: Vec<Section>)
    ensures
        r.deep_view() == trait_sections_spec(traits.deep_view()),
{
    let ghost all = traits.deep_view();
    let mut sections: Vec<Section> = Vec::new();
    let mut i: usize = 0;
    while i < traits.len()
        invariant
            i <= traits.len(),
            all == traits.deep_view(),
            sections.deep_view() == trait_sections_spec(all.take(i as int)),
        decreases traits.len() - i,
    {
        let ghost before = sections;
        let section = traits[i].section();
        sections.push(section);
        proof {
            lemma_deep_view_push(before, sections, section);
            assert(all[i as int] == traits@[i as int].deep_view());
            assert(trait_sections_spec(all.take(i + 1)) =~= trait_sections_spec(
                all.take(i as int),
            ).push(all[i as int].section()));
        }
        i += 1;
    }
    assert(all.take(i as int) =~= all);
    sections
}

/// What the list of known languages holds for the language at index `i`:
/// the last language comes after "and " and ends the sentence; each other one
/// is followed by a space, and comes after ", " where the list has more than
/// two languages.
pub open spec fn language_entry(languages: Seq<LanguageView>, i: int) -> Seq<char> {
    if i == languages.len() - 1 {
        "and "@ + languages[i].display() + "."@
    } else if languages.len() > 2 {
        ", "@ + languages[i].display() + " "@
    } else {
        languages[i].display() + " "@
    }
}

/// The entries of the first `count` languages, one after another.
pub open spec fn language_entries(languages: Seq<LanguageView>, count: nat) -> Seq<char>
    decreases count,
{
    if count == 0 {
        Seq::empty()
    } else {
        language_entries(languages, (count - 1) as nat) + language_entry(languages, count - 1)
    }
}

/// The sentence that lists the languages a character knows.
pub open spec fn languages_text_spec(languages: Seq<LanguageView>) -> Seq<char> {
    "You know "@ + language_entries(languages, languages.len())
}

/// Returns the sentence that lists the languages a character knows.
pub fn languages_text(languages: &Vec<Language>) -> (s: String)
    ensures
        s@ == languages_text_spec(languages.deep_view()),
{
    let ghost all = languages.deep_view();
    let count = languages.len();
    let mut s = String::from_str("You know ");
    let mut i: usize = 0;
    while i < count
        invariant
            i <= count,
            count == languages.len(),
            all == languages.deep_view(),
            s@ == "You know "@ + language_entries(all, i as nat),
        decreases count - i,
    {
        let ghost before = s@;
        let shown = languages[i].to_string();
        assert(all[i as int] == languages@[i as int].deep_view());
        if i == count - 1 {
            s.append("and ");
            s.append(shown.as_str());
            s.append(".");
        } else {
            if count > 2 {
                s.append(", ");
            }
            s.append(shown.as_str());
            s.append(" ");
        }
        assert(s@ =~= before + language_entry(all, i as int));
        assert(s@ =~= "You know "@ + language_entries(all, (i + 1) as nat));
        i += 1;
    }
    s
}

/// The section on the languages: nothing for an empty list, else the
/// sentence that lists them.
pub open spec fn languages_section_spec(languages: Seq<LanguageView>) -> Option<SectionView> {
    if languages.len() > 0 {
        Some(single_line_spec("Languages: "@, languages_text_spec(languages)))
    } else {
        None
    }
}

/// Returns the section on the languages, if there are any.
pub fn languages_section(languages: &Vec<Language>) -> (r: Option<Section>)
    ensures
        r.deep_view() == languages_section_spec(languages.deep_view()),
{
    assert(languages.deep_view().len() == languages@.len());
    if languages.len() == 0 {
        None
    } else {
        Some(single_line("Languages: ", languages_text(languages)))
    }
}

impl SubraceView {
    /// What the panel of the subrace shows.
    pub open spec fn info(self) -> SubraceInfoView {
        SubraceInfoView {
            title: self.name,
            summary: self.summary,
            asi: asi_section_spec(self.asi),
            proficiencies: proficiencies_section_spec(self.proficiencies),
            traits: trait_sections_spec(self.traits),
            languages: languages_section_spec(self.languages),
        }
    }
}

impl Subrace {
    /// Returns what the panel of the subrace shows: its name as the title,
    /// its description as it is held, and a section for each kind of thing
    /// that the subrace adds.
    pub fn info(&self) -> (r: SubraceInfo)
        ensures
            r.deep_view() == self.deep_view().info(),
    {
        SubraceInfo {
            title: self.name.clone(),
            summary: self.summary.clone(),
            asi: asi_section(&self.asi),
            proficiencies: proficiencies_section(&self.proficiencies),
            traits: trait_sections(&self.traits),
            languages: languages_section(&self.languages),
        }
    }
}

/// The options of the subrace list: one for each subrace, labelled with its
/// name, and marked as picked if it is the subrace `selected`.
pub open spec fn subrace_options_spec(
    subraces: Seq<SubraceView>,
    selected: Option<SubraceView>,
) -> Seq<RadioOptionView> {
    Seq::new(
        subraces.len(),
        |i: int| RadioOptionView { label: subraces[i].name, selected: selected == Some(subraces[i]) },
    )
}

/// Returns the options of the subrace list.
pub fn subrace_options(subraces: &Vec<Subrace>, selected: Option<&Subrace>) -> (r: Vec<
    RadioOption,
>)
    ensures
        r.deep_view() == subrace_options_spec(subraces.deep_view(), selected.deep_view()),
{
    let ghost all = subraces.deep_view();
    let ghost picked = selected.deep_view();
    let mut options: Vec<RadioOption> = Vec::new();
    let mut i: usize = 0;
    while i < subraces.len()
        invariant
            i <= subraces.len(),
            all == subraces.deep_view(),
            picked == selected.deep_view(),
            options.deep_view() == subrace_options_spec(all.take(i as int), picked),
        decreases subraces.len() - i,
    {
        let ghost before = options;
        let is_picked = match selected {
            Some(subrace) => *subrace == subraces[i],
            None => false,
        };
        let option = RadioOption { label: subraces[i].name.clone(), selected: is_picked };
        options.push(option);
        proof {
            lemma_deep_view_push(before, options, option);
            assert(all[i as int] == subraces@[i as int].deep_view());
            assert(subrace_options_spec(all.take(i + 1), picked) =~= subrace_options_spec(
                all.take(i as int),
                picked,
            ).push(option.deep_view()));
        }
        i += 1;
    }
    assert(all.take(i as int) =~= all);
    options
}

/// The subrace list of a race: nothing for a race without subraces, else
/// the options and the panel of the subrace `selected`, if there is one.
pub open spec fn subrace_picker_spec(
    subraces: Seq<SubraceView>,
    selected: Option<SubraceView>,
) -> Option<SubracePickerView> {
    if subraces.len() > 0 {
        Some(
            SubracePickerView {
                heading: "Select a new subrace: "@,
                options: subrace_options_spec(subraces, selected),
                selected: match selected {
                    Some(subrace) => Some(subrace.info()),
                    None => None,
                },
            },
        )
    } else {
        None
    }
}

impl RaceView {
    /// What the panel of the race shows while the subrace `selected` is
    /// picked.
    pub open spec fn info(self, selected: Option<SubraceView>) -> RaceInfoView {
        RaceInfoView {
            title: self.name,
            summary: self.summary,
            asi: asi_section_spec(self.asi),
            age: single_line_spec("Age: "@, self.age.text_spec(self.name_plural)),
            size: single_line_spec("Size: "@, self.size.text_spec(self.name_plural)),
            speed: speed_section_spec(self.speed),
            proficiencies: proficiencies_section_spec(self.proficiencies),
            traits: trait_sections_spec(self.traits),
            languages: languages_section_spec(self.languages),
            subraces: subrace_picker_spec(self.subraces, selected),
        }
    }
}

impl Race {
    /// Returns what the panel of the race shows while the subrace `selected`
    /// is picked: the name as the title, the description as it is held, a
    /// section for each kind of thing that the race gives, and the list of
    /// its subraces with the panel of the one picked.
    pub fn info(&self, selected: Option<&Subrace>) -> (r: RaceInfo)
        ensures
            r.deep_view() == self.deep_view().info(selected.deep_view()),
    {
        assert(self.subraces.deep_view().len() == self.subraces@.len());
        let subraces = if self.subraces.len() > 0 {
            Some(
                SubracePicker {
                    heading: String::from_str("Select a new subrace: "),
                    options: subrace_options(&self.subraces, selected),
                    selected: match selected {
                        Some(subrace) => Some(subrace.info()),
                        None => None,
                    },
                },
            )
        } else {
            None
        };
        RaceInfo {
            title: self.name.clone(),
            summary: self.summary.clone(),
            asi: asi_section(&self.asi),
            age: single_line("Age: ", self.age.text(self.name_plural.as_str())),
            size: single_line("Size: ", self.size.text(self.name_plural.as_str())),
            speed: speed_section(&self.speed),
            proficiencies: proficiencies_section(&self.proficiencies),
            traits: trait_sections(&self.traits),
            languages: languages_section(&self.languages),
            subraces,
        }
    }
}

impl Race {
    /// Returns `true` if `subrace` is one of the subraces of this race.
    pub fn has_subrace(&self, subrace: &Subrace) -> (r: bool)
        ensures
            r == self.deep_view().subraces.contains(subrace.deep_view()),
    {
        let ghost all = self.subraces.deep_view();
        let mut i: usize = 0;
        while i < self.subraces.len()
            invariant
                i <= self.subraces.len(),
                all == self.subraces.deep_view(),
                forall|j: int| 0 <= j < i ==> all[j] != subrace.deep_view(),
            decreases self.subraces.len() - i,
        {
            assert(all[i as int] == self.subraces@[i as int].deep_view());
            if self.subraces[i] == *subrace {
                return true;
            }
            i += 1;
        }
        false
    }
}

/// The races that a character can be.
#[derive(Debug, Clone, Copy, PartialEq, Eq, Structural)]
pub enum RaceName {
    Dwarf,
}

impl RaceName {
    /// Every race, in the order in which the race list offers them.
    pub const ALL: [RaceName; 1] = [RaceName::Dwarf];

    /// The name under which the race is listed.
    pub open spec fn name_spec(self) -> Seq<char> {
        match self {
            RaceName::Dwarf => dwarf::NAME@,
        }
    }

    /// The race that `name` is listed under, if there is one.
    pub open spec fn named(name: Seq<char>) -> Option<RaceName> {
        if name == RaceName::Dwarf.name_spec() {
            Some(RaceName::Dwarf)
        } else {
            None
        }
    }

    /// The value of the race.
    pub open spec fn race_spec(self) -> RaceView {
        match self {
            RaceName::Dwarf => dwarf_view(),
        }
    }

    /// Returns the name under which the race is listed.
    pub fn to_string(&self) -> (s: String)
        ensures
            s@ == self.name_spec(),
    {
        match self {
            RaceName::Dwarf => String::from_str(dwarf::NAME),
        }
    }

    /// Returns the race that is listed under `name`, or `None` if no race is.
    pub fn from_name(name: &str) -> (r: Option<RaceName>)
        ensures
            r == RaceName::named(name@),
    {
        if String::from_str(name) == RaceName::Dwarf.to_string() {
            Some(RaceName::Dwarf)
        } else {
            None
        }
    }

    /// Returns the race with all that it gives.
    pub fn race(&self) -> (r: Race)
        ensures
            r.deep_view() == self.race_spec(),
            r.size.wf(),
    {
        match self {
            RaceName::Dwarf => dwarf(),
        }
    }

    /// Returns every race with all that it gives, in the order of
    /// [`RaceName::ALL`].
    pub fn races() -> (r: Vec<Race>)
        ensures
            r.deep_view() == Seq::new(
                RaceName::ALL@.len(),
                |i: int| RaceName::ALL@[i].race_spec(),
            ),
    {
        let mut r: Vec<Race> = Vec::new();
        let mut i: usize = 0;
        while i < RaceName::ALL.len()
            invariant
                i <= RaceName::ALL@.len(),
                r.deep_view() == Seq::new(i as nat, |j: int| RaceName::ALL@[j].race_spec()),
            decreases RaceName::ALL@.len() - i,
        {
            let ghost before = r;
            let race = RaceName::ALL[i].race();
            r.push(race);
            proof {
                lemma_deep_view_push(before, r, race);
                assert(Seq::new((i + 1) as nat, |j: int| RaceName::ALL@[j].race_spec()) =~= Seq::new(
                    i as nat,
                    |j: int| RaceName::ALL@[j].race_spec(),
                ).push(race.deep_view()));
            }
            i += 1;
        }
        r
    }
}

/// The panel of a race shows the description of the race as it is held: the
/// main text and every subsection, unchanged and in the same order. The same
/// holds of the panel of a subrace.
pub proof fn lemma_info_keeps_summary(race: RaceView, selected: Option<SubraceView>)
    ensures
        race.info(selected).summary == race.summary,
        race.info(selected).title == race.name,
        forall|subrace: SubraceView| subrace.info().summary == subrace.summary,
        selected is Some && race.subraces.len() > 0 ==> race.info(selected).subraces->0.selected
            == Some(selected->0.info()),
{
}

/// The subrace list offers each subrace of the race once, under its name, and
/// marks exactly the options that are the subrace picked.
pub proof fn lemma_options_follow_subraces(
    subraces: Seq<SubraceView>,
    selected: Option<SubraceView>,
    i: int,
)
    requires
        0 <= i < subraces.len(),
    ensures
        subrace_options_spec(subraces, selected).len() == subraces.len(),
        subrace_options_spec(subraces, selected)[i].label == subraces[i].name,
        subrace_options_spec(subraces, selected)[i].selected == (selected == Some(subraces[i])),
{
}

/// A race is listed under its own name.
pub proof fn lemma_race_is_listed_under_its_name(name: RaceName)
    ensures
        name.race_spec().name == name.name_spec(),
{
}

/// A subrace belongs to one race only.
pub proof fn lemma_subrace_has_one_race(a: RaceName, b: RaceName, subrace: SubraceView)
    requires
        a.race_spec().subraces.contains(subrace),
        b.race_spec().subraces.contains(subrace),
    ensures
        a == b,
{
}

/// No two races share a name.
pub proof fn lemma_race_names_are_unique(a: RaceName, b: RaceName)
    requires
        a.name_spec() == b.name_spec(),
    ensures
        a == b,
{
}

/// Looking a race up by the name under which it is listed gives that race.
pub proof fn lemma_name_round_trip(name: RaceName)
    ensures
        RaceName::named(name.name_spec()) == Some(name),
{
}

} // verus!
