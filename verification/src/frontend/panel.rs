//! The contents of an information panel as plain data: what a page shows,
//! before any widget is made of it.

use vstd::prelude::*;
use crate::common::summary::{Summary, SummaryView};

verus! {

/// A heading followed by lines of text.
#[derive(Debug)]
pub struct Section {
    pub heading: String,
    pub lines: Vec<String>,
}

/// The mathematical value of a [`Section`].
pub struct SectionView {
    pub heading: Seq<char>,
    pub lines: Seq<Seq<char>>,
}

impl DeepView for Section {
    type V = SectionView;

    open spec fn deep_view(&self) -> SectionView {
        SectionView { heading: self.heading@, lines: self.lines.deep_view() }
    }
}

/// One option of a list from which a single option is picked.
#[derive(Debug)]
pub struct RadioOption {
    /// The text beside the option.
    pub label: String,
    /// Whether this option is the one picked.
    pub selected: bool,
}

/// The mathematical value of a [`RadioOption`].
pub struct RadioOptionView {
    pub label: Seq<char>,
    pub selected: bool,
}

impl DeepView for RadioOption {
    type V = RadioOptionView;

    open spec fn deep_view(&self) -> RadioOptionView {
        RadioOptionView { label: self.label@, selected: self.selected }
    }
}

/// What the panel of a subrace shows, from top to bottom. A part that is
/// `None` is left out.
#[derive(Debug)]
pub struct SubraceInfo {
    pub title: String,
    pub summary: Summary,
    pub asi: Option<Section>,
    pub proficiencies: Option<Section>,
    /// One section for each trait.
    pub traits: Vec<Section>,
    pub languages: Option<Section>,
}

/// The mathematical value of a [`SubraceInfo`].
pub struct SubraceInfoView {
    pub title: Seq<char>,
    pub summary: SummaryView,
    pub asi: Option<SectionView>,
    pub proficiencies: Option<SectionView>,
    pub traits: Seq<SectionView>,
    pub languages: Option<SectionView>,
}

impl DeepView for SubraceInfo {
    type V = SubraceInfoView;

    open spec fn deep_view(&self) -> SubraceInfoView {
        SubraceInfoView {
            title: self.title@,
            summary: self.summary.deep_view(),
            asi: self.asi.deep_view(),
            proficiencies: self.proficiencies.deep_view(),
            traits: self.traits.deep_view(),
            languages: self.languages.deep_view(),
        }
    }
}

/// The list from which the subrace is picked, and the panel of the subrace
/// that is picked, if one is.
#[derive(Debug)]
pub struct SubracePicker {
    pub heading: String,
    /// One option for each subrace of the race, in the race's order.
    pub options: Vec<RadioOption>,
    pub selected: Option<SubraceInfo>,
}

/// The mathematical value of a [`SubracePicker`].
pub struct SubracePickerView {
    pub heading: Seq<char>,
    pub options: Seq<RadioOptionView>,
    pub selected: Option<SubraceInfoView>,
}

impl DeepView for SubracePicker {
    type V = SubracePickerView;

    open spec fn deep_view(&self) -> SubracePickerView {
        SubracePickerView {
            heading: self.heading@,
            options: self.options.deep_view(),
            selected: self.selected.deep_view(),
        }
    }
}

/// What the panel of a race shows, from top to bottom. A part that is `None`
/// is left out.
#[derive(Debug)]
pub struct RaceInfo {
    pub title: String,
    pub summary: Summary,
    pub asi: Option<Section>,
    pub age: Section,
    pub size: Section,
    pub speed: Option<Section>,
    pub proficiencies: Option<Section>,
    /// One section for each trait.
    pub traits: Vec<Section>,
    pub languages: Option<Section>,
    pub subraces: Option<SubracePicker>,
}

/// The mathematical value of a [`RaceInfo`].
pub struct RaceInfoView {
    pub title: Seq<char>,
    pub summary: SummaryView,
    pub asi: Option<SectionView>,
    pub age: SectionView,
    pub size: SectionView,
    pub speed: Option<SectionView>,
    pub proficiencies: Option<SectionView>,
    pub traits: Seq<SectionView>,
    pub languages: Option<SectionView>,
    pub subraces: Option<SubracePickerView>,
}

impl DeepView for RaceInfo {
    type V = RaceInfoView;

    open spec fn deep_view(&self) -> RaceInfoView {
        RaceInfoView {
            title: self.title@,
            summary: self.summary.deep_view(),
            asi: self.asi.deep_view(),
            age: self.age.deep_view(),
            size: self.size.deep_view(),
            speed: self.speed.deep_view(),
            proficiencies: self.proficiencies.deep_view(),
            traits: self.traits.deep_view(),
            languages: self.languages.deep_view(),
            subraces: self.subraces.deep_view(),
        }
    }
}

} // verus!
