//! The page on which a new character is made: a menu pane with one button
//! for each step, and an information pane for the step that is open.

use vstd::prelude::*;
use crate::frontend::panel::{RaceInfo, RaceInfoView};
use crate::frontend::race::{RaceName, Subrace, SubraceView};
use crate::frontend::selection::{kept_subrace, valid_selection, RaceProps};

verus! {

/// What the user did on the page.
#[derive(Debug)]
pub enum Message {
    /// The button of the race step was pressed.
    RaceButtonPressed,
    /// The button of the class step was pressed.
    ClassButtonPressed,
    /// A race was picked from the race list.
    RaceSelected(RaceName),
    /// A subrace was picked from the subrace list.
    SubraceSelected(Subrace),
}

/// The mathematical value of a [`Message`].
pub enum MessageView {
    RaceButtonPressed,
    ClassButtonPressed,
    RaceSelected(RaceName),
    SubraceSelected(SubraceView),
}

impl DeepView for Message {
    type V = MessageView;

    open spec fn deep_view(&self) -> MessageView {
        match self {
            Message::RaceButtonPressed => MessageView::RaceButtonPressed,
            Message::ClassButtonPressed => MessageView::ClassButtonPressed,
            Message::RaceSelected(race) => MessageView::RaceSelected(*race),
            Message::SubraceSelected(subrace) => MessageView::SubraceSelected(subrace.deep_view()),
        }
    }
}

impl Default for Message {
    /// The page opens on the race step.
    fn default() -> (m: Message)
        ensures
            m.deep_view() == MessageView::RaceButtonPressed,
    {
        Message::RaceButtonPressed
    }
}

impl Clone for Message {
    fn clone(&self) -> (m: Message)
        ensures
            m.deep_view() == self.deep_view(),
    {
        match self {
            Message::RaceButtonPressed => Message::RaceButtonPressed,
            Message::ClassButtonPressed => Message::ClassButtonPressed,
            Message::RaceSelected(race) => Message::RaceSelected(*race),
            Message::SubraceSelected(subrace) => Message::SubraceSelected(subrace.clone()),
        }
    }
}

/// The two panes of the page.
#[derive(Debug, Clone, Copy, PartialEq, Eq, Structural)]
pub enum Pane {
    /// The pane with the buttons of the steps.
    Menu,
    /// The pane with the information on the open step.
    Info,
}

/// What the page asks the application to take over.
#[derive(Debug)]
pub enum Command {
    /// Nothing.
    Nothing,
    /// The race that is now picked.
    RaceSelected(RaceName),
    /// The subrace that is now picked.
    SubraceSelected(Subrace),
}

/// The mathematical value of a [`Command`].
pub enum CommandView {
    Nothing,
    RaceSelected(RaceName),
    SubraceSelected(SubraceView),
}

impl DeepView for Command {
    type V = CommandView;

    open spec fn deep_view(&self) -> CommandView {
        match self {
            Command::Nothing => CommandView::Nothing,
            Command::RaceSelected(race) => CommandView::RaceSelected(*race),
            Command::SubraceSelected(subrace) => CommandView::SubraceSelected(subrace.deep_view()),
        }
    }
}

/// The steps of making a character, one for each button of the menu pane.
#[derive(Debug, Clone, Copy, PartialEq, Eq, Structural)]
pub enum MenuOpts {
    Race,
    Class,
}

impl MenuOpts {
    /// The step that a message opens: the press of a step's button opens
    /// that step; a pick from a list opens none.
    pub open spec fn opened_by(message: MessageView) -> Option<MenuOpts> {
        match message {
            MessageView::RaceButtonPressed => Some(MenuOpts::Race),
            MessageView::ClassButtonPressed => Some(MenuOpts::Class),
            MessageView::RaceSelected(_) => None,
            MessageView::SubraceSelected(_) => None,
        }
    }

    /// Returns the step that `message` opens, if it opens one.
    pub fn from(message: &Message) -> (r: Option<MenuOpts>)
        ensures
            r == MenuOpts::opened_by(message.deep_view()),
    {
        match message {
            Message::RaceButtonPressed => Some(MenuOpts::Race),
            Message::ClassButtonPressed => Some(MenuOpts::Class),
            Message::RaceSelected(_) => None,
            Message::SubraceSelected(_) => None,
        }
    }
}

/// The state of the page as a mathematical value.
pub struct PageView {
    /// The step that is open.
    pub menu_option: MenuOpts,
    /// The race that is picked.
    pub race: Option<RaceName>,
    /// The subrace that is picked.
    pub subrace: Option<SubraceView>,
}

impl PageView {
    /// The state that follows this one when `message` arrives. The press of
    /// a step's button opens that step. The pick of a race is taken over, and
    /// the subrace stays picked only if it belongs to that race. The pick of
    /// a subrace is taken over only if it belongs to the race that is picked.
    pub open spec fn step(self, message: MessageView) -> PageView {
        match message {
            MessageView::RaceButtonPressed => PageView { menu_option: MenuOpts::Race, ..self },
            MessageView::ClassButtonPressed => PageView { menu_option: MenuOpts::Class, ..self },
            MessageView::RaceSelected(race) => PageView {
                race: Some(race),
                subrace: kept_subrace(Some(race), self.subrace),
                ..self
            },
            MessageView::SubraceSelected(subrace) => if valid_selection(self.race, Some(subrace)) {
                PageView { subrace: Some(subrace), ..self }
            } else {
                self
            },
        }
    }

    /// What the page asks the application to take over when `message`
    /// arrives in this state: the race or the subrace that is newly picked,
    /// and nothing for a pick that is rejected or for the press of a button.
    pub open spec fn command(self, message: MessageView) -> CommandView {
        match message {
            MessageView::RaceButtonPressed => CommandView::Nothing,
            MessageView::ClassButtonPressed => CommandView::Nothing,
            MessageView::RaceSelected(race) => CommandView::RaceSelected(race),
            MessageView::SubraceSelected(subrace) => if valid_selection(self.race, Some(subrace)) {
                CommandView::SubraceSelected(subrace)
            } else {
                CommandView::Nothing
            },
        }
    }
}

/// A button of the menu pane.
#[derive(Debug)]
pub struct MenuButton {
    /// The text on the button.
    pub label: String,
    /// Whether the button is the one of the step that is open.
    pub selected: bool,
    /// What a press of the button sends.
    pub on_press: Message,
}

/// The mathematical value of a [`MenuButton`].
pub struct MenuButtonView {
    pub label: Seq<char>,
    pub selected: bool,
    pub on_press: MessageView,
}

impl DeepView for MenuButton {
    type V = MenuButtonView;

    open spec fn deep_view(&self) -> MenuButtonView {
        MenuButtonView {
            label: self.label@,
            selected: self.selected,
            on_press: self.on_press.deep_view(),
        }
    }
}

/// What the information pane shows.
#[derive(Debug)]
pub enum InfoPane {
    /// The race step: the list from which the race is picked, and the panel
    /// of the race that is picked, if one is.
    Race {
        /// The text shown in the list while no race is picked.
        placeholder: String,
        /// The races on offer.
        options: Vec<RaceName>,
        /// The race that is picked.
        selected: Option<RaceName>,
        /// The panel of the race that is picked.
        info: Option<RaceInfo>,
    },
    /// The class step, which shows nothing.
    Class,
}

/// The mathematical value of an [`InfoPane`].
pub enum InfoPaneView {
    Race {
        placeholder: Seq<char>,
        options: Seq<RaceName>,
        selected: Option<RaceName>,
        info: Option<RaceInfoView>,
    },
    Class,
}

impl DeepView for InfoPane {
    type V = InfoPaneView;

    open spec fn deep_view(&self) -> InfoPaneView {
        match self {
            InfoPane::Race { placeholder, options, selected, info } => InfoPaneView::Race {
                placeholder: placeholder@,
                options: options@,
                selected: *selected,
                info: info.deep_view(),
            },
            InfoPane::Class => InfoPaneView::Class,
        }
    }
}

/// What one pane of the page shows.
#[derive(Debug)]
pub enum PaneContent {
    /// The buttons of the menu pane, from top to bottom.
    Menu(Vec<MenuButton>),
    /// The contents of the information pane.
    Info(InfoPane),
}

/// The mathematical value of a [`PaneContent`].
pub enum PaneContentView {
    Menu(Seq<MenuButtonView>),
    Info(InfoPaneView),
}

impl DeepView for PaneContent {
    type V = PaneContentView;

    open spec fn deep_view(&self) -> PaneContentView {
        match self {
            PaneContent::Menu(buttons) => PaneContentView::Menu(buttons.deep_view()),
            PaneContent::Info(info) => PaneContentView::Info(info.deep_view()),
        }
    }
}

impl PageView {
    /// The button of the menu pane that shows `label` and sends `on_press`.
    /// It is marked if `on_press` opens the step that is open already.
    pub open spec fn menu_pane_button(self, label: Seq<char>, on_press: MessageView)
        -> MenuButtonView {
        MenuButtonView {
            label,
            selected: MenuOpts::opened_by(on_press) == Some(self.menu_option),
            on_press,
        }
    }

    /// The buttons of the menu pane: the race step, then the class step.
    pub open spec fn menu_pane(self) -> Seq<MenuButtonView> {
        seq![
            self.menu_pane_button("Race"@, MessageView::RaceButtonPressed),
            self.menu_pane_button("Class"@, MessageView::ClassButtonPressed),
        ]
    }

    /// The panel of the race that is picked, with the subrace that is
    /// picked; nothing while no race is picked.
    pub open spec fn race_info(self) -> Option<RaceInfoView> {
        match self.race {
            Some(race) => Some(race.race_spec().info(self.subrace)),
            None => None,
        }
    }

    /// What the information pane shows for the step that is open.
    pub open spec fn info_pane(self) -> InfoPaneView {
        match self.menu_option {
            MenuOpts::Race => InfoPaneView::Race {
                placeholder: "Select your race:"@,
                options: RaceName::ALL@,
                selected: self.race,
                info: self.race_info(),
            },
            MenuOpts::Class => InfoPaneView::Class,
        }
    }

    /// What the pane `pane` shows.
    pub open spec fn pane(self, pane: Pane) -> PaneContentView {
        match pane {
            Pane::Menu => PaneContentView::Menu(self.menu_pane()),
            Pane::Info => PaneContentView::Info(self.info_pane()),
        }
    }
}

/// The state of the page.
#[derive(Debug)]
pub struct NewCharacterPage {
    /// The step that is open.
    menu_option: MenuOpts,
    /// The race and the subrace that are picked.
    props: RaceProps,
}

impl DeepView for NewCharacterPage {
    type V = PageView;

    closed spec fn deep_view(&self) -> PageView {
        PageView {
            menu_option: self.menu_option,
            race: self.props.race(),
            subrace: self.props.subrace(),
        }
    }
}

impl NewCharacterPage {
    /// Returns the page as it opens: on the race step, with `selected_race`
    /// picked, and with `selected_subrace` picked too if it belongs to
    /// that race.
    pub fn new(selected_race: Option<RaceName>, selected_subrace: Option<Subrace>) -> (r:
        NewCharacterPage)
        ensures
            r.deep_view() == (PageView {
                menu_option: MenuOpts::Race,
                race: selected_race,
                subrace: kept_subrace(selected_race, selected_subrace.deep_view()),
            }),
    {
        NewCharacterPage {
            menu_option: MenuOpts::Race,
            props: RaceProps::with(selected_race, selected_subrace),
        }
    }

    /// Returns the step that is open.
    pub fn menu_option(&self) -> (r: MenuOpts)
        ensures
            r == self.deep_view().menu_option,
    {
        self.menu_option
    }

    /// Returns the race that is picked.
    pub fn selected_race(&self) -> (r: Option<RaceName>)
        ensures
            r == self.deep_view().race,
    {
        self.props.selected_race()
    }

    /// Returns the subrace that is picked. It belongs to the race that is
    /// picked.
    pub fn selected_subrace(&self) -> (r: Option<&Subrace>)
        ensures
            r.deep_view() == self.deep_view().subrace,
            valid_selection(self.deep_view().race, self.deep_view().subrace),
    {
        self.props.selected_subrace()
    }

    /// Takes `message` into the state and returns what the application has
    /// to take over.
    pub fn update(&mut self, message: Message) -> (command: Command)
        ensures
            final(self).deep_view() == old(self).deep_view().step(message.deep_view()),
            command.deep_view() == old(self).deep_view().command(message.deep_view()),
    {
        match message {
            Message::RaceButtonPressed => {
                self.menu_option = MenuOpts::Race;
                Command::Nothing
            },
            Message::ClassButtonPressed => {
                self.menu_option = MenuOpts::Class;
                Command::Nothing
            },
            Message::RaceSelected(race) => {
                self.props.select_race(race);
                Command::RaceSelected(race)
            },
            Message::SubraceSelected(subrace) => {
                if self.props.select_subrace(subrace.clone()) {
                    Command::SubraceSelected(subrace)
                } else {
                    Command::Nothing
                }
            },
        }
    }
}

impl NewCharacterPage {
    /// Returns the button of the menu pane that shows `name` and sends
    /// `on_press`.
    pub fn menu_pane_button(&self, name: &str, on_press: Message) -> (r: MenuButton)
        ensures
            r.deep_view() == self.deep_view().menu_pane_button(name@, on_press.deep_view()),
    {
        let selected = match MenuOpts::from(&on_press) {
            Some(step) => step == self.menu_option,
            None => false,
        };
        MenuButton { label: String::from_str(name), selected, on_press }
    }

    /// Returns the panel of the race that is picked, if one is.
    pub fn race_info(&self) -> (r: Option<RaceInfo>)
        ensures
            r.deep_view() == self.deep_view().race_info(),
    {
        match self.props.selected_race() {
            Some(race) => Some(race.race().info(self.props.selected_subrace())),
            None => None,
        }
    }

    /// Returns what the information pane shows for the step that is open.
    pub fn view_info_pane(&self) -> (r: InfoPane)
        ensures
            r.deep_view() == self.deep_view().info_pane(),
    {
        match self.menu_option {
            MenuOpts::Race => {
                let mut options: Vec<RaceName> = Vec::new();
                let mut i: usize = 0;
                while i < RaceName::ALL.len()
                    invariant
                        i <= RaceName::ALL@.len(),
                        options@ == RaceName::ALL@.take(i as int),
                    decreases RaceName::ALL@.len() - i,
                {
                    options.push(RaceName::ALL[i]);
                    assert(options@ =~= RaceName::ALL@.take(i + 1));
                    i += 1;
                }
                assert(RaceName::ALL@.take(i as int) =~= RaceName::ALL@);
                InfoPane::Race {
                    placeholder: String::from_str("Select your race:"),
                    options,
                    selected: self.props.selected_race(),
                    info: self.race_info(),
                }
            },
            MenuOpts::Class => InfoPane::Class,
        }
    }

    /// Returns what the pane `pane` shows.
    pub fn pane(&self, pane: Pane) -> (r: PaneContent)
        ensures
            r.deep_view() == self.deep_view().pane(pane),
    {
        match pane {
            Pane::Menu => {
                let mut buttons: Vec<MenuButton> = Vec::new();
                buttons.push(self.menu_pane_button("Race", Message::RaceButtonPressed));
                buttons.push(self.menu_pane_button("Class", Message::ClassButtonPressed));
                assert(buttons.deep_view() =~= self.deep_view().menu_pane());
                PaneContent::Menu(buttons)
            },
            Pane::Info => PaneContent::Info(self.view_info_pane()),
        }
    }
}

/// A subrace that does not belong to the race that is picked is rejected:
/// the state stays as it is, and the application is asked for nothing. The
/// same holds while no race is picked.
pub proof fn lemma_foreign_subrace_is_rejected(page: PageView, subrace: SubraceView)
    requires
        !valid_selection(page.race, Some(subrace)),
    ensures
        page.step(MessageView::SubraceSelected(subrace)) == page,
        page.command(MessageView::SubraceSelected(subrace)) == CommandView::Nothing,
{
}

/// A subrace of the race that is picked is taken over, and handed on to the
/// application.
pub proof fn lemma_own_subrace_is_accepted(page: PageView, subrace: SubraceView)
    requires
        valid_selection(page.race, Some(subrace)),
    ensures
        page.step(MessageView::SubraceSelected(subrace)).subrace == Some(subrace),
        page.command(MessageView::SubraceSelected(subrace)) == CommandView::SubraceSelected(
            subrace,
        ),
{
}

/// Whatever arrives, the page holds a subrace only together with the race
/// that it belongs to.
pub proof fn lemma_step_keeps_selection_valid(page: PageView, message: MessageView)
    requires
        valid_selection(page.race, page.subrace),
    ensures
        valid_selection(page.step(message).race, page.step(message).subrace),
{
}

/// The button of a step is marked exactly while that step is open, so one
/// button of the menu pane is marked at any time.
pub proof fn lemma_one_menu_button_is_marked(page: PageView)
    ensures
        page.menu_pane()[0].selected == (page.menu_option == MenuOpts::Race),
        page.menu_pane()[1].selected == (page.menu_option == MenuOpts::Class),
        page.menu_pane()[0].selected != page.menu_pane()[1].selected,
{
}

} // verus!
