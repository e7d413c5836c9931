//! The application: which screen is open, and what the user has picked.

use vstd::prelude::*;
use crate::frontend::new_character_page;
use crate::frontend::new_character_page::{
    Command, MenuOpts, MessageView as PageMessageView, NewCharacterPage, PageView,
};
use crate::frontend::race::{RaceName, Subrace, SubraceView};
use crate::frontend::selection::{valid_selection, RaceProps};

verus! {

/// What the user did.
#[derive(Debug)]
pub enum Message {
    /// The button that leads back to the main menu was pressed.
    MainMenuButtonPressed,
    /// The button that leads to the loading of a character was pressed.
    LoadCharacterButtonPressed,
    /// The button that leads to the making of a character was pressed, or
    /// something was done on that page.
    NewCharacterButtonPressed(new_character_page::Message),
}

/// The mathematical value of a [`Message`].
pub enum MessageView {
    MainMenuButtonPressed,
    LoadCharacterButtonPressed,
    NewCharacterButtonPressed(PageMessageView),
}

impl DeepView for Message {
    type V = MessageView;

    open spec fn deep_view(&self) -> MessageView {
        match self {
            Message::MainMenuButtonPressed => MessageView::MainMenuButtonPressed,
            Message::LoadCharacterButtonPressed => MessageView::LoadCharacterButtonPressed,
            Message::NewCharacterButtonPressed(message) => MessageView::NewCharacterButtonPressed(
                message.deep_view(),
            ),
        }
    }
}

impl Clone for Message {
    fn clone(&self) -> (m: Message)
        ensures
            m.deep_view() == self.deep_view(),
    {
        match self {
            Message::MainMenuButtonPressed => Message::MainMenuButtonPressed,
            Message::LoadCharacterButtonPressed => Message::LoadCharacterButtonPressed,
            Message::NewCharacterButtonPressed(message) => Message::NewCharacterButtonPressed(
                message.clone(),
            ),
        }
    }
}

/// The screens of the application. One of them is open at a time.
#[derive(Debug)]
pub enum Screen {
    /// The main menu.
    Main,
    /// The loading of a character.
    LoadCharacter,
    /// The making of a character.
    NewCharacter(NewCharacterPage),
}

/// The mathematical value of a [`Screen`].
pub enum ScreenView {
    Main,
    LoadCharacter,
    NewCharacter(PageView),
}

impl DeepView for Screen {
    type V = ScreenView;

    open spec fn deep_view(&self) -> ScreenView {
        match self {
            Screen::Main => ScreenView::Main,
            Screen::LoadCharacter => ScreenView::LoadCharacter,
            Screen::NewCharacter(page) => ScreenView::NewCharacter(page.deep_view()),
        }
    }
}

impl Default for Screen {
    /// The application opens on the main menu.
    fn default() -> (s: Screen)
        ensures
            s.deep_view() == ScreenView::Main,
    {
        Screen::Main
    }
}

/// A button that leads from one screen to another.
#[derive(Debug)]
pub struct NavButton {
    /// The text on the button.
    pub label: String,
    /// What a press of the button sends.
    pub on_press: Message,
}

/// The mathematical value of a [`NavButton`].
pub struct NavButtonView {
    pub label: Seq<char>,
    pub on_press: MessageView,
}

impl DeepView for NavButton {
    type V = NavButtonView;

    open spec fn deep_view(&self) -> NavButtonView {
        NavButtonView { label: self.label@, on_press: self.on_press.deep_view() }
    }
}

impl ScreenView {
    /// The buttons that lead away from the screen: from the main menu to the
    /// loading and to the making of a character, and from each of these back
    /// to the main menu.
    pub open spec fn buttons(self) -> Seq<NavButtonView> {
        match self {
            ScreenView::Main => seq![
                NavButtonView {
                    label: "Load Character"@,
                    on_press: MessageView::LoadCharacterButtonPressed,
                },
                NavButtonView {
                    label: "New Character"@,
                    on_press: MessageView::NewCharacterButtonPressed(
                        PageMessageView::RaceButtonPressed,
                    ),
                },
            ],
            ScreenView::LoadCharacter => seq![
                NavButtonView { label: "Main Menu"@, on_press: MessageView::MainMenuButtonPressed },
            ],
            ScreenView::NewCharacter(_) => seq![
                NavButtonView { label: "Main Menu"@, on_press: MessageView::MainMenuButtonPressed },
            ],
        }
    }
}

impl Screen {
    /// Returns the button that shows `name` and sends `on_press`.
    pub fn main_opts_button(name: &str, on_press: Message) -> (r: NavButton)
        ensures
            r.deep_view() == (NavButtonView { label: name@, on_press: on_press.deep_view() }),
    {
        NavButton { label: String::from_str(name), on_press }
    }

    /// Returns the buttons that lead away from the screen.
    pub fn buttons(&self) -> (r: Vec<NavButton>)
        ensures
            r.deep_view() == self.deep_view().buttons(),
    {
        let mut buttons: Vec<NavButton> = Vec::new();
        match self {
            Screen::Main => {
                buttons.push(
                    Screen::main_opts_button("Load Character", Message::LoadCharacterButtonPressed),
                );
                buttons.push(
                    Screen::main_opts_button(
                        "New Character",
                        Message::NewCharacterButtonPressed(new_character_page::Message::default()),
                    ),
                );
            },
            Screen::LoadCharacter => {
                buttons.push(Screen::main_opts_button("Main Menu", Message::MainMenuButtonPressed));
            },
            Screen::NewCharacter(_) => {
                buttons.push(Screen::main_opts_button("Main Menu", Message::MainMenuButtonPressed));
            },
        }
        assert(buttons.deep_view() =~= self.deep_view().buttons());
        buttons
    }
}

/// The state of the application as a mathematical value.
pub struct AppView {
    /// The screen that is open.
    pub screen: ScreenView,
    /// The race that is picked.
    pub race: Option<RaceName>,
    /// The subrace that is picked.
    pub subrace: Option<SubraceView>,
}

impl AppView {
    /// The state in which the application starts: on the main menu, with
    /// nothing picked.
    pub open spec fn initial() -> AppView {
        AppView { screen: ScreenView::Main, race: None, subrace: None }
    }

    /// The page for the making of a character as it opens from this state:
    /// on the race step, with what is picked.
    pub open spec fn opened_page(self) -> PageView {
        PageView { menu_option: MenuOpts::Race, race: self.race, subrace: self.subrace }
    }

    /// The state that follows this one when `message` arrives. The two
    /// buttons that lead away from the making of a character open their
    /// screen and drop what is picked. Anything else opens the page for the
    /// making of a character, hands it the page's message, and takes over
    /// what is picked there.
    pub open spec fn step(self, message: MessageView) -> AppView {
        match message {
            MessageView::MainMenuButtonPressed => AppView {
                screen: ScreenView::Main,
                race: None,
                subrace: None,
            },
            MessageView::LoadCharacterButtonPressed => AppView {
                screen: ScreenView::LoadCharacter,
                race: None,
                subrace: None,
            },
            MessageView::NewCharacterButtonPressed(message) => {
                let page = self.opened_page().step(message);
                AppView { screen: ScreenView::NewCharacter(page), race: page.race, subrace: page.subrace }
            },
        }
    }

    /// What holds of every state that the application reaches: a subrace is
    /// picked only together with the race that it belongs to; outside the
    /// making of a character nothing is picked; and the page for the making
    /// of a character shows what is picked.
    pub open spec fn wf(self) -> bool {
        &&& valid_selection(self.race, self.subrace)
        &&& match self.screen {
            ScreenView::NewCharacter(page) => page.race == self.race && page.subrace
                == self.subrace,
            _ => self.race is None && self.subrace is None,
        }
    }
}

/// The application.
#[derive(Debug)]
pub struct App {
    /// The screen that is open.
    page: Screen,
    /// What the user has picked.
    race_props: RaceProps,
}

impl DeepView for App {
    type V = AppView;

    closed spec fn deep_view(&self) -> AppView {
        AppView {
            screen: self.page.deep_view(),
            race: self.race_props.race(),
            subrace: self.race_props.subrace(),
        }
    }
}

impl App {
    #[verifier::type_invariant]
    spec fn well_formed(self) -> bool {
        self.deep_view().wf()
    }

    /// Returns the application as it starts.
    pub fn new() -> (r: App)
        ensures
            r.deep_view() == AppView::initial(),
    {
        App { page: Screen::Main, race_props: RaceProps::new() }
    }

    /// Returns the title of the application's window.
    pub fn title(&self) -> (s: String)
        ensures
            s@ == "Dregg"@,
    {
        String::from_str("Dregg")
    }

    /// Returns the screen that is open.
    pub fn page(&self) -> (r: &Screen)
        ensures
            r.deep_view() == self.deep_view().screen,
            self.deep_view().wf(),
    {
        proof {
            use_type_invariant(self);
        }
        &self.page
    }

    /// Returns the race that is picked.
    pub fn selected_race(&self) -> (r: Option<RaceName>)
        ensures
            r == self.deep_view().race,
    {
        self.race_props.selected_race()
    }

    /// Returns the subrace that is picked.
    pub fn selected_subrace(&self) -> (r: Option<&Subrace>)
        ensures
            r.deep_view() == self.deep_view().subrace,
    {
        self.race_props.selected_subrace()
    }

    /// Takes `message` into the state.
    pub fn update(&mut self, message: Message)
        ensures
            final(self).deep_view() == old(self).deep_view().step(message.deep_view()),
            final(self).deep_view().wf(),
    {
        proof {
            use_type_invariant(&*self);
        }
        match message {
            Message::MainMenuButtonPressed => {
                *self = App { page: Screen::Main, race_props: RaceProps::new() };
            },
            Message::LoadCharacterButtonPressed => {
                *self = App { page: Screen::LoadCharacter, race_props: RaceProps::new() };
            },
            Message::NewCharacterButtonPressed(message) => {
                let mut race_props = self.race_props.clone();
                let selected_subrace = match race_props.selected_subrace() {
                    Some(subrace) => Some(subrace.clone()),
                    None => None,
                };
                let mut page = NewCharacterPage::new(race_props.selected_race(), selected_subrace);
                match page.update(message) {
                    Command::Nothing => {},
                    Command::RaceSelected(race) => {
                        race_props.select_race(race);
                    },
                    Command::SubraceSelected(subrace) => {
                        race_props.select_subrace(subrace);
                    },
                }
                *self = App { page: Screen::NewCharacter(page), race_props };
            },
        }
    }
}

/// The application starts in a state that is well formed.
pub proof fn lemma_initial_is_wf()
    ensures
        AppView::initial().wf(),
{
}

/// Whatever arrives, a well-formed state is followed by a well-formed state:
/// no message makes the application hold a subrace without its race, or a
/// pick outside the making of a character.
pub proof fn lemma_step_preserves_wf(state: AppView, message: MessageView)
    requires
        state.wf(),
    ensures
        state.step(message).wf(),
{
}

/// From every state the main-menu button leads to the main menu, and
/// nothing is picked any more.
pub proof fn lemma_main_menu_is_one_press_away(state: AppView)
    ensures
        state.step(MessageView::MainMenuButtonPressed) == AppView::initial(),
{
}

/// Every button that a screen shows leads to the screen that it names: the
/// main menu leads to the loading and to the making of a character, and each
/// of these leads back to the main menu.
pub proof fn lemma_buttons_lead_where_they_say(state: AppView, i: int)
    requires
        0 <= i < state.screen.buttons().len(),
    ensures
        match state.screen {
            ScreenView::Main => {
                &&& state.screen.buttons().len() == 2
                &&& state.step(state.screen.buttons()[0].on_press).screen
                    == ScreenView::LoadCharacter
                &&& state.step(state.screen.buttons()[1].on_press).screen
                    is NewCharacter
            },
            _ => {
                &&& state.screen.buttons().len() == 1
                &&& state.step(state.screen.buttons()[0].on_press).screen == ScreenView::Main
            },
        },
{
}

} // verus!
