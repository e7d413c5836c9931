//! What the pages of the character creator show and how they react to the
//! user: the races as they are displayed, the contents of their information
//! panels, and the state of each page.

pub mod class;
pub mod main_page;
pub mod new_character_page;
pub mod panel;
pub mod race;
pub mod races;
pub mod selection;
pub mod utils;
