use vstd::prelude::*;
use crate::models::{Race, RacialTrait, Weapon};
use crate::record::RecordId;

verus! {

/// What the screens show: the lists loaded from the store and the entries
/// the user picked.
#[derive(Clone)]
pub struct Model {
    pub classes: Option<Vec<RacialTrait>>,
    pub selected_class: Option<RacialTrait>,
    pub races: Option<Vec<Race>>,
    pub selected_race: Option<Race>,
    pub weapons: Option<Vec<Weapon>>,
    pub selected_weapon: Option<Weapon>,
    pub label: Option<String>,
}

/// A request to the store.
pub enum Command {
    LoadRaces,
    CreateRace(Race),
    DeleteRace(RecordId),
    LoadWeapons,
    CreateWeapon(Weapon),
    DeleteWeapon(RecordId),
}

/// An answer from the store.
pub enum DbResponse {
    Races(Option<Vec<Race>>),
    Weapons(Option<Vec<Weapon>>),
    Label(Option<String>),
}

/// Something a screen asks its owner to do after handling an event.
pub enum Effect {
    /// Send a request to the store.
    Send(Command),
    /// Forget the race the user picked.
    ClearSelectedRace,
}

impl Model {
    /// A model with nothing loaded and nothing picked.
    pub fn new() -> (m: Self)
        ensures
            m.classes is None,
            m.selected_class is None,
            m.races is None,
            m.selected_race is None,
            m.weapons is None,
            m.selected_weapon is None,
            m.label is None,
    {
        Model {
            classes: None,
            selected_class: None,
            races: None,
            selected_race: None,
            weapons: None,
            selected_weapon: None,
            label: None,
        }
    }

    /// Stores an answer from the store in the field it is about; the other
    /// fields keep their values.
    pub fn apply_response(&mut self, response: DbResponse)
        ensures
            match response {
                DbResponse::Races(races) => *final(self) == Model { races, ..*old(self) },
                DbResponse::Weapons(weapons) => *final(self) == Model { weapons, ..*old(self) },
                DbResponse::Label(label) => *final(self) == Model { label, ..*old(self) },
            },
    {
        match response {
            DbResponse::Races(races) => self.races = races,
            DbResponse::Weapons(weapons) => self.weapons = weapons,
            DbResponse::Label(label) => self.label = label,
        }
    }
}

/// The screens of the application.
#[derive(Clone, Copy, Debug, PartialEq, Eq, Structural)]
pub enum Screen {
    Home,
    Characters,
    Races,
    Classes,
    Spells,
    Weapons,
    Backgrounds,
    Exit,
}

/// The request that opening a screen sends: the races screen and the
/// weapons screen reload their lists, the others send nothing.
pub open spec fn load_for(screen: Screen) -> Option<Command> {
    match screen {
        Screen::Races => Some(Command::LoadRaces),
        Screen::Weapons => Some(Command::LoadWeapons),
        _ => None,
    }
}

/// The user clicked the navigation entry of `clicked`: it becomes the
/// current screen, and the races and weapons screens ask for their lists
/// again.
pub fn select_screen(screen: &mut Screen, clicked: Screen) -> (load: Option<Command>)
    ensures
        *final(screen) == clicked,
        load == load_for(clicked),
{
    *screen = clicked;
    match clicked {
        Screen::Races => Some(Command::LoadRaces),
        Screen::Weapons => Some(Command::LoadWeapons),
        _ => None,
    }
}

/// What the central panel shows for a screen.
#[derive(Clone, Copy, Debug, PartialEq, Eq)]
pub enum CentralPanel {
    /// A heading that says the screen is not there yet.
    Heading(&'static str),
    ClassPage,
    RacePage,
    WeaponPage,
    /// Close the window.
    Close,
}

impl Screen {
    /// What the central panel shows while this screen is current.
    pub fn central_panel(&self) -> (panel: CentralPanel)
        ensures
            match *self {
                Screen::Home => panel matches CentralPanel::Heading(h)
                    && h@ == "this is home, not yet implemented. Go to Race"@,
                Screen::Characters => panel matches CentralPanel::Heading(h)
                    && h@ == "this is characters, not yet implemented. Go to Race"@,
                Screen::Spells => panel matches CentralPanel::Heading(h)
                    && h@ == "this is spells, not yet implemented. Go to Race"@,
                Screen::Backgrounds => panel matches CentralPanel::Heading(h)
                    && h@ == "this is backgrounds, not yet implemented. Go to Race"@,
                Screen::Classes => panel == CentralPanel::ClassPage,
                Screen::Races => panel == CentralPanel::RacePage,
                Screen::Weapons => panel == CentralPanel::WeaponPage,
                Screen::Exit => panel == CentralPanel::Close,
            },
    {
        match self {
            Screen::Home => CentralPanel::Heading("this is home, not yet implemented. Go to Race"),
            Screen::Characters => CentralPanel::Heading("this is characters, not yet implemented. Go to Race"),
            Screen::Spells => CentralPanel::Heading("this is spells, not yet implemented. Go to Race"),
            Screen::Backgrounds => CentralPanel::Heading("this is backgrounds, not yet implemented. Go to Race"),
            Screen::Classes => CentralPanel::ClassPage,
            Screen::Races => CentralPanel::RacePage,
            Screen::Weapons => CentralPanel::WeaponPage,
            Screen::Exit => CentralPanel::Close,
        }
    }
}

} // verus!
