use character_tracker::class::{Class, Message};
use character_tracker::controller::{select_screen, CentralPanel, Command, DbResponse, Model, Screen};

#[test]
fn a_new_model_is_empty() {
    let m = Model::new();
    assert!(m.classes.is_none() && m.selected_class.is_none());
    assert!(m.races.is_none() && m.selected_race.is_none());
    assert!(m.weapons.is_none() && m.selected_weapon.is_none());
    assert!(m.label.is_none());
}

#[test]
fn responses_fill_their_field() {
    let mut m = Model::new();
    m.apply_response(DbResponse::Races(Some(Vec::new())));
    assert!(m.races.as_ref().unwrap().is_empty());
    assert!(m.weapons.is_none());
    m.apply_response(DbResponse::Label(Some("hi".to_string())));
    assert_eq!(m.label.as_deref(), Some("hi"));
    m.apply_response(DbResponse::Weapons(Some(Vec::new())));
    assert!(m.weapons.is_some());
    m.apply_response(DbResponse::Races(None));
    assert!(m.races.is_none());
    assert_eq!(m.label.as_deref(), Some("hi"));
}

#[test]
fn opening_screens() {
    let mut screen = Screen::Home;
    assert!(matches!(select_screen(&mut screen, Screen::Races), Some(Command::LoadRaces)));
    assert_eq!(screen, Screen::Races);
    assert!(matches!(select_screen(&mut screen, Screen::Weapons), Some(Command::LoadWeapons)));
    assert!(matches!(select_screen(&mut screen, Screen::Races), Some(Command::LoadRaces)));
    assert!(select_screen(&mut screen, Screen::Spells).is_none());
    assert_eq!(screen, Screen::Spells);
}

#[test]
fn central_panels() {
    assert_eq!(Screen::Home.central_panel(), CentralPanel::Heading("this is home, not yet implemented. Go to Race"));
    assert_eq!(Screen::Classes.central_panel(), CentralPanel::ClassPage);
    assert_eq!(Screen::Races.central_panel(), CentralPanel::RacePage);
    assert_eq!(Screen::Weapons.central_panel(), CentralPanel::WeaponPage);
    assert_eq!(Screen::Exit.central_panel(), CentralPanel::Close);
}

#[test]
fn class_screen_switches() {
    let mut class = Class::default();
    assert_eq!(class.view(), "this is class");
    class.update(Message::Edit);
    assert_eq!(class.view(), "This is editing class");
    class.update(Message::Display);
    assert_eq!(class.view(), "this is class");
}
