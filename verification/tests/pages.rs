use character_tracker::controller::{Command, Effect};
use character_tracker::models::{AbilityScoreBonus, Die, Skill};
use character_tracker::pages::races::{ConfirmationResult, Counter, Race, State};
use character_tracker::pages::weapons;

fn is_key(key: &str) -> bool {
    key.len() == 20 && key.chars().all(|c| c.is_ascii_digit() || c.is_ascii_lowercase())
}

#[test]
fn new_race_screen_is_blank() {
    let page = Race::new();
    assert_eq!(page.state, State::View);
    assert_eq!(page.temp.move_speed, "30");
    assert_eq!(page.temp.strength.name, "STR");
    assert_eq!(page.temp.charisma.name, "CHA");
    assert_eq!(page.temp.wisdom.counter, 0);
    assert!(page.temp.traits.as_slice().is_empty());
    assert!(page.build_error_message().is_none());
}

#[test]
fn counter_steps() {
    let mut c = Counter::new("DEX");
    c.increment();
    c.increment();
    c.decrement();
    assert_eq!(c.counter, 1);
    assert_eq!(c.name, "DEX");
}

#[test]
fn traits_are_kept_in_order_of_level() {
    let mut page = Race::new();
    for (name, level) in [("b", "3"), ("a", "1"), ("c", "3"), ("d", "+2"), ("e", "-1")] {
        page.temp.trait_name = name.to_string();
        page.temp.trait_description = "text".to_string();
        page.temp.trait_level = level.to_string();
        page.temp.add_trait();
        assert!(page.temp.trait_name.is_empty());
        assert!(page.temp.trait_level.is_empty());
        assert!(page.temp.trait_description.is_empty());
    }
    let names: Vec<&str> = page.temp.traits.as_slice().iter().map(|t| t.trait_name.as_str()).collect();
    assert_eq!(names, vec!["e", "a", "d", "b", "c"]);
    let levels: Vec<i8> = page.temp.traits.as_slice().iter().map(|t| t.level).collect();
    assert_eq!(levels, vec![-1, 1, 2, 3, 3]);
}

#[test]
fn a_trait_needs_name_description_and_level() {
    let mut page = Race::new();
    page.temp.trait_name = "keen senses".to_string();
    page.temp.trait_description = String::new();
    page.temp.trait_level = "1".to_string();
    page.temp.add_trait();
    assert!(page.temp.traits.as_slice().is_empty());
    assert_eq!(page.temp.trait_name, "keen senses");

    page.temp.trait_description = "perception".to_string();
    for bad in ["", "abc", "1 ", "128", "-129", "+", "-"] {
        page.temp.trait_level = bad.to_string();
        page.temp.add_trait();
        assert!(page.temp.traits.as_slice().is_empty());
        assert_eq!(page.temp.trait_level, bad);
    }
    page.temp.trait_level = "-128".to_string();
    page.temp.add_trait();
    assert_eq!(page.temp.traits.as_slice()[0].level, -128);
}

#[test]
fn languages_are_added_when_typed() {
    let mut page = Race::new();
    page.temp.add_language();
    assert!(page.temp.languages.is_empty());
    page.temp.new_language_input = "Elvish".to_string();
    page.temp.add_language();
    assert_eq!(page.temp.languages, vec!["Elvish".to_string()]);
    assert!(page.temp.new_language_input.is_empty());
}

#[test]
fn toggling_a_skill_twice() {
    let mut page = Race::new();
    page.temp.toggle_skill(Skill::Arcana);
    page.temp.toggle_skill(Skill::Stealth);
    assert_eq!(page.temp.skills, vec![Skill::Arcana, Skill::Stealth]);
    page.temp.toggle_skill(Skill::Arcana);
    assert_eq!(page.temp.skills, vec![Skill::Stealth]);
    page.temp.toggle_skill(Skill::Arcana);
    assert_eq!(page.temp.skills, vec![Skill::Stealth, Skill::Arcana]);
}

fn filled_page() -> Race {
    let mut page = Race::new();
    page.start_create();
    page.temp.race_name = "elf".to_string();
    page.temp.move_speed = "35".to_string();
    page.temp.dexterity.increment();
    page.temp.dexterity.increment();
    page.temp.charisma.increment();
    page.temp.new_language_input = "Elvish".to_string();
    page.temp.add_language();
    page.temp.toggle_skill(Skill::Perception);
    page.temp.trait_name = "dark vision".to_string();
    page.temp.trait_description = "see in dim light".to_string();
    page.temp.trait_level = "1".to_string();
    page.temp.add_trait();
    page
}

#[test]
fn confirming_a_new_race_sends_it() {
    let mut page = filled_page();
    page.press_confirm();
    assert_eq!(page.state, State::ConfirmCreate);
    assert!(page.confirm_create_step(ConfirmationResult::Pending).is_empty());
    assert_eq!(page.state, State::ConfirmCreate);
    let effects = page.confirm_create_step(ConfirmationResult::Confirmed);
    assert_eq!(effects.len(), 2);
    match &effects[0] {
        Effect::Send(Command::CreateRace(race)) => {
            assert_eq!(race.id.table, "race");
            assert!(is_key(&race.id.key));
            assert_eq!(race.race_name, "elf");
            assert_eq!(race.move_speed, 35);
            assert_eq!(
                race.ability_score_increase,
                AbilityScoreBonus { strength: 0, dexterity: 2, constitution: 0, intelligence: 0, wisdom: 0, charisma: 1 }
            );
            assert_eq!(race.racial_traits.len(), 1);
            assert_eq!(race.racial_traits[0].trait_name, "dark vision");
            assert_eq!(race.skill_proficiency_bonus, vec![Skill::Perception]);
            assert_eq!(race.languages, vec!["Elvish".to_string()]);
        }
        _ => panic!("expected a new race"),
    }
    assert!(matches!(effects[1], Effect::Send(Command::LoadRaces)));
    assert_eq!(page.state, State::View);
    assert!(page.temp.race_name.is_empty());
    assert!(page.temp.languages.is_empty());
    assert!(page.temp.skills.is_empty());
    assert!(page.temp.traits.as_slice().is_empty());
    assert_eq!(page.temp.move_speed, "35");
    assert_eq!(page.temp.dexterity.counter, 2);
}

#[test]
fn an_unreadable_move_speed_becomes_zero() {
    let mut page = filled_page();
    page.temp.move_speed = "fast".to_string();
    page.press_confirm();
    let effects = page.confirm_create_step(ConfirmationResult::Confirmed);
    match &effects[0] {
        Effect::Send(Command::CreateRace(race)) => assert_eq!(race.move_speed, 0),
        _ => panic!("expected a new race"),
    }
}

#[test]
fn a_race_without_name_shows_the_error() {
    let mut page = filled_page();
    page.temp.race_name = String::new();
    page.press_confirm();
    let effects = page.confirm_create_step(ConfirmationResult::Confirmed);
    assert_eq!(effects.len(), 1);
    assert!(matches!(effects[0], Effect::Send(Command::LoadRaces)));
    assert_eq!(page.state, State::ErrorCreate);
    assert_eq!(page.build_error_message().unwrap(), "Missing required field: race_name");
    assert_eq!(page.temp.languages, vec!["Elvish".to_string()]);
    page.error_closed();
    assert_eq!(page.state, State::Create);
}

#[test]
fn cancelling_the_confirmation_returns_to_the_form() {
    let mut page = filled_page();
    page.press_confirm();
    assert!(page.confirm_create_step(ConfirmationResult::Cancelled).is_empty());
    assert_eq!(page.state, State::Create);
    assert_eq!(page.temp.race_name, "elf");
}

#[test]
fn exit_clears_the_form() {
    let mut page = filled_page();
    page.press_exit();
    assert_eq!(page.state, State::View);
    assert!(page.temp.race_name.is_empty());
    assert!(page.temp.move_speed.is_empty());
    assert_eq!(page.temp.dexterity.counter, 0);
    assert_eq!(page.temp.dexterity.name, "DEX");
}

#[test]
fn deleting_the_picked_race() {
    let mut page = Race::new();
    let mut selected = None;
    let mut store = filled_page();
    store.press_confirm();
    if let Effect::Send(Command::CreateRace(race)) = store.confirm_create_step(ConfirmationResult::Confirmed).remove(0) {
        selected = Some(race);
    }
    let key = selected.as_ref().unwrap().id.key.clone();
    page.start_delete();
    assert!(page.delete_step(ConfirmationResult::Pending, &selected).is_empty());
    assert_eq!(page.state, State::Delete);
    let effects = page.delete_step(ConfirmationResult::Confirmed, &selected);
    assert_eq!(page.state, State::View);
    assert_eq!(effects.len(), 3);
    match &effects[0] {
        Effect::Send(Command::DeleteRace(id)) => assert_eq!(id.key, key),
        _ => panic!("expected a deletion"),
    }
    assert!(matches!(effects[1], Effect::ClearSelectedRace));
    assert!(matches!(effects[2], Effect::Send(Command::LoadRaces)));
}

#[test]
fn cancelling_a_deletion() {
    let mut page = Race::new();
    page.start_delete();
    assert!(page.delete_step(ConfirmationResult::Cancelled, &None).is_empty());
    assert_eq!(page.state, State::View);
}

#[test]
fn dialogs_are_ignored_in_other_states() {
    let mut page = Race::new();
    assert!(page.delete_step(ConfirmationResult::Confirmed, &None).is_empty());
    assert!(page.confirm_create_step(ConfirmationResult::Confirmed).is_empty());
    page.error_closed();
    assert_eq!(page.state, State::View);
}

#[test]
fn the_weapon_plus_stores_a_placeholder() {
    let mut page = weapons::Weapon::new();
    let effects = page.start_create();
    assert_eq!(page.state, weapons::State::Create);
    match &effects[0] {
        Effect::Send(Command::CreateWeapon(w)) => {
            assert_eq!(w.id.table, "weapon");
            assert!(is_key(&w.id.key));
            assert_eq!(w.weapon_name, "test");
            assert_eq!(w.damage_dice, vec![Die::D8, Die::D8, Die::D6]);
            assert_eq!(f32::from_bits(w.weight_bits), 2.0);
            assert_eq!(w.properties, vec!["one".to_string(), "two".to_string()]);
            assert_eq!(w.damage_type, "idk something");
        }
        _ => panic!("expected a new weapon"),
    }
}

#[test]
fn deleting_a_weapon_forgets_the_picked_race() {
    let mut page = weapons::Weapon::new();
    let mut creator = weapons::Weapon::new();
    let selected = match creator.start_create().remove(0) {
        Effect::Send(Command::CreateWeapon(w)) => Some(w),
        _ => None,
    };
    page.start_delete();
    let effects = page.delete_step(weapons::ConfirmationResult::Confirmed, &selected);
    assert_eq!(page.state, weapons::State::View);
    assert!(matches!(effects[0], Effect::Send(Command::DeleteWeapon(_))));
    assert!(matches!(effects[1], Effect::ClearSelectedRace));
    assert!(matches!(effects[2], Effect::Send(Command::LoadWeapons)));
}

#[test]
fn weapon_form_confirm_and_exit() {
    let mut page = weapons::Weapon::new();
    page.start_create();
    page.temp.weapon_name = "axe".to_string();
    page.temp.weight_bits = 3.5f32.to_bits();
    page.press_confirm();
    page.confirm_create_step(weapons::ConfirmationResult::Confirmed);
    assert_eq!(page.state, weapons::State::ConfirmCreate);
    page.confirm_create_step(weapons::ConfirmationResult::Cancelled);
    assert_eq!(page.state, weapons::State::Create);
    page.press_exit();
    assert_eq!(page.state, weapons::State::View);
    assert!(page.temp.weapon_name.is_empty());
    assert_eq!(page.temp.weight_bits, 0);
}
