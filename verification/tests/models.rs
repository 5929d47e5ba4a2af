use character_tracker::models::{AbilityScoreBonus, BuildError, Die, RaceBuilder, RacialTrait, Skill};

fn bonus() -> AbilityScoreBonus {
    AbilityScoreBonus { strength: 0, dexterity: 2, constitution: 0, intelligence: 0, wisdom: 0, charisma: 1 }
}

fn is_key(key: &str) -> bool {
    key.len() == 20 && key.chars().all(|c| c.is_ascii_digit() || c.is_ascii_lowercase())
}

#[test]
fn build_with_every_field_gives_the_race() {
    let mut builder = RaceBuilder::new();
    builder
        .id("race")
        .race_name("elf".to_string())
        .move_speed(30)
        .ability_score_increase(bonus())
        .add_racial_trait(RacialTrait { level: 1, trait_name: "dark vision".to_string(), description: "see in dim light 60ft".to_string() })
        .add_skill_proficiency(Skill::Perception)
        .add_skill_proficiency(Skill::Stealth)
        .add_language("Elvish".to_string())
        .add_language("Common".to_string());
    let race = builder.build().unwrap();
    assert_eq!(race.id.table, "race");
    assert!(is_key(&race.id.key));
    assert_eq!(race.race_name, "elf");
    assert_eq!(race.move_speed, 30);
    assert_eq!(race.ability_score_increase, bonus());
    assert_eq!(race.racial_traits.len(), 1);
    assert_eq!(race.racial_traits[0].trait_name, "dark vision");
    assert_eq!(race.skill_proficiency_bonus, vec![Skill::Perception, Skill::Stealth]);
    assert_eq!(race.languages, vec!["Elvish".to_string(), "Common".to_string()]);
}

fn missing(result: Result<character_tracker::models::Race, BuildError>) -> &'static str {
    match result {
        Err(BuildError::MissingField(f)) => f,
        Ok(_) => panic!("expected an error"),
    }
}

#[test]
fn build_reports_missing_id_first() {
    assert_eq!(missing(RaceBuilder::new().build()), "id");
}

#[test]
fn build_reports_missing_name() {
    let mut builder = RaceBuilder::new();
    builder.id("race").move_speed(30).ability_score_increase(bonus());
    assert_eq!(missing(builder.build()), "race_name");
}

#[test]
fn build_counts_an_empty_name_as_missing() {
    let mut builder = RaceBuilder::new();
    builder.id("race").race_name(String::new()).move_speed(30).ability_score_increase(bonus());
    assert_eq!(missing(builder.build()), "race_name");
}

#[test]
fn build_reports_missing_move_speed() {
    let mut builder = RaceBuilder::new();
    builder.id("race").race_name("dwarf".to_string()).ability_score_increase(bonus());
    assert_eq!(missing(builder.build()), "move_speed");
}

#[test]
fn build_reports_missing_ability_score_increase() {
    let mut builder = RaceBuilder::new();
    builder.id("race").race_name("dwarf".to_string()).move_speed(25);
    assert_eq!(missing(builder.build()), "ability_score_increase");
}

#[test]
fn build_error_message_names_the_field() {
    assert_eq!(BuildError::MissingField("race_name").message(), "Missing required field: race_name");
}

#[test]
fn two_fresh_ids_differ() {
    let mut a = RaceBuilder::new();
    a.id("race").race_name("a".to_string()).move_speed(1).ability_score_increase(bonus());
    let mut b = RaceBuilder::new();
    b.id("weapon").race_name("b".to_string()).move_speed(1).ability_score_increase(bonus());
    let a = a.build().unwrap();
    let b = b.build().unwrap();
    assert_eq!(b.id.table, "weapon");
    assert_ne!(a.id.key, b.id.key);
}

#[test]
fn skill_names() {
    assert_eq!(Skill::Acrobatics.name(), "Acrobatics");
    assert_eq!(Skill::AnimalHandling.name(), "Animal Handling");
    assert_eq!(Skill::Investigation.name(), "Investigation");
    assert_eq!(Skill::SleightOfHand.name(), "Sleight of Hand");
    assert_eq!(Skill::Survival.name(), "Survival");
}

#[test]
fn die_faces() {
    let faces: Vec<u8> = [Die::D4, Die::D6, Die::D8, Die::D10, Die::D12, Die::D20].iter().map(|d| d.value()).collect();
    assert_eq!(faces, vec![4, 6, 8, 10, 12, 20]);
}
