use character_tracker::pages::weapons::format_damage_dice;
use character_tracker::models::{Die, RacialTrait};
use character_tracker::pages::races::{move_speed_label, trait_label};
use character_tracker::text::{decimal_string, signed_decimal_string};

#[test]
fn decimal_numbers() {
    assert_eq!(decimal_string(0), "0");
    assert_eq!(decimal_string(7), "7");
    assert_eq!(decimal_string(10), "10");
    assert_eq!(decimal_string(12345), "12345");
    assert_eq!(decimal_string(u64::MAX), u64::MAX.to_string());
}

#[test]
fn no_dice_show_a_dash() {
    assert_eq!(format_damage_dice(&[]), "—");
}

#[test]
fn dice_are_counted_smallest_first() {
    assert_eq!(format_damage_dice(&[Die::D8, Die::D8, Die::D6]), "1d6 + 2d8");
}

#[test]
fn dice_order_does_not_matter() {
    assert_eq!(
        format_damage_dice(&[Die::D6, Die::D8, Die::D8]),
        format_damage_dice(&[Die::D8, Die::D6, Die::D8]),
    );
}

#[test]
fn one_kind_of_die() {
    assert_eq!(format_damage_dice(&[Die::D20; 12]), "12d20");
}

#[test]
fn every_kind_of_die() {
    let dice = [Die::D20, Die::D12, Die::D10, Die::D8, Die::D6, Die::D4, Die::D4];
    assert_eq!(format_damage_dice(&dice), "2d4 + 1d6 + 1d8 + 1d10 + 1d12 + 1d20");
}

#[test]
fn signed_numbers() {
    assert_eq!(signed_decimal_string(0), "0");
    assert_eq!(signed_decimal_string(-7), "-7");
    assert_eq!(signed_decimal_string(42), "42");
    assert_eq!(signed_decimal_string(i64::MIN), i64::MIN.to_string());
}

#[test]
fn race_labels() {
    let t = RacialTrait { level: -2, trait_name: "keen senses".to_string(), description: String::new() };
    assert_eq!(trait_label(&t), "  - [-2] keen senses");
    assert_eq!(move_speed_label(30), "  - 30 ft.");
}
