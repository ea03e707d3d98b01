use text_adventure::error::GameError;
use text_adventure::items::{Food, Item, Weapon};
use text_adventure::menu::OptionList;
use text_adventure::text::{decimal_string, push_decimal};

#[test]
fn decimal_of_small_numbers() {
    assert_eq!(decimal_string(0), "0");
    assert_eq!(decimal_string(7), "7");
    assert_eq!(decimal_string(9), "9");
    assert_eq!(decimal_string(10), "10");
    assert_eq!(decimal_string(42), "42");
    assert_eq!(decimal_string(100), "100");
    assert_eq!(decimal_string(1234567890), "1234567890");
}

#[test]
fn decimal_of_the_largest_number() {
    assert_eq!(decimal_string(u64::MAX), "18446744073709551615");
    assert_eq!(decimal_string(u32::MAX as u64), "4294967295");
}

#[test]
fn decimal_agrees_with_std() {
    for n in 0..2000u64 {
        assert_eq!(decimal_string(n), n.to_string());
    }
}

#[test]
fn push_decimal_appends() {
    let mut text = String::from("HP: ");
    push_decimal(&mut text, 305);
    assert_eq!(text, "HP: 305");
}

#[test]
fn items_have_names_and_descriptions() {
    let apple = Item::Food(Food { name: "Apple", heals_for: 4 });
    let sword = Item::Weapon(Weapon { name: "Sword", damage: 12 });
    assert_eq!(apple.get_name(), "Apple");
    assert_eq!(sword.get_name(), "Sword");
    assert_eq!(apple.get_description(), "Restores 4 HP when eaten");
    assert_eq!(sword.get_description(), "Deals 12 damage");
    assert!(apple.is_food());
    assert!(!sword.is_food());
}

#[test]
fn option_list_keeps_what_it_is_given() {
    let list = OptionList::new(vec!["a".to_string(), "b".to_string()], "Which?");
    assert_eq!(list.options, vec!["a".to_string(), "b".to_string()]);
    assert_eq!(list.prompt, "Which?");
}

#[test]
fn errors_have_messages() {
    assert_eq!(GameError::InvalidAction.message(), "That cannot be done with that item");
    assert_eq!(
        GameError::InvalidChoiceIndex.message(),
        "The menu returned a choice that was not offered"
    );
    assert_ne!(GameError::InvalidAction, GameError::InvalidChoiceIndex);
}
