use bevy_ecs::entity::Entity;
use game_library::mutual_exclusivity_guard::{
    mutually_exclusive_component_panic, ConflictingEntity,
};

fn unnamed(entity: u64) -> ConflictingEntity {
    ConflictingEntity { entity, name: None }
}

fn named(entity: u64, name: &str) -> ConflictingEntity {
    ConflictingEntity { entity, name: Some(name.to_string()) }
}

#[test]
fn nothing_found_gives_no_message() {
    let found: Vec<ConflictingEntity> = Vec::new();
    assert_eq!(mutually_exclusive_component_panic(&found, "Frozen", "Burning"), None);
}

#[test]
fn unnamed_entity_is_reported_by_its_identifier() {
    let found = vec![unnamed(5)];
    let message = mutually_exclusive_component_panic(&found, "Frozen", "Burning");
    assert_eq!(
        message,
        Some("Entity 5v0 has two mutually exclusive components, Frozen and Burning.\n".to_string())
    );
}

#[test]
fn named_entity_is_reported_with_its_name() {
    let found = vec![named(7, "Box 1")];
    let message = mutually_exclusive_component_panic(&found, "game::Frozen", "game::Burning");
    assert_eq!(
        message,
        Some(
            "Entity 7v0 with name Box 1 has two mutually exclusive components, game::Frozen and game::Burning.\n"
                .to_string()
        )
    );
}

#[test]
fn every_entity_gets_a_line_in_the_order_found() {
    let found = vec![named(3, "first"), unnamed(1), named(2, "last")];
    let message = mutually_exclusive_component_panic(&found, "A", "B").unwrap();
    assert_eq!(
        message,
        "Entity 3v0 with name first has two mutually exclusive components, A and B.\n\
         Entity 1v0 has two mutually exclusive components, A and B.\n\
         Entity 2v0 with name last has two mutually exclusive components, A and B.\n"
    );
    assert_eq!(message.lines().count(), 3);
}

#[test]
fn identifier_shows_index_then_generation() {
    let bits: u64 = (2u64 << 32) | 5;
    let message = mutually_exclusive_component_panic(&vec![unnamed(bits)], "A", "B").unwrap();
    assert_eq!(message, "Entity 5v2 has two mutually exclusive components, A and B.\n");
}

#[test]
fn identifier_of_all_zero_bits() {
    let message = mutually_exclusive_component_panic(&vec![unnamed(0)], "A", "B").unwrap();
    assert_eq!(message, "Entity 0v0 has two mutually exclusive components, A and B.\n");
}

#[test]
fn identifier_of_all_one_bits() {
    let message = mutually_exclusive_component_panic(&vec![unnamed(u64::MAX)], "A", "B").unwrap();
    assert_eq!(
        message,
        "Entity 4294967295v4294967295 has two mutually exclusive components, A and B.\n"
    );
}

#[test]
fn identifier_with_several_digits() {
    let bits: u64 = (1234567890u64 << 32) | 1002003;
    let message = mutually_exclusive_component_panic(&vec![unnamed(bits)], "A", "B").unwrap();
    assert_eq!(
        message,
        "Entity 1002003v1234567890 has two mutually exclusive components, A and B.\n"
    );
}

#[test]
fn identifier_is_written_as_the_engine_writes_it() {
    for entity in [Entity::from_raw(0), Entity::from_raw(42), Entity::from_bits(0x0000_00ff_0000_00cc)] {
        let message =
            mutually_exclusive_component_panic(&vec![unnamed(entity.to_bits())], "A", "B").unwrap();
        assert_eq!(
            message,
            format!("Entity {:?} has two mutually exclusive components, A and B.\n", entity)
        );
    }
}

#[test]
fn empty_name_is_still_a_name() {
    let message = mutually_exclusive_component_panic(&vec![named(9, "")], "A", "B").unwrap();
    assert_eq!(message, "Entity 9v0 with name  has two mutually exclusive components, A and B.\n");
}

#[test]
fn names_and_type_names_are_copied_as_they_are() {
    let message =
        mutually_exclusive_component_panic(&vec![named(1, "Zo\u{eb} \u{1f600}\n")], "m::A<T>", "").unwrap();
    assert_eq!(
        message,
        "Entity 1v0 with name Zo\u{eb} \u{1f600}\n has two mutually exclusive components, m::A<T> and .\n"
    );
}
