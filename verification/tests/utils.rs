use mellon_book::class::{ClassTableColumn, SpellFamily};
use mellon_book::field_aggregator::FieldAggregator;
use mellon_book::maneuver::ManeuverKind;
use mellon_book::skill::Skill;
use mellon_book::spell::{Duration, Range};
use mellon_book::utils::SwapResult;

#[test]
fn _swaps_result_ok_and_err() {
    let result: Result<usize, ()> = Ok(42);
    assert_eq!(result.swap(), Err(42));

    let result: Result<(), usize> = Err(42);
    assert_eq!(result.swap(), Ok(42));
}

#[test]
fn field_aggregator_collects_only_unset_fields() {
    let mut fa = FieldAggregator::new();
    assert!(fa.0.is_none());

    fa.field_check(&Some(1), "first");
    assert!(fa.0.is_none());

    fa.field_check(&None::<u32>, "second");
    fa.field_check(&Some("x"), "third");
    fa.field_check(&None::<bool>, "fourth");
    assert_eq!(fa.0, Some(vec!["second", "fourth"]));
}

#[test]
fn class_table_column_reads_by_level() {
    let column: ClassTableColumn = [1, 0, 1, 0, 0, 1, 0, 0, 1, 0].into();
    assert_eq!(column.get(1), 1);
    assert_eq!(column.get(2), 0);
    assert_eq!(column.get(6), 1);
    assert_eq!(column.get(10), 0);
    assert_eq!(column, ClassTableColumn([1, 0, 1, 0, 0, 1, 0, 0, 1, 0]));
}

#[test]
fn closed_vocabularies_compare_by_variant() {
    assert_ne!(SpellFamily::Conjuration, SpellFamily::Divination);
    assert_ne!(ManeuverKind::Attack, ManeuverKind::Defense);
    assert_eq!(ManeuverKind::Grapple, ManeuverKind::Grapple);
}

#[test]
fn range_and_duration_default_to_the_caster_and_the_instant() {
    assert_eq!(Range::default(), Range::Caster);
    assert_eq!(Duration::default(), Duration::Instant);
    assert_ne!(Range::Spaces(1), Range::Spaces(2));
    assert_ne!(Duration::Minutes(1), Duration::Rounds(1));
}

#[test]
fn skills_clone_field_for_field() {
    let skill = Skill {
        id: uuid::Uuid::from_u128(7),
        name: "Athletics".to_string(),
        attribute_id: uuid::Uuid::from_u128(9),
    };
    let copy = skill.clone();
    assert_eq!(skill, copy);
}
