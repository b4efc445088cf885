use mellon_book::item::weapon::{
    DamageType, WeaponBuildError, WeaponBuilder, WeaponProperty, WeaponStyle, WeaponType,
};
use mellon_book::logical::Logical;
use mellon_book::spell::Range;

#[test]
fn every_style_has_exactly_one_compatible_type() {
    let styles = [
        WeaponStyle::Axe,
        WeaponStyle::Bow,
        WeaponStyle::Chained,
        WeaponStyle::Crossbow,
        WeaponStyle::Fist,
        WeaponStyle::Hammer,
        WeaponStyle::Pick,
        WeaponStyle::Spear,
        WeaponStyle::Staff,
        WeaponStyle::Sword,
        WeaponStyle::Whip,
    ];
    for style in styles {
        let ranged = matches!(style, WeaponStyle::Bow | WeaponStyle::Crossbow);
        assert_eq!(WeaponType::Ranged.compatible_with_style(style), ranged);
        assert_eq!(WeaponType::Melee.compatible_with_style(style), !ranged);
        assert_eq!(style.compatible_with_type(WeaponType::Ranged), ranged);
        assert_eq!(style.compatible_with_type(WeaponType::Melee), !ranged);
    }
}

#[test]
fn default_damage_type_is_fixed_per_style() {
    assert_eq!(
        WeaponStyle::Axe.default_damage_type(),
        Some(DamageType::Slashing)
    );
    assert_eq!(
        WeaponStyle::Sword.default_damage_type(),
        Some(DamageType::Slashing)
    );
    assert_eq!(
        WeaponStyle::Whip.default_damage_type(),
        Some(DamageType::Slashing)
    );
    assert_eq!(
        WeaponStyle::Bow.default_damage_type(),
        Some(DamageType::Piercing)
    );
    assert_eq!(
        WeaponStyle::Crossbow.default_damage_type(),
        Some(DamageType::Piercing)
    );
    assert_eq!(
        WeaponStyle::Pick.default_damage_type(),
        Some(DamageType::Piercing)
    );
    assert_eq!(
        WeaponStyle::Spear.default_damage_type(),
        Some(DamageType::Piercing)
    );
    assert_eq!(
        WeaponStyle::Chained.default_damage_type(),
        Some(DamageType::Bludgeoning)
    );
    assert_eq!(
        WeaponStyle::Hammer.default_damage_type(),
        Some(DamageType::Bludgeoning)
    );
    assert_eq!(
        WeaponStyle::Staff.default_damage_type(),
        Some(DamageType::Bludgeoning)
    );
    assert_eq!(WeaponStyle::Fist.default_damage_type(), None);
}

#[test]
fn lookup_functions_are_stable_across_repeated_calls() {
    assert_eq!(
        WeaponType::Melee.default_base_range(),
        WeaponType::Melee.default_base_range()
    );
    assert_eq!(
        WeaponType::Ranged.default_base_range(),
        WeaponType::Ranged.default_base_range()
    );
    assert_eq!(
        WeaponStyle::Fist.default_damage_type(),
        WeaponStyle::Fist.default_damage_type()
    );
    assert_eq!(
        WeaponStyle::Sword.default_damage_type(),
        WeaponStyle::Sword.default_damage_type()
    );
}

#[test]
fn property_costs_are_fixed() {
    assert_eq!(WeaponProperty::TwoHanded.get_cost(), -1);
    assert_eq!(WeaponProperty::Unwieldy.get_cost(), -1);
    assert_eq!(WeaponProperty::Ammo.get_cost(), 0);
    assert_eq!(WeaponProperty::Reload.get_cost(), 0);
    assert_eq!(WeaponProperty::Capture.get_cost(), 0);
    assert_eq!(WeaponProperty::Concealable.get_cost(), 1);
    assert_eq!(WeaponProperty::Guard.get_cost(), 1);
    assert_eq!(WeaponProperty::Impact.get_cost(), 1);
    assert_eq!(WeaponProperty::LongRanged.get_cost(), 1);
    assert_eq!(
        WeaponProperty::MultiFaceted(WeaponStyle::Whip).get_cost(),
        1
    );
    assert_eq!(WeaponProperty::Returning.get_cost(), 1);
    assert_eq!(WeaponProperty::Silent.get_cost(), 1);
    assert_eq!(WeaponProperty::Toss.get_cost(), 1);
    assert_eq!(WeaponProperty::Thrown.get_cost(), 1);
    assert_eq!(WeaponProperty::Versatile.get_cost(), 1);
    assert_eq!(WeaponProperty::Reach.get_cost(), 1);
    assert_eq!(WeaponProperty::Heavy.get_cost(), 2);
}

#[test]
fn property_dependencies_are_fixed() {
    assert_eq!(
        WeaponProperty::Heavy.get_property_dependency(),
        Some(WeaponProperty::TwoHanded)
    );
    assert_eq!(
        WeaponProperty::Thrown.get_property_dependency(),
        Some(WeaponProperty::Toss)
    );
    assert_eq!(
        WeaponProperty::Returning.get_property_dependency(),
        Some(WeaponProperty::Toss)
    );
    assert_eq!(WeaponProperty::Ammo.get_property_dependency(), None);
    assert_eq!(WeaponProperty::Capture.get_property_dependency(), None);
}

#[test]
fn capture_requires_chained_or_whip() {
    assert_eq!(
        WeaponProperty::Capture.get_style_dependency(),
        Some(Logical::Unit(WeaponStyle::Chained).or(Logical::Unit(WeaponStyle::Whip)))
    );
    assert_eq!(WeaponProperty::Heavy.get_style_dependency(), None);
    assert!(WeaponProperty::Capture.is_compatible_with_style(WeaponStyle::Chained));
    assert!(WeaponProperty::Capture.is_compatible_with_style(WeaponStyle::Whip));
    assert!(!WeaponProperty::Capture.is_compatible_with_style(WeaponStyle::Sword));
    assert!(
        !WeaponProperty::MultiFaceted(WeaponStyle::Whip).is_compatible_with_style(WeaponStyle::Whip)
    );
    assert!(
        WeaponProperty::MultiFaceted(WeaponStyle::Whip).is_compatible_with_style(WeaponStyle::Sword)
    );
}

#[test]
fn properties_legal_for_both_types_exist() {
    for property in [
        WeaponProperty::Heavy,
        WeaponProperty::Impact,
        WeaponProperty::TwoHanded,
        WeaponProperty::Unwieldy,
    ] {
        assert!(property.is_melee_property());
        assert!(property.is_ranged_property());
        assert!(property.compatible_with_weapon_type(WeaponType::Melee));
        assert!(property.compatible_with_weapon_type(WeaponType::Ranged));
    }
    assert!(!WeaponProperty::Ammo.is_melee_property());
    assert!(WeaponProperty::Ammo.is_ranged_property());
    assert!(WeaponProperty::Reach.is_melee_property());
    assert!(!WeaponProperty::Reach.is_ranged_property());
}

#[test]
fn duplicate_add_fails_regardless_of_history() -> Result<(), WeaponBuildError> {
    // A preset builder already holding Ammo rejects it just as a fresh one
    // rejects its own re-add.
    let mut ranged = WeaponBuilder::new_ranged();
    assert_eq!(
        ranged.add_property(WeaponProperty::Ammo),
        Err(WeaponBuildError::DuplicateProperty(WeaponProperty::Ammo))
    );

    let mut melee = WeaponBuilder::new_melee();
    melee.style(WeaponStyle::Spear)?;
    melee.add_property(WeaponProperty::Toss)?;
    melee.add_property(WeaponProperty::Thrown)?;
    assert_eq!(
        melee.add_property(WeaponProperty::Thrown),
        Err(WeaponBuildError::DuplicateProperty(WeaponProperty::Thrown))
    );

    // The rejected call left the builder as it was.
    assert_eq!(
        melee.properties,
        Some(vec![WeaponProperty::Toss, WeaponProperty::Thrown])
    );

    Ok(())
}

#[test]
fn add_properties_stops_at_first_rejection() -> Result<(), WeaponBuildError> {
    let mut builder = WeaponBuilder::new_melee();
    assert_eq!(
        builder.add_properties(&[
            WeaponProperty::Heavy,
            WeaponProperty::LongRanged,
            WeaponProperty::Guard
        ]),
        Err(WeaponBuildError::IncompatibleProperty(
            WeaponProperty::LongRanged,
            WeaponType::Melee
        ))
    );
    // Properties added before the rejection stay; the rest were never added.
    assert_eq!(builder.properties, Some(vec![WeaponProperty::Heavy]));

    Ok(())
}

#[test]
fn remove_property_takes_out_the_property() -> Result<(), WeaponBuildError> {
    let mut builder = WeaponBuilder::new_melee();
    builder.add_properties(&[WeaponProperty::Guard, WeaponProperty::Versatile])?;
    builder.remove_property(WeaponProperty::Guard)?;
    assert_eq!(builder.properties, Some(vec![WeaponProperty::Versatile]));

    let without = WeaponBuilder::new_melee()
        .with_property(WeaponProperty::Guard)?
        .without_property(WeaponProperty::Guard)?;
    assert_eq!(without.properties, Some(vec![]));

    Ok(())
}

#[test]
fn point_budget_is_stored_but_not_enforced() -> Result<(), WeaponBuildError> {
    // The accumulated cost here is 2 + 1 + 1 - 1 = 3, over the default
    // budget of 2, and the build still succeeds: the budget is advisory.
    let mut builder = WeaponBuilder::new_melee();
    assert_eq!(builder.max_points, 2);
    builder.style(WeaponStyle::Sword)?;
    builder.add_properties(&[
        WeaponProperty::Heavy,
        WeaponProperty::Versatile,
        WeaponProperty::Guard,
        WeaponProperty::TwoHanded,
    ])?;
    let cost: isize = builder
        .properties
        .as_ref()
        .unwrap()
        .iter()
        .map(|p| p.get_cost())
        .sum();
    assert!(cost > builder.max_points as isize);
    assert!(builder.build().is_ok());

    Ok(())
}

#[test]
fn incompatible_style_reported_by_checked_setters() -> Result<(), WeaponBuildError> {
    let mut builder = WeaponBuilder::new();
    builder.style(WeaponStyle::Bow)?;
    assert_eq!(
        builder.weapon_type(WeaponType::Melee),
        Err(WeaponBuildError::IncompatibleStyle(
            WeaponStyle::Bow,
            WeaponType::Melee
        ))
    );

    let mut melee = WeaponBuilder::new_melee();
    assert_eq!(
        melee.style(WeaponStyle::Crossbow),
        Err(WeaponBuildError::IncompatibleStyle(
            WeaponStyle::Crossbow,
            WeaponType::Melee
        ))
    );

    Ok(())
}

#[test]
fn built_weapons_satisfy_the_compatibility_invariants() -> Result<(), WeaponBuildError> {
    // A successful build always pairs a compatible type and style, carries
    // every required companion property, and satisfies every style formula.
    let mut builder = WeaponBuilder::new_melee();
    builder.style(WeaponStyle::Whip)?;
    builder.add_properties(&[
        WeaponProperty::Capture,
        WeaponProperty::Heavy,
        WeaponProperty::TwoHanded,
    ])?;
    let weapon = builder.build()?;

    assert!(weapon.weapon_type.compatible_with_style(weapon.style));
    for property in &weapon.properties {
        if let Some(dependency) = property.get_property_dependency() {
            assert!(weapon.properties.contains(&dependency));
        }
    }
    assert_eq!(weapon.get_range(), Range::Caster);

    Ok(())
}

#[test]
fn two_builds_of_one_builder_agree_on_content() -> Result<(), WeaponBuildError> {
    let mut builder = WeaponBuilder::new_melee();
    builder.style(WeaponStyle::Staff)?;
    let first = builder.build()?;
    let second = builder.build()?;
    assert_eq!(first.weapon_type, second.weapon_type);
    assert_eq!(first.style, second.style);
    assert_eq!(first.damage_type, second.damage_type);
    assert_eq!(first.properties, second.properties);
    assert_eq!(first.base_range, second.base_range);

    Ok(())
}

#[test]
fn unchecked_setters_bypass_validation() {
    let mut builder = WeaponBuilder::new();
    builder.style_unchecked(WeaponStyle::Bow);
    builder.weapon_type_unchecked(WeaponType::Melee);
    assert_eq!(builder.style, Some(WeaponStyle::Bow));
    assert_eq!(builder.weapon_type, Some(WeaponType::Melee));
    // The inconsistency is still caught at build time.
    assert_eq!(
        builder.build(),
        Err(WeaponBuildError::IncompatibleStyle(
            WeaponStyle::Bow,
            WeaponType::Melee
        ))
    );

    let mut by_value = WeaponBuilder::new()
        .with_weapon_type_unchecked(WeaponType::Ranged)
        .with_property_unchecked(WeaponProperty::Reach)
        .with_damage_type_unchecked(DamageType::Piercing);
    by_value.base_range_unchecked(Range::Touch);
    by_value.damage_type_unchecked(DamageType::Slashing);
    by_value.set_base_range_unchecked(Range::Spaces(9));
    assert_eq!(by_value.properties, Some(vec![WeaponProperty::Reach]));
    assert_eq!(by_value.damage_type, Some(DamageType::Slashing));
    assert_eq!(by_value.base_range, Some(Range::Spaces(9)));

    let mut multi = WeaponBuilder::new();
    multi.add_properties_unchecked(&[WeaponProperty::Ammo, WeaponProperty::Ammo]);
    assert_eq!(
        multi.properties,
        Some(vec![WeaponProperty::Ammo, WeaponProperty::Ammo])
    );
}

#[test]
fn explicit_base_range_wins_over_seeded_default() -> Result<(), WeaponBuildError> {
    let mut builder = WeaponBuilder::new();
    builder.base_range(Range::Spaces(3))?;
    builder.weapon_type(WeaponType::Melee)?;
    assert_eq!(builder.base_range, Some(Range::Spaces(3)));

    let with = WeaponBuilder::new_melee().with_base_range(Range::Touch)?;
    assert_eq!(with.base_range, Some(Range::Touch));

    let mut after = WeaponBuilder::new();
    after.set_weapon_type(WeaponType::Melee)?;
    after.set_base_range(Range::Spaces(2))?;
    after.set_style(WeaponStyle::Spear)?;
    after.set_damage_type(DamageType::Bludgeoning)?;
    assert_eq!(after.base_range, Some(Range::Spaces(2)));
    assert_eq!(after.damage_type, Some(DamageType::Bludgeoning));

    Ok(())
}

#[test]
fn default_builder_has_no_budget() {
    let builder = WeaponBuilder::default();
    assert_eq!(builder.max_points, 0);
    assert_eq!(builder.weapon_type, None);
    assert_eq!(builder.properties, None);
    assert_eq!(WeaponBuilder::new().max_points, 2);
}

#[test]
fn formulas_nest_through_or_and_and() {
    let chained_or_whip = Logical::Unit(WeaponStyle::Chained).or(Logical::Unit(WeaponStyle::Whip));
    let both = Logical::Unit(WeaponStyle::Axe).and(Logical::Unit(WeaponStyle::Sword));
    assert_eq!(
        chained_or_whip,
        Logical::Or(
            Box::new(Logical::Unit(WeaponStyle::Chained)),
            Box::new(Logical::Unit(WeaponStyle::Whip))
        )
    );
    assert_eq!(
        both,
        Logical::And(
            Box::new(Logical::Unit(WeaponStyle::Axe)),
            Box::new(Logical::Unit(WeaponStyle::Sword))
        )
    );
    let from_style: Logical<WeaponStyle> = WeaponStyle::Fist.into();
    assert_eq!(from_style, Logical::Unit(WeaponStyle::Fist));
}
