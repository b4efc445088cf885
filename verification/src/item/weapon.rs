//! The weapon configuration and validation engine.
//!
//! A [`WeaponBuilder`] accumulates a weapon type, style, damage type, base
//! range and a set of properties, and [`WeaponBuilder::build`] either
//! produces an immutable [`Weapon`] or reports one structured
//! [`WeaponBuildError`]. The vocabulary of types, styles, damage types and
//! properties is closed, and every compatibility and dependency rule over it
//! is a total function stated here as a spec function alongside the
//! executable lookup.

use crate::field_aggregator::collected_names;
use crate::field_aggregator::FieldAggregator;
use crate::logical::Logical;
use crate::spell::Range;
use vstd::prelude::*;
use vstd::string::StringExecFns;

verus! {

/// Top-level classification of a weapon; it gates which styles and
/// properties are legal and what the default base range is.
#[derive(Clone, Copy, Debug, PartialEq, Eq, Structural)]
pub enum WeaponType {
    Melee,
    Ranged,
}

/// A named combat style. Bow and Crossbow have a natural affinity with
/// ranged weapons; every other style with melee weapons.
#[derive(Clone, Copy, Debug, PartialEq, Eq, Structural)]
pub enum WeaponStyle {
    Axe,
    Bow,
    Chained,
    Crossbow,
    Fist,
    Hammer,
    Pick,
    Spear,
    Staff,
    Sword,
    Whip,
}

/// The kind of damage a weapon deals.
#[derive(Clone, Copy, Debug, PartialEq, Eq, Structural)]
pub enum DamageType {
    Bludgeoning,
    Piercing,
    Slashing,
}

/// An optional modifier tag on a weapon. `MultiFaceted` carries a style the
/// weapon additionally counts as, for the purpose of style-dependent rules.
#[derive(Clone, Copy, Debug, PartialEq, Eq, Structural)]
pub enum WeaponProperty {
    Ammo,
    Concealable,
    Guard,
    Heavy,
    Impact,
    LongRanged,
    MultiFaceted(WeaponStyle),
    Reach,
    Reload,
    Silent,
    Toss,
    Thrown,
    TwoHanded,
    Unwieldy,
    Versatile,
    Returning,
    Capture,
}

/// Whether `style`'s natural affinity matches `weapon_type`: Bow and
/// Crossbow pair only with ranged weapons, every other style only with
/// melee weapons.
pub open spec fn spec_type_compatible_with_style(weapon_type: WeaponType, style: WeaponStyle) -> bool {
    match weapon_type {
        WeaponType::Melee => !(style == WeaponStyle::Bow || style == WeaponStyle::Crossbow),
        WeaponType::Ranged => style == WeaponStyle::Bow || style == WeaponStyle::Crossbow,
    }
}

/// The set of properties legal on a melee weapon.
pub open spec fn spec_is_melee_property(property: WeaponProperty) -> bool {
    match property {
        WeaponProperty::Concealable
        | WeaponProperty::Guard
        | WeaponProperty::Heavy
        | WeaponProperty::Impact
        | WeaponProperty::MultiFaceted(_)
        | WeaponProperty::Reach
        | WeaponProperty::Silent
        | WeaponProperty::Toss
        | WeaponProperty::Thrown
        | WeaponProperty::TwoHanded
        | WeaponProperty::Unwieldy
        | WeaponProperty::Versatile
        | WeaponProperty::Returning
        | WeaponProperty::Capture => true,
        _ => false,
    }
}

/// The set of properties legal on a ranged weapon.
pub open spec fn spec_is_ranged_property(property: WeaponProperty) -> bool {
    match property {
        WeaponProperty::Ammo
        | WeaponProperty::Heavy
        | WeaponProperty::Impact
        | WeaponProperty::LongRanged
        | WeaponProperty::Reload
        | WeaponProperty::TwoHanded
        | WeaponProperty::Unwieldy => true,
        _ => false,
    }
}

/// Whether `property` is in `weapon_type`'s legal property set.
pub open spec fn spec_type_compatible_with_property(
    weapon_type: WeaponType,
    property: WeaponProperty,
) -> bool {
    match weapon_type {
        WeaponType::Melee => spec_is_melee_property(property),
        WeaponType::Ranged => spec_is_ranged_property(property),
    }
}

/// The default base range of a weapon of type `weapon_type`.
pub open spec fn spec_default_base_range(weapon_type: WeaponType) -> Range {
    match weapon_type {
        WeaponType::Melee => Range::Spaces(1),
        WeaponType::Ranged => Range::Spaces(5),
    }
}

/// The default damage type of `style`; only Fist has none.
pub open spec fn spec_default_damage_type(style: WeaponStyle) -> Option<DamageType> {
    match style {
        WeaponStyle::Axe | WeaponStyle::Sword | WeaponStyle::Whip => Some(DamageType::Slashing),
        WeaponStyle::Bow | WeaponStyle::Crossbow | WeaponStyle::Pick | WeaponStyle::Spear => Some(
            DamageType::Piercing,
        ),
        WeaponStyle::Chained | WeaponStyle::Hammer | WeaponStyle::Staff => Some(
            DamageType::Bludgeoning,
        ),
        WeaponStyle::Fist => None,
    }
}

/// The point cost of `property`.
pub open spec fn spec_cost(property: WeaponProperty) -> int {
    match property {
        WeaponProperty::TwoHanded | WeaponProperty::Unwieldy => -1,
        WeaponProperty::Ammo | WeaponProperty::Reload | WeaponProperty::Capture => 0,
        WeaponProperty::Heavy => 2,
        _ => 1,
    }
}

/// The companion property `property` requires, if any: Heavy requires
/// TwoHanded; Thrown and Returning each require Toss.
pub open spec fn spec_property_dependency(property: WeaponProperty) -> Option<WeaponProperty> {
    match property {
        WeaponProperty::Heavy => Some(WeaponProperty::TwoHanded),
        WeaponProperty::Thrown | WeaponProperty::Returning => Some(WeaponProperty::Toss),
        _ => None,
    }
}

/// Whether `property` may sit on a weapon of style `style`: Capture asks for
/// Chained or Whip, and a MultiFaceted facet must differ from the declared
/// style.
pub open spec fn spec_prop_compatible_with_style(
    property: WeaponProperty,
    style: WeaponStyle,
) -> bool {
    match property {
        WeaponProperty::Capture => style == WeaponStyle::Chained || style == WeaponStyle::Whip,
        WeaponProperty::MultiFaceted(s) => s != style,
        _ => true,
    }
}

/// The style formula `property` requires, if any: Capture requires
/// (Chained or Whip).
pub open spec fn spec_style_dependency(property: WeaponProperty) -> Option<Logical<WeaponStyle>> {
    match property {
        WeaponProperty::Capture => Some(
            Logical::Or(
                Box::new(Logical::Unit(WeaponStyle::Chained)),
                Box::new(Logical::Unit(WeaponStyle::Whip)),
            ),
        ),
        _ => None,
    }
}

impl WeaponType {
    /// True iff `style`'s natural affinity matches this type.
    pub fn compatible_with_style(self, style: WeaponStyle) -> (r: bool)
        ensures
            r == spec_type_compatible_with_style(self, style),
    {
        match self {
            WeaponType::Melee => !(matches!(style, WeaponStyle::Bow | WeaponStyle::Crossbow)),
            WeaponType::Ranged => matches!(style, WeaponStyle::Bow | WeaponStyle::Crossbow),
        }
    }

    /// True iff `property` is in this type's legal property set.
    pub fn compatible_with_property(self, property: WeaponProperty) -> (r: bool)
        ensures
            r == spec_type_compatible_with_property(self, property),
    {
        match self {
            WeaponType::Melee => property.is_melee_property(),
            WeaponType::Ranged => property.is_ranged_property(),
        }
    }

    /// The default base range for this weapon type.
    pub fn default_base_range(&self) -> (r: Range)
        ensures
            r == spec_default_base_range(*self),
    {
        match self {
            WeaponType::Melee => Range::Spaces(1),
            WeaponType::Ranged => Range::Spaces(5),
        }
    }
}

impl WeaponStyle {
    /// True iff this style's natural affinity matches `weapon_type`.
    pub fn compatible_with_type(self, weapon_type: WeaponType) -> (r: bool)
        ensures
            r == spec_type_compatible_with_style(weapon_type, self),
    {
        weapon_type.compatible_with_style(self)
    }

    /// The default damage type of this style; only Fist has none.
    pub fn default_damage_type(self) -> (r: Option<DamageType>)
        ensures
            r == spec_default_damage_type(self),
    {
        match self {
            WeaponStyle::Axe | WeaponStyle::Sword | WeaponStyle::Whip => Some(DamageType::Slashing),
            WeaponStyle::Bow | WeaponStyle::Crossbow | WeaponStyle::Pick | WeaponStyle::Spear => Some(
                DamageType::Piercing,
            ),
            WeaponStyle::Chained | WeaponStyle::Hammer | WeaponStyle::Staff => Some(
                DamageType::Bludgeoning,
            ),
            WeaponStyle::Fist => None,
        }
    }
}

impl WeaponProperty {
    /// The point cost of this property.
    pub fn get_cost(self) -> (r: isize)
        ensures
            r as int == spec_cost(self),
    {
        match self {
            WeaponProperty::TwoHanded | WeaponProperty::Unwieldy => -1,
            WeaponProperty::Ammo | WeaponProperty::Reload | WeaponProperty::Capture => 0,
            WeaponProperty::Concealable
            | WeaponProperty::Guard
            | WeaponProperty::Impact
            | WeaponProperty::LongRanged
            | WeaponProperty::MultiFaceted(_)
            | WeaponProperty::Returning
            | WeaponProperty::Silent
            | WeaponProperty::Toss
            | WeaponProperty::Thrown
            | WeaponProperty::Versatile
            | WeaponProperty::Reach => 1,
            WeaponProperty::Heavy => 2,
        }
    }

    /// True iff this property is legal on a melee weapon.
    pub fn is_melee_property(self) -> (r: bool)
        ensures
            r == spec_is_melee_property(self),
    {
        matches!(
            self,
            Self::Concealable
                | Self::Guard
                | Self::Heavy
                | Self::Impact
                | Self::MultiFaceted(_)
                | Self::Reach
                | Self::Silent
                | Self::Toss
                | Self::Thrown
                | Self::TwoHanded
                | Self::Unwieldy
                | Self::Versatile
                | Self::Returning
                | Self::Capture
        )
    }

    /// True iff this property is legal on a ranged weapon.
    pub fn is_ranged_property(self) -> (r: bool)
        ensures
            r == spec_is_ranged_property(self),
    {
        matches!(
            self,
            Self::Ammo
                | Self::Heavy
                | Self::Impact
                | Self::LongRanged
                | Self::Reload
                | Self::TwoHanded
                | Self::Unwieldy
        )
    }

    /// True iff this property is in `weapon_type`'s legal property set.
    pub fn compatible_with_weapon_type(self, weapon_type: WeaponType) -> (r: bool)
        ensures
            r == spec_type_compatible_with_property(weapon_type, self),
    {
        weapon_type.compatible_with_property(self)
    }

    /// The companion property this one requires, if any.
    pub fn get_property_dependency(self) -> (r: Option<Self>)
        ensures
            r == spec_property_dependency(self),
    {
        match self {
            Self::Heavy => Some(Self::TwoHanded),
            Self::Thrown | Self::Returning => Some(Self::Toss),
            _ => None,
        }
    }

    /// True iff this property may sit on a weapon of style `style`.
    pub fn is_compatible_with_style(self, style: WeaponStyle) -> (r: bool)
        ensures
            r == spec_prop_compatible_with_style(self, style),
    {
        match self {
            Self::Capture => matches!(style, WeaponStyle::Chained | WeaponStyle::Whip),
            Self::MultiFaceted(s) => s != style,
            _ => true,
        }
    }

    /// The style formula this property requires, if any.
    pub fn get_style_dependency(&self) -> (r: Option<Logical<WeaponStyle>>)
        ensures
            r == spec_style_dependency(*self),
    {
        match self {
            Self::Capture => Some(
                Logical::Unit(WeaponStyle::Chained).or(Logical::Unit(WeaponStyle::Whip)),
            ),
            _ => None,
        }
    }
}

impl From<WeaponStyle> for Logical<WeaponStyle> {
    /// A style on its own is the formula asking for exactly that style.
    fn from(value: WeaponStyle) -> (r: Self) {
        Logical::Unit(value)
    }
}

impl vstd::std_specs::convert::FromSpecImpl<WeaponStyle> for Logical<WeaponStyle> {
    open spec fn obeys_from_spec() -> bool {
        true
    }

    open spec fn from_spec(value: WeaponStyle) -> Self {
        Logical::Unit(value)
    }
}

/// One reason a weapon cannot be built, or a builder call rejected.
#[derive(Debug, PartialEq)]
pub enum WeaponBuildError {
    MissingField(Vec<String>),
    IncompatibleStyle(WeaponStyle, WeaponType),
    IncompatibleProperty(WeaponProperty, WeaponType),
    DuplicateProperty(WeaponProperty),
    MissingProperty(Vec<WeaponProperty>),
    MissingStyleDependencies(Logical<WeaponStyle>),
}

/// A sequence of owned strings as their character sequences.
pub open spec fn strings_view(names: Seq<String>) -> Seq<Seq<char>> {
    names.map_values(|s: String| s@)
}

/// The mathematical content of a [`WeaponBuildError`]: the same variants
/// with the carried vectors abstracted to sequences.
#[verifier::ext_equal]
pub enum WeaponBuildErrorView {
    MissingField(Seq<Seq<char>>),
    IncompatibleStyle(WeaponStyle, WeaponType),
    IncompatibleProperty(WeaponProperty, WeaponType),
    DuplicateProperty(WeaponProperty),
    MissingProperty(Seq<WeaponProperty>),
    MissingStyleDependencies(Logical<WeaponStyle>),
}

impl View for WeaponBuildError {
    type V = WeaponBuildErrorView;

    open spec fn view(&self) -> WeaponBuildErrorView {
        match self {
            WeaponBuildError::MissingField(fields) => WeaponBuildErrorView::MissingField(
                strings_view(fields@),
            ),
            WeaponBuildError::IncompatibleStyle(s, t) => WeaponBuildErrorView::IncompatibleStyle(
                *s,
                *t,
            ),
            WeaponBuildError::IncompatibleProperty(p, t) => WeaponBuildErrorView::IncompatibleProperty(
                *p,
                *t,
            ),
            WeaponBuildError::DuplicateProperty(p) => WeaponBuildErrorView::DuplicateProperty(*p),
            WeaponBuildError::MissingProperty(ps) => WeaponBuildErrorView::MissingProperty(ps@),
            WeaponBuildError::MissingStyleDependencies(f) => WeaponBuildErrorView::MissingStyleDependencies(
                *f,
            ),
        }
    }
}

/// The stateful accumulator from which a [`Weapon`] is built.
///
/// `properties` distinguishes "no property ever added" (`None`) from an
/// empty set, as removal reports the two differently. `max_points` is a
/// stored budget that the current rules do not yet enforce.
#[derive(Clone, Debug, PartialEq)]
pub struct WeaponBuilder {
    pub weapon_type: Option<WeaponType>,
    pub style: Option<WeaponStyle>,
    pub damage_type: Option<DamageType>,
    pub properties: Option<Vec<WeaponProperty>>,
    pub base_range: Option<Range>,
    pub max_points: usize,
}

/// The mathematical content of a [`WeaponBuilder`].
#[verifier::ext_equal]
pub struct WeaponBuilderView {
    pub weapon_type: Option<WeaponType>,
    pub style: Option<WeaponStyle>,
    pub damage_type: Option<DamageType>,
    pub properties: Option<Seq<WeaponProperty>>,
    pub base_range: Option<Range>,
    pub max_points: nat,
}

impl View for WeaponBuilder {
    type V = WeaponBuilderView;

    open spec fn view(&self) -> WeaponBuilderView {
        WeaponBuilderView {
            weapon_type: self.weapon_type,
            style: self.style,
            damage_type: self.damage_type,
            properties: match self.properties {
                Some(ps) => Some(ps@),
                None => None,
            },
            base_range: self.base_range,
            max_points: self.max_points as nat,
        }
    }
}

/// The properties accumulated so far; empty when none was ever added.
pub open spec fn builder_props(v: WeaponBuilderView) -> Seq<WeaponProperty> {
    match v.properties {
        Some(ps) => ps,
        None => Seq::empty(),
    }
}

/// The builder state every construction starts from.
pub open spec fn spec_new_builder() -> WeaponBuilderView {
    WeaponBuilderView {
        weapon_type: None,
        style: None,
        damage_type: None,
        properties: None,
        base_range: None,
        max_points: 2,
    }
}

/// Setting the weapon type also seeds the type's default base range, if no
/// base range is set yet.
pub open spec fn spec_set_weapon_type_unchecked(
    v: WeaponBuilderView,
    weapon_type: WeaponType,
) -> WeaponBuilderView {
    WeaponBuilderView {
        weapon_type: Some(weapon_type),
        base_range: if v.base_range is None {
            Some(spec_default_base_range(weapon_type))
        } else {
            v.base_range
        },
        ..v
    }
}

/// The checked form rejects a weapon type that disagrees with an already
/// declared style.
pub open spec fn spec_check_weapon_type(
    v: WeaponBuilderView,
    weapon_type: WeaponType,
) -> Result<WeaponBuilderView, WeaponBuildErrorView> {
    match v.style {
        Some(style) if !spec_type_compatible_with_style(weapon_type, style) => Err(
            WeaponBuildErrorView::IncompatibleStyle(style, weapon_type),
        ),
        _ => Ok(spec_set_weapon_type_unchecked(v, weapon_type)),
    }
}

/// Setting the style also seeds the style's default damage type, if one
/// exists and no damage type is set yet.
pub open spec fn spec_set_style_unchecked(
    v: WeaponBuilderView,
    style: WeaponStyle,
) -> WeaponBuilderView {
    WeaponBuilderView {
        style: Some(style),
        damage_type: if v.damage_type is None && spec_default_damage_type(style) is Some {
            spec_default_damage_type(style)
        } else {
            v.damage_type
        },
        ..v
    }
}

/// The checked form rejects a style that disagrees with an already declared
/// weapon type.
pub open spec fn spec_check_style(
    v: WeaponBuilderView,
    style: WeaponStyle,
) -> Result<WeaponBuilderView, WeaponBuildErrorView> {
    match v.weapon_type {
        Some(weapon_type) if !spec_type_compatible_with_style(weapon_type, style) => Err(
            WeaponBuildErrorView::IncompatibleStyle(style, weapon_type),
        ),
        _ => Ok(spec_set_style_unchecked(v, style)),
    }
}

/// An explicit damage type always wins over a seeded default.
pub open spec fn spec_set_damage_type_unchecked(
    v: WeaponBuilderView,
    damage_type: DamageType,
) -> WeaponBuilderView {
    WeaponBuilderView { damage_type: Some(damage_type), ..v }
}

/// An explicit base range always wins over a seeded default.
pub open spec fn spec_set_base_range_unchecked(
    v: WeaponBuilderView,
    base_range: Range,
) -> WeaponBuilderView {
    WeaponBuilderView { base_range: Some(base_range), ..v }
}

/// Appending a property preserves insertion order.
pub open spec fn spec_add_property_unchecked(
    v: WeaponBuilderView,
    property: WeaponProperty,
) -> WeaponBuilderView {
    WeaponBuilderView { properties: Some(builder_props(v).push(property)), ..v }
}

/// The checked form rejects a property already present, and one illegal for
/// an already declared weapon type.
pub open spec fn spec_check_add_property(
    v: WeaponBuilderView,
    property: WeaponProperty,
) -> Result<WeaponBuilderView, WeaponBuildErrorView> {
    if builder_props(v).contains(property) {
        Err(WeaponBuildErrorView::DuplicateProperty(property))
    } else {
        match v.weapon_type {
            Some(weapon_type) if !spec_type_compatible_with_property(weapon_type, property) => Err(
                WeaponBuildErrorView::IncompatibleProperty(property, weapon_type),
            ),
            _ => Ok(spec_add_property_unchecked(v, property)),
        }
    }
}

/// Adding several properties applies the checked form to each in turn and
/// stops at the first rejection; the result pairs the verdict with the
/// state reached.
pub open spec fn spec_check_add_properties(
    v: WeaponBuilderView,
    properties: Seq<WeaponProperty>,
) -> (Result<(), WeaponBuildErrorView>, WeaponBuilderView)
    decreases properties.len(),
{
    if properties.len() == 0 {
        (Ok(()), v)
    } else {
        match spec_check_add_property(v, properties[0]) {
            Err(e) => (Err(e), v),
            Ok(v2) => spec_check_add_properties(v2, properties.drop_first()),
        }
    }
}

/// Appending several properties unchecked; a builder that never saw a
/// property stays that way when there is nothing to append.
pub open spec fn spec_add_properties_unchecked(
    v: WeaponBuilderView,
    properties: Seq<WeaponProperty>,
) -> WeaponBuilderView {
    if properties.len() == 0 {
        v
    } else {
        WeaponBuilderView { properties: Some(builder_props(v) + properties), ..v }
    }
}

/// Removing a property takes out the first occurrence; a builder that never
/// saw a property and one lacking this property are reported differently.
pub open spec fn spec_check_remove_property(
    v: WeaponBuilderView,
    property: WeaponProperty,
) -> Result<WeaponBuilderView, WeaponBuildErrorView> {
    match v.properties {
        None => Err(WeaponBuildErrorView::MissingField(seq!["properties"@])),
        Some(ps) => match ps.index_of_first(property) {
            None => Err(WeaponBuildErrorView::MissingProperty(seq![property])),
            Some(i) => Ok(WeaponBuilderView { properties: Some(ps.remove(i)), ..v }),
        },
    }
}

/// True iff `ps` holds `property`.
fn contains_property(ps: &Vec<WeaponProperty>, property: WeaponProperty) -> (b: bool)
    ensures
        b == ps@.contains(property),
{
    let mut i: usize = 0;
    while i < ps.len()
        invariant
            0 <= i <= ps@.len(),
            forall|j: int| 0 <= j < i ==> ps@[j] != property,
        decreases ps@.len() - i,
    {
        if ps[i] == property {
            assert(ps@[i as int] == property);
            return true;
        }
        i += 1;
    }
    false
}

/// The index of the first occurrence of `property` in `ps`, if any.
fn position_of(ps: &Vec<WeaponProperty>, property: WeaponProperty) -> (r: Option<usize>)
    ensures
        match r {
            Some(i) => ps@.index_of_first(property) == Some(i as int),
            None => ps@.index_of_first(property) is None,
        },
{
    let mut i: usize = 0;
    while i < ps.len()
        invariant
            0 <= i <= ps@.len(),
            forall|j: int| 0 <= j < i ==> ps@[j] != property,
        decreases ps@.len() - i,
    {
        if ps[i] == property {
            proof {
                ps@.index_of_first_ensures(property);
                assert(ps@[i as int] == property);
                assert(ps@.contains(property));
            }
            return Some(i);
        }
        i += 1;
    }
    proof {
        ps@.index_of_first_ensures(property);
        assert(!ps@.contains(property));
    }
    None
}

impl Default for WeaponBuilder {
    /// Everything unset, and no point budget at all; see
    /// [`WeaponBuilder::new`] for the state construction starts from.
    fn default() -> (r: Self)
        ensures
            r@ == (WeaponBuilderView {
                weapon_type: None,
                style: None,
                damage_type: None,
                properties: None,
                base_range: None,
                max_points: 0,
            }),
    {
        WeaponBuilder {
            weapon_type: None,
            style: None,
            damage_type: None,
            properties: None,
            base_range: None,
            max_points: 0,
        }
    }
}

impl WeaponBuilder {
    /// An empty builder with the standard point budget.
    pub fn new() -> (r: Self)
        ensures
            r@ == spec_new_builder(),
    {
        WeaponBuilder {
            weapon_type: None,
            style: None,
            damage_type: None,
            properties: None,
            base_range: None,
            max_points: 2,
        }
    }

    /// A builder pre-set to a melee weapon, with the melee default base
    /// range already seeded.
    pub fn new_melee() -> (r: Self)
        ensures
            r@ == spec_set_weapon_type_unchecked(spec_new_builder(), WeaponType::Melee),
    {
        Self::new().with_weapon_type_unchecked(WeaponType::Melee)
    }

    /// A builder pre-set to a ranged weapon, with the ranged default base
    /// range seeded and the Ammo, TwoHanded and Unwieldy properties
    /// pre-added.
    pub fn new_ranged() -> (r: Self)
        ensures
            r@ == spec_add_properties_unchecked(
                spec_set_weapon_type_unchecked(spec_new_builder(), WeaponType::Ranged),
                seq![WeaponProperty::Ammo, WeaponProperty::TwoHanded, WeaponProperty::Unwieldy],
            ),
    {
        Self::new().with_weapon_type_unchecked(WeaponType::Ranged).with_properties_unchecked(
            &[WeaponProperty::Ammo, WeaponProperty::TwoHanded, WeaponProperty::Unwieldy],
        )
    }

    /// Declares the weapon type, rejecting one incompatible with an already
    /// declared style.
    pub fn set_weapon_type(&mut self, weapon_type: WeaponType) -> (r: Result<
        (),
        WeaponBuildError,
    >)
        ensures
            match spec_check_weapon_type(old(self)@, weapon_type) {
                Ok(v) => r is Ok && final(self)@ == v,
                Err(ev) => r matches Err(e) && e@ == ev && final(self)@ == old(self)@,
            },
    {
        if let Some(style) = self.style {
            if !style.compatible_with_type(weapon_type) {
                return Err(WeaponBuildError::IncompatibleStyle(style, weapon_type));
            }
        }
        self.set_weapon_type_unchecked(weapon_type);
        Ok(())
    }

    /// Declares the weapon type without checks, seeding the default base
    /// range if none is set.
    pub fn set_weapon_type_unchecked(&mut self, weapon_type: WeaponType)
        ensures
            final(self)@ == spec_set_weapon_type_unchecked(old(self)@, weapon_type),
    {
        if self.base_range.is_none() {
            self.set_base_range_unchecked(weapon_type.default_base_range());
        }
        self.weapon_type = Some(weapon_type);
    }

    /// Consuming form of [`Self::set_weapon_type`].
    pub fn with_weapon_type(self, weapon_type: WeaponType) -> (r: Result<Self, WeaponBuildError>)
        ensures
            match spec_check_weapon_type(self@, weapon_type) {
                Ok(v) => r matches Ok(b) && b@ == v,
                Err(ev) => r matches Err(e) && e@ == ev,
            },
    {
        let mut s = self;
        match s.set_weapon_type(weapon_type) {
            Ok(()) => Ok(s),
            Err(e) => Err(e),
        }
    }

    /// Consuming form of [`Self::set_weapon_type_unchecked`].
    pub fn with_weapon_type_unchecked(self, weapon_type: WeaponType) -> (r: Self)
        ensures
            r@ == spec_set_weapon_type_unchecked(self@, weapon_type),
    {
        let mut s = self;
        s.set_weapon_type_unchecked(weapon_type);
        s
    }

    /// Declares the weapon type; see [`Self::set_weapon_type`].
    pub fn weapon_type(&mut self, weapon_type: WeaponType) -> (r: Result<(), WeaponBuildError>)
        ensures
            match spec_check_weapon_type(old(self)@, weapon_type) {
                Ok(v) => r is Ok && final(self)@ == v,
                Err(ev) => r matches Err(e) && e@ == ev && final(self)@ == old(self)@,
            },
    {
        self.set_weapon_type(weapon_type)
    }

    /// Declares the weapon type without checks; see
    /// [`Self::set_weapon_type_unchecked`].
    pub fn weapon_type_unchecked(&mut self, weapon_type: WeaponType)
        ensures
            final(self)@ == spec_set_weapon_type_unchecked(old(self)@, weapon_type),
    {
        self.set_weapon_type_unchecked(weapon_type)
    }

    /// Declares the base range; an explicit range always succeeds and wins
    /// over any seeded default.
    pub fn set_base_range(&mut self, base_range: Range) -> (r: Result<(), WeaponBuildError>)
        ensures
            r is Ok,
            final(self)@ == spec_set_base_range_unchecked(old(self)@, base_range),
    {
        self.set_base_range_unchecked(base_range);
        Ok(())
    }

    /// Declares the base range without checks.
    pub fn set_base_range_unchecked(&mut self, base_range: Range)
        ensures
            final(self)@ == spec_set_base_range_unchecked(old(self)@, base_range),
    {
        self.base_range = Some(base_range);
    }

    /// Consuming form of [`Self::set_base_range`].
    pub fn with_base_range(self, base_range: Range) -> (r: Result<Self, WeaponBuildError>)
        ensures
            r matches Ok(b) && b@ == spec_set_base_range_unchecked(self@, base_range),
    {
        let mut s = self;
        s.set_base_range_unchecked(base_range);
        Ok(s)
    }

    /// Declares the base range; see [`Self::set_base_range`].
    pub fn base_range(&mut self, base_range: Range) -> (r: Result<(), WeaponBuildError>)
        ensures
            r is Ok,
            final(self)@ == spec_set_base_range_unchecked(old(self)@, base_range),
    {
        self.set_base_range(base_range)
    }

    /// Declares the base range without checks; see
    /// [`Self::set_base_range_unchecked`].
    pub fn base_range_unchecked(&mut self, base_range: Range)
        ensures
            final(self)@ == spec_set_base_range_unchecked(old(self)@, base_range),
    {
        self.set_base_range_unchecked(base_range)
    }

    /// Declares the style, rejecting one incompatible with an already
    /// declared weapon type.
    pub fn set_style(&mut self, style: WeaponStyle) -> (r: Result<(), WeaponBuildError>)
        ensures
            match spec_check_style(old(self)@, style) {
                Ok(v) => r is Ok && final(self)@ == v,
                Err(ev) => r matches Err(e) && e@ == ev && final(self)@ == old(self)@,
            },
    {
        if let Some(weapon_type) = self.weapon_type {
            if !weapon_type.compatible_with_style(style) {
                return Err(WeaponBuildError::IncompatibleStyle(style, weapon_type));
            }
        }
        self.set_style_unchecked(style);
        Ok(())
    }

    /// Declares the style without checks, seeding the style's default
    /// damage type if one exists and none is set.
    pub fn set_style_unchecked(&mut self, style: WeaponStyle)
        ensures
            final(self)@ == spec_set_style_unchecked(old(self)@, style),
    {
        if self.damage_type.is_none() {
            if let Some(default_damage_type) = style.default_damage_type() {
                self.set_damage_type_unchecked(default_damage_type);
            }
        }
        self.style = Some(style);
    }

    /// Consuming form of [`Self::set_style`].
    pub fn with_style(self, style: WeaponStyle) -> (r: Result<Self, WeaponBuildError>)
        ensures
            match spec_check_style(self@, style) {
                Ok(v) => r matches Ok(b) && b@ == v,
                Err(ev) => r matches Err(e) && e@ == ev,
            },
    {
        let mut s = self;
        match s.set_style(style) {
            Ok(()) => Ok(s),
            Err(e) => Err(e),
        }
    }

    /// Declares the style; see [`Self::set_style`].
    pub fn style(&mut self, style: WeaponStyle) -> (r: Result<(), WeaponBuildError>)
        ensures
            match spec_check_style(old(self)@, style) {
                Ok(v) => r is Ok && final(self)@ == v,
                Err(ev) => r matches Err(e) && e@ == ev && final(self)@ == old(self)@,
            },
    {
        self.set_style(style)
    }

    /// Declares the style without checks; see
    /// [`Self::set_style_unchecked`].
    pub fn style_unchecked(&mut self, style: WeaponStyle)
        ensures
            final(self)@ == spec_set_style_unchecked(old(self)@, style),
    {
        self.set_style_unchecked(style)
    }

    /// Declares the damage type; an explicit damage type always succeeds
    /// and wins over any seeded default.
    pub fn set_damage_type(&mut self, damage_type: DamageType) -> (r: Result<
        (),
        WeaponBuildError,
    >)
        ensures
            r is Ok,
            final(self)@ == spec_set_damage_type_unchecked(old(self)@, damage_type),
    {
        self.set_damage_type_unchecked(damage_type);
        Ok(())
    }

    /// Declares the damage type without checks.
    pub fn set_damage_type_unchecked(&mut self, damage_type: DamageType)
        ensures
            final(self)@ == spec_set_damage_type_unchecked(old(self)@, damage_type),
    {
        self.damage_type = Some(damage_type);
    }

    /// Consuming form of [`Self::set_damage_type`].
    pub fn with_damage_type(self, damage_type: DamageType) -> (r: Result<Self, WeaponBuildError>)
        ensures
            r matches Ok(b) && b@ == spec_set_damage_type_unchecked(self@, damage_type),
    {
        let mut s = self;
        s.set_damage_type_unchecked(damage_type);
        Ok(s)
    }

    /// Consuming form of [`Self::set_damage_type_unchecked`].
    pub fn with_damage_type_unchecked(self, damage_type: DamageType) -> (r: Self)
        ensures
            r@ == spec_set_damage_type_unchecked(self@, damage_type),
    {
        let mut s = self;
        s.set_damage_type_unchecked(damage_type);
        s
    }

    /// Declares the damage type; see [`Self::set_damage_type`].
    pub fn damage_type(&mut self, damage_type: DamageType) -> (r: Result<(), WeaponBuildError>)
        ensures
            r is Ok,
            final(self)@ == spec_set_damage_type_unchecked(old(self)@, damage_type),
    {
        self.set_damage_type(damage_type)
    }

    /// Declares the damage type without checks; see
    /// [`Self::set_damage_type_unchecked`].
    pub fn damage_type_unchecked(&mut self, damage_type: DamageType)
        ensures
            final(self)@ == spec_set_damage_type_unchecked(old(self)@, damage_type),
    {
        self.set_damage_type_unchecked(damage_type)
    }

    /// Adds a property, rejecting a duplicate and one illegal for an
    /// already declared weapon type; a rejected call leaves the builder
    /// exactly as it was.
    pub fn add_property(&mut self, property: WeaponProperty) -> (r: Result<(), WeaponBuildError>)
        ensures
            match spec_check_add_property(old(self)@, property) {
                Ok(v) => r is Ok && final(self)@ == v,
                Err(ev) => r matches Err(e) && e@ == ev && final(self)@ == old(self)@,
            },
    {
        let duplicate = match &self.properties {
            Some(ps) => contains_property(ps, property),
            None => false,
        };
        if duplicate {
            return Err(WeaponBuildError::DuplicateProperty(property));
        }
        if let Some(weapon_type) = self.weapon_type {
            if !weapon_type.compatible_with_property(property) {
                return Err(WeaponBuildError::IncompatibleProperty(property, weapon_type));
            }
        }
        self.add_property_unchecked(property);
        Ok(())
    }

    /// Appends a property without checks, preserving insertion order.
    pub fn add_property_unchecked(&mut self, property: WeaponProperty)
        ensures
            final(self)@ == spec_add_property_unchecked(old(self)@, property),
    {
        if self.properties.is_none() {
            self.properties = Some(Vec::new());
        }
        if let Some(ps) = &mut self.properties {
            ps.push(property);
        }
        assert(self@ =~= spec_add_property_unchecked(old(self)@, property));
    }

    /// Consuming form of [`Self::add_property`].
    pub fn with_property(self, property: WeaponProperty) -> (r: Result<Self, WeaponBuildError>)
        ensures
            match spec_check_add_property(self@, property) {
                Ok(v) => r matches Ok(b) && b@ == v,
                Err(ev) => r matches Err(e) && e@ == ev,
            },
    {
        let mut s = self;
        match s.add_property(property) {
            Ok(()) => Ok(s),
            Err(e) => Err(e),
        }
    }

    /// Consuming form of [`Self::add_property_unchecked`].
    pub fn with_property_unchecked(self, property: WeaponProperty) -> (r: Self)
        ensures
            r@ == spec_add_property_unchecked(self@, property),
    {
        let mut s = self;
        s.add_property_unchecked(property);
        s
    }

    /// Adds each property in turn with [`Self::add_property`], stopping at
    /// the first rejection; properties added before the rejection stay.
    pub fn add_properties(&mut self, properties: &[WeaponProperty]) -> (r: Result<
        (),
        WeaponBuildError,
    >)
        ensures
            ({
                let (verdict, v) = spec_check_add_properties(old(self)@, properties@);
                final(self)@ == v && match verdict {
                    Ok(()) => r is Ok,
                    Err(ev) => r matches Err(e) && e@ == ev,
                }
            }),
    {
        let ghost all = properties@;
        proof {
            assert(all.skip(0) =~= all);
        }
        let mut i: usize = 0;
        while i < properties.len()
            invariant
                0 <= i <= all.len(),
                all == properties@,
                spec_check_add_properties(old(self)@, all) == spec_check_add_properties(
                    self@,
                    all.skip(i as int),
                ),
            decreases all.len() - i,
        {
            let ghost before = self@;
            let property = properties[i];
            match self.add_property(property) {
                Ok(()) => {},
                Err(e) => {
                    proof {
                        assert(all.skip(i as int)[0] == property);
                        assert(spec_check_add_properties(before, all.skip(i as int)) == (
                            Err::<(), WeaponBuildErrorView>(e@),
                            before,
                        ));
                    }
                    return Err(e);
                },
            }
            proof {
                assert(all.skip(i as int)[0] == property);
                assert(all.skip(i as int).drop_first() =~= all.skip(i as int + 1));
            }
            i += 1;
        }
        proof {
            assert(all.skip(all.len() as int).len() == 0);
        }
        Ok(())
    }

    /// Consuming form of [`Self::add_properties`]; a rejection discards the
    /// partially extended builder.
    pub fn with_properties(self, properties: &[WeaponProperty]) -> (r: Result<
        Self,
        WeaponBuildError,
    >)
        ensures
            ({
                let (verdict, v) = spec_check_add_properties(self@, properties@);
                match verdict {
                    Ok(()) => r matches Ok(b) && b@ == v,
                    Err(ev) => r matches Err(e) && e@ == ev,
                }
            }),
    {
        let mut s = self;
        match s.add_properties(properties) {
            Ok(()) => Ok(s),
            Err(e) => Err(e),
        }
    }

    /// Appends each property without checks.
    pub fn add_properties_unchecked(&mut self, properties: &[WeaponProperty])
        ensures
            final(self)@ == spec_add_properties_unchecked(old(self)@, properties@),
    {
        let mut i: usize = 0;
        while i < properties.len()
            invariant
                0 <= i <= properties@.len(),
                self@ == spec_add_properties_unchecked(old(self)@, properties@.take(i as int)),
            decreases properties@.len() - i,
        {
            let ghost before = self@;
            self.add_property_unchecked(properties[i]);
            proof {
                assert(properties@.take(i as int + 1) =~= properties@.take(i as int).push(
                    properties@[i as int],
                ));
                assert(builder_props(before).push(properties@[i as int]) =~= builder_props(
                    old(self)@,
                ) + properties@.take(i as int + 1));
                assert(self@ =~= spec_add_properties_unchecked(
                    old(self)@,
                    properties@.take(i as int + 1),
                ));
            }
            i += 1;
        }
        proof {
            assert(properties@.take(properties@.len() as int) =~= properties@);
        }
    }

    /// Consuming form of [`Self::add_properties_unchecked`].
    pub fn with_properties_unchecked(self, properties: &[WeaponProperty]) -> (r: Self)
        ensures
            r@ == spec_add_properties_unchecked(self@, properties@),
    {
        let mut s = self;
        s.add_properties_unchecked(properties);
        s
    }

    /// Removes the first occurrence of a property, rejecting the call if no
    /// property was ever added or if this one is absent.
    pub fn remove_property(&mut self, property: WeaponProperty) -> (r: Result<
        (),
        WeaponBuildError,
    >)
        ensures
            match spec_check_remove_property(old(self)@, property) {
                Ok(v) => r is Ok && final(self)@ == v,
                Err(ev) => r matches Err(e) && e@ == ev && final(self)@ == old(self)@,
            },
    {
        let index = match &self.properties {
            Some(ps) => {
                match position_of(ps, property) {
                    Some(i) => i,
                    None => {
                        let mut missing: Vec<WeaponProperty> = Vec::new();
                        missing.push(property);
                        proof {
                            assert(missing@ =~= seq![property]);
                        }
                        return Err(WeaponBuildError::MissingProperty(missing));
                    },
                }
            },
            None => {
                let mut fields: Vec<String> = Vec::new();
                fields.push(String::from_str("properties"));
                proof {
                    assert(strings_view(fields@) =~= seq!["properties"@]);
                }
                return Err(WeaponBuildError::MissingField(fields));
            },
        };
        proof {
            self.properties.unwrap()@.index_of_first_ensures(property);
        }
        if let Some(ps) = &mut self.properties {
            ps.remove(index);
        }
        assert(self@ =~= spec_check_remove_property(old(self)@, property)->Ok_0);
        Ok(())
    }

    /// Consuming form of [`Self::remove_property`].
    pub fn without_property(self, property: WeaponProperty) -> (r: Result<
        Self,
        WeaponBuildError,
    >)
        ensures
            match spec_check_remove_property(self@, property) {
                Ok(v) => r matches Ok(b) && b@ == v,
                Err(ev) => r matches Err(e) && e@ == ev,
            },
    {
        let mut s = self;
        match s.remove_property(property) {
            Ok(()) => Ok(s),
            Err(e) => Err(e),
        }
    }
}

/// The names of the required fields still unset, in the order `build`
/// reports them.
pub open spec fn spec_missing_field_names(v: WeaponBuilderView) -> Seq<Seq<char>> {
    (if v.weapon_type is None {
        seq!["weapon_type"@]
    } else {
        Seq::<Seq<char>>::empty()
    }) + (if v.style is None {
        seq!["style"@]
    } else {
        Seq::<Seq<char>>::empty()
    }) + (if v.damage_type is None {
        seq!["damage_type"@]
    } else {
        Seq::<Seq<char>>::empty()
    }) + (if v.base_range is None {
        seq!["base_range"@]
    } else {
        Seq::<Seq<char>>::empty()
    })
}

/// The dependency properties required by one of the first `n` properties
/// but absent from the whole set, in the order of the requiring properties.
pub open spec fn spec_missing_deps_upto(props: Seq<WeaponProperty>, n: int) -> Seq<WeaponProperty>
    decreases n,
{
    if n <= 0 {
        Seq::empty()
    } else {
        spec_missing_deps_upto(props, n - 1) + (match spec_property_dependency(props[n - 1]) {
            Some(d) => if !props.contains(d) {
                seq![d]
            } else {
                Seq::<WeaponProperty>::empty()
            },
            None => Seq::<WeaponProperty>::empty(),
        })
    }
}

/// The dependency properties required but absent, over the whole set.
pub open spec fn spec_missing_deps(props: Seq<WeaponProperty>) -> Seq<WeaponProperty> {
    spec_missing_deps_upto(props, props.len() as int)
}

/// Whether the declared style and property set satisfy `formula`: a single
/// style is satisfied by the declared style itself or by a MultiFaceted
/// facet of it; disjunction asks for one branch, conjunction for both.
pub open spec fn spec_formula_satisfied(
    formula: Logical<WeaponStyle>,
    style: Option<WeaponStyle>,
    props: Seq<WeaponProperty>,
) -> bool
    decreases formula,
{
    match formula {
        Logical::Unit(s) => style == Some(s) || props.contains(WeaponProperty::MultiFaceted(s)),
        Logical::Or(l, r) => spec_formula_satisfied(*l, style, props) || spec_formula_satisfied(
            *r,
            style,
            props,
        ),
        Logical::And(l, r) => spec_formula_satisfied(*l, style, props) && spec_formula_satisfied(
            *r,
            style,
            props,
        ),
    }
}

/// The left-to-right AND-fold of the style formulas of the first `n`
/// properties; `None` when none of them has one.
pub open spec fn spec_style_deps_upto(props: Seq<WeaponProperty>, n: int) -> Option<
    Logical<WeaponStyle>,
>
    decreases n,
{
    if n <= 0 {
        None
    } else {
        let acc = spec_style_deps_upto(props, n - 1);
        match spec_style_dependency(props[n - 1]) {
            None => acc,
            Some(f) => match acc {
                None => Some(f),
                Some(a) => Some(Logical::And(Box::new(a), Box::new(f))),
            },
        }
    }
}

/// The combined style formula of the whole property set, if any.
pub open spec fn spec_style_deps(props: Seq<WeaponProperty>) -> Option<Logical<WeaponStyle>> {
    spec_style_deps_upto(props, props.len() as int)
}

/// Every style formula required by some property holds of the declared
/// style and property set.
pub open spec fn spec_all_style_deps_satisfied(
    style: Option<WeaponStyle>,
    props: Seq<WeaponProperty>,
) -> bool {
    forall|i: int|
        0 <= i < props.len() ==> match #[trigger] spec_style_dependency(props[i]) {
            Some(f) => spec_formula_satisfied(f, style, props),
            None => true,
        }
}

/// The verdict of `build` on a builder in state `v`: the content of the
/// weapon produced, or the error reported. The checks run in a fixed
/// order: unset fields (all reported together), unmet property
/// dependencies (all reported together), the combined style formula, and a
/// final type/style compatibility check.
pub open spec fn spec_build(v: WeaponBuilderView) -> Result<WeaponView, WeaponBuildErrorView> {
    if spec_missing_field_names(v).len() > 0 {
        Err(WeaponBuildErrorView::MissingField(spec_missing_field_names(v)))
    } else if spec_missing_deps(builder_props(v)).len() > 0 {
        Err(WeaponBuildErrorView::MissingProperty(spec_missing_deps(builder_props(v))))
    } else {
        match spec_style_deps(builder_props(v)) {
            Some(f) if !spec_formula_satisfied(f, v.style, builder_props(v)) => Err(
                WeaponBuildErrorView::MissingStyleDependencies(f),
            ),
            _ => {
                if !spec_type_compatible_with_style(v.weapon_type.unwrap(), v.style.unwrap()) {
                    Err(
                        WeaponBuildErrorView::IncompatibleStyle(
                            v.style.unwrap(),
                            v.weapon_type.unwrap(),
                        ),
                    )
                } else {
                    Ok(
                        WeaponView {
                            weapon_type: v.weapon_type.unwrap(),
                            style: v.style.unwrap(),
                            damage_type: v.damage_type.unwrap(),
                            properties: builder_props(v),
                            base_range: v.base_range.unwrap(),
                        },
                    )
                }
            },
        }
    }
}

/// When no dependency is reported missing among the first `n` properties,
/// each of their required companions is present.
proof fn lemma_no_missing_deps(props: Seq<WeaponProperty>, n: int)
    requires
        0 <= n <= props.len(),
        spec_missing_deps_upto(props, n).len() == 0,
    ensures
        forall|i: int|
            0 <= i < n ==> match #[trigger] spec_property_dependency(props[i]) {
                Some(d) => props.contains(d),
                None => true,
            },
    decreases n,
{
    if n > 0 {
        lemma_no_missing_deps(props, n - 1);
    }
}

/// A fold of the first `n` style formulas that comes out `None` means none
/// of those properties has one.
proof fn lemma_style_fold_none(props: Seq<WeaponProperty>, n: int)
    requires
        0 <= n <= props.len(),
        spec_style_deps_upto(props, n) is None,
    ensures
        forall|i: int| 0 <= i < n ==> #[trigger] spec_style_dependency(props[i]) is None,
    decreases n,
{
    if n > 0 {
        lemma_style_fold_none(props, n - 1);
    }
}

/// Satisfying the AND-fold of the first `n` style formulas satisfies each
/// of them individually (and conversely the fold being absent asks for
/// nothing).
proof fn lemma_style_fold_satisfied(
    props: Seq<WeaponProperty>,
    style: Option<WeaponStyle>,
    n: int,
)
    requires
        0 <= n <= props.len(),
        match spec_style_deps_upto(props, n) {
            Some(f) => spec_formula_satisfied(f, style, props),
            None => true,
        },
    ensures
        forall|i: int|
            0 <= i < n ==> match #[trigger] spec_style_dependency(props[i]) {
                Some(f) => spec_formula_satisfied(f, style, props),
                None => true,
            },
    decreases n,
{
    if n > 0 {
        match spec_style_dependency(props[n - 1]) {
            None => {
                lemma_style_fold_satisfied(props, style, n - 1);
            },
            Some(f) => {
                match spec_style_deps_upto(props, n - 1) {
                    None => {
                        lemma_style_fold_none(props, n - 1);
                    },
                    Some(a) => {
                        assert(spec_formula_satisfied(a, style, props));
                        lemma_style_fold_satisfied(props, style, n - 1);
                    },
                }
            },
        }
    }
}

/// Adding the same property twice always fails with `DuplicateProperty`,
/// whatever else the builder holds: a successful checked add puts the
/// property into the set, and the checked add rejects any property already
/// present.
pub proof fn lemma_duplicate_add_rejected(v: WeaponBuilderView, property: WeaponProperty)
    requires
        spec_check_add_property(v, property) is Ok,
    ensures
        spec_check_add_property(spec_check_add_property(v, property)->Ok_0, property) == Err::<
            WeaponBuilderView,
            WeaponBuildErrorView,
        >(WeaponBuildErrorView::DuplicateProperty(property)),
{
    let v2 = spec_check_add_property(v, property)->Ok_0;
    assert(builder_props(v2) == builder_props(v).push(property));
    assert(builder_props(v2)[builder_props(v).len() as int] == property);
    assert(builder_props(v2).contains(property));
}

#[verifier::external_type_specification]
#[verifier::external_body]
pub struct ExUuid(uuid::Uuid);

/// Relies on `uuid::Uuid::clone`: `Uuid` is a plain `Copy` value, so its
/// clone is the value itself.
pub assume_specification[ <uuid::Uuid as Clone>::clone ](u: &uuid::Uuid) -> (r: uuid::Uuid)
    ensures
        r == *u,
;

/// Relies on `uuid::Uuid::new_v4` to mint a fresh random identifier;
/// nothing is assumed about the value returned.
#[verifier::external_body]
fn fresh_weapon_id() -> uuid::Uuid {
    uuid::Uuid::new_v4()
}

/// The immutable result of a successful build: an identified weapon whose
/// content passed every vocabulary and dependency rule.
#[derive(Debug, PartialEq)]
pub struct Weapon {
    pub uuid: uuid::Uuid,
    pub weapon_type: WeaponType,
    pub style: WeaponStyle,
    pub damage_type: DamageType,
    pub properties: Vec<WeaponProperty>,
    pub base_range: Range,
}

/// The mathematical content of a [`Weapon`]; the identifier is opaque and
/// deliberately left out.
#[verifier::ext_equal]
pub struct WeaponView {
    pub weapon_type: WeaponType,
    pub style: WeaponStyle,
    pub damage_type: DamageType,
    pub properties: Seq<WeaponProperty>,
    pub base_range: Range,
}

impl View for Weapon {
    type V = WeaponView;

    open spec fn view(&self) -> WeaponView {
        WeaponView {
            weapon_type: self.weapon_type,
            style: self.style,
            damage_type: self.damage_type,
            properties: self.properties@,
            base_range: self.base_range,
        }
    }
}

impl Weapon {
    /// The effective range of an attack with this weapon.
    pub fn get_range(&self) -> (r: Range)
        ensures
            r == Range::Caster,
    {
        Range::Caster
    }
}

/// A fresh copy of a property vector.
fn copy_properties(ps: &Vec<WeaponProperty>) -> (r: Vec<WeaponProperty>)
    ensures
        r@ == ps@,
{
    let mut r: Vec<WeaponProperty> = Vec::new();
    let mut i: usize = 0;
    while i < ps.len()
        invariant
            0 <= i <= ps@.len(),
            r@ == ps@.take(i as int),
        decreases ps@.len() - i,
    {
        r.push(ps[i]);
        proof {
            assert(ps@.take(i as int).push(ps@[i as int]) =~= ps@.take(i as int + 1));
        }
        i += 1;
    }
    proof {
        assert(ps@.take(ps@.len() as int) =~= ps@);
    }
    r
}

impl WeaponBuilder {
    /// The dependency properties required by the accumulated properties but
    /// absent from the set.
    fn missing_dependency_properties(&self) -> (r: Vec<WeaponProperty>)
        ensures
            r@ == spec_missing_deps(builder_props(self@)),
    {
        let mut result: Vec<WeaponProperty> = Vec::new();
        match &self.properties {
            Some(ps) => {
                let mut i: usize = 0;
                while i < ps.len()
                    invariant
                        0 <= i <= ps@.len(),
                        ps@ == builder_props(self@),
                        result@ == spec_missing_deps_upto(ps@, i as int),
                    decreases ps@.len() - i,
                {
                    let ghost before = result@;
                    match ps[i].get_property_dependency() {
                        Some(dep) => {
                            if !contains_property(ps, dep) {
                                result.push(dep);
                                proof {
                                    assert(before.push(dep) =~= before + seq![dep]);
                                }
                            }
                        },
                        None => {},
                    }
                    proof {
                        assert(result@ =~= spec_missing_deps_upto(ps@, i as int + 1));
                    }
                    i += 1;
                }
            },
            None => {},
        }
        result
    }

    /// The AND-fold of the style formulas required by the accumulated
    /// properties, if any requires one.
    fn get_style_dependencies(&self) -> (r: Option<Logical<WeaponStyle>>)
        ensures
            r == spec_style_deps(builder_props(self@)),
    {
        let mut acc: Option<Logical<WeaponStyle>> = None;
        match &self.properties {
            Some(ps) => {
                let mut i: usize = 0;
                while i < ps.len()
                    invariant
                        0 <= i <= ps@.len(),
                        ps@ == builder_props(self@),
                        acc == spec_style_deps_upto(ps@, i as int),
                    decreases ps@.len() - i,
                {
                    match ps[i].get_style_dependency() {
                        Some(f) => {
                            acc = match acc {
                                Some(a) => Some(a.and(f)),
                                None => Some(f),
                            };
                        },
                        None => {},
                    }
                    i += 1;
                }
                acc
            },
            None => None,
        }
    }

    /// Whether the builder's declared style and property set satisfy
    /// `deps`, under the alternate-satisfier rule for MultiFaceted.
    fn meets_style_requirements(&self, deps: &Logical<WeaponStyle>) -> (b: bool)
        ensures
            b == spec_formula_satisfied(*deps, self.style, builder_props(self@)),
        decreases *deps,
    {
        match deps {
            Logical::Unit(dep) => {
                let style_matches = match self.style {
                    Some(style) => style == *dep,
                    None => false,
                };
                style_matches || (match &self.properties {
                    Some(ps) => contains_property(ps, WeaponProperty::MultiFaceted(*dep)),
                    None => false,
                })
            },
            Logical::Or(left, right) => self.meets_style_requirements(&**left)
                || self.meets_style_requirements(&**right),
            Logical::And(left, right) => self.meets_style_requirements(&**left)
                && self.meets_style_requirements(&**right),
        }
    }

    /// Consumes the accumulated state into a weapon, or reports the first
    /// failing check: unset fields and unmet property dependencies are each
    /// collected and reported together; the combined style formula and the
    /// final type/style compatibility check follow. A successful build
    /// mints a fresh identifier, so two builds of equal content differ only
    /// in it.
    pub fn build(&self) -> (r: Result<Weapon, WeaponBuildError>)
        ensures
            match spec_build(self@) {
                Ok(wv) => r matches Ok(w) && w@ == wv,
                Err(ev) => r matches Err(e) && e@ == ev,
            },
            r matches Ok(w) ==> spec_type_compatible_with_style(w.weapon_type, w.style),
            r matches Ok(w) ==> forall|i: int|
                0 <= i < w.properties@.len() ==> match #[trigger] spec_property_dependency(
                    w.properties@[i],
                ) {
                    Some(d) => w.properties@.contains(d),
                    None => true,
                },
            r matches Ok(w) ==> spec_all_style_deps_satisfied(Some(w.style), w.properties@),
    {
        let mut fa = FieldAggregator::new();
        fa.field_check(&self.weapon_type, "weapon_type");
        fa.field_check(&self.style, "style");
        fa.field_check(&self.damage_type, "damage_type");
        fa.field_check(&self.base_range, "base_range");
        proof {
            assert(collected_names(fa) =~= spec_missing_field_names(self@));
        }
        if let Some(fields) = fa.0 {
            let mut names: Vec<String> = Vec::new();
            let mut i: usize = 0;
            while i < fields.len()
                invariant
                    0 <= i <= fields@.len(),
                    names@.len() == i,
                    strings_view(names@) == crate::field_aggregator::field_names_view(
                        fields@.take(i as int),
                    ),
                decreases fields@.len() - i,
            {
                let name = String::from_str(fields[i]);
                let ghost names_old = names@;
                names.push(name);
                proof {
                    let lhs = strings_view(names@);
                    let rhs = crate::field_aggregator::field_names_view(
                        fields@.take(i as int + 1),
                    );
                    assert forall|j: int| 0 <= j < lhs.len() implies lhs[j] == rhs[j] by {
                        if j < i as int {
                            assert(lhs[j] == strings_view(names_old)[j]);
                            assert(rhs[j] == crate::field_aggregator::field_names_view(
                                fields@.take(i as int),
                            )[j]);
                        } else {
                            assert(lhs[j] == name@);
                            assert(rhs[j] == fields@[i as int]@);
                        }
                    }
                    assert(lhs =~= rhs);
                }
                i += 1;
            }
            proof {
                assert(fields@.take(fields@.len() as int) =~= fields@);
                assert(strings_view(names@) =~= spec_missing_field_names(self@));
            }
            return Err(WeaponBuildError::MissingField(names));
        }
        let missing_deps = self.missing_dependency_properties();
        if missing_deps.len() > 0 {
            return Err(WeaponBuildError::MissingProperty(missing_deps));
        }
        let weapon_type = self.weapon_type.unwrap();
        let style = self.style.unwrap();
        if let Some(style_dependencies) = self.get_style_dependencies() {
            if !self.meets_style_requirements(&style_dependencies) {
                return Err(WeaponBuildError::MissingStyleDependencies(style_dependencies));
            }
        }
        if !weapon_type.compatible_with_style(style) {
            return Err(WeaponBuildError::IncompatibleStyle(style, weapon_type));
        }
        let properties = match &self.properties {
            Some(ps) => copy_properties(ps),
            None => Vec::new(),
        };
        proof {
            lemma_no_missing_deps(builder_props(self@), builder_props(self@).len() as int);
            lemma_style_fold_satisfied(
                builder_props(self@),
                self@.style,
                builder_props(self@).len() as int,
            );
        }
        Ok(
            Weapon {
                uuid: fresh_weapon_id(),
                weapon_type,
                style,
                damage_type: self.damage_type.unwrap(),
                properties,
                base_range: self.base_range.unwrap(),
            },
        )
    }
}

} // verus!
