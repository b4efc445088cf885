//! Equipment carried by a character. The weapon configuration engine lives
//! in [`weapon`].

pub mod weapon;

pub use weapon::{
    DamageType, Weapon, WeaponBuildError, WeaponBuilder, WeaponProperty, WeaponStyle, WeaponType,
};
