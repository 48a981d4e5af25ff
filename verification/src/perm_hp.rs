//! Permanent HP: a change of a unit's HP is kept by moving the unit's
//! personal base HP, so that it survives class changes and healing.
use vstd::prelude::*;

verus! {

/// The personal base HP that makes a unit's HP `value`, for a class base HP
/// of `class_base` and an HP bonus of `enhance` from equipment and effects.
/// Where `value` is below the bonus, the base is set so that base plus
/// class base is 1.
pub open spec fn spec_hp_base_difference(value: int, class_base: int, enhance: int) -> int {
    if value < enhance {
        1 - class_base
    } else {
        value - class_base - enhance
    }
}

/// What the computation takes: each intermediate difference fits in an `i32`.
pub open spec fn spec_hp_hook_fits(value: int, class_base: int, enhanced_hp: int, plain_hp: int) -> bool {
    let enhance = enhanced_hp - plain_hp;
    let difference = value - class_base - enhance;
    &&& i32::MIN <= enhance <= i32::MAX
    &&& i32::MIN <= value - class_base <= i32::MAX
    &&& i32::MIN <= difference <= i32::MAX
    &&& value < enhance ==> i32::MIN <= difference + enhance <= i32::MAX
    &&& value < enhance ==> i32::MIN <= difference + enhance - value <= i32::MAX
}

/// The game sets a unit's HP to `value`. `class_base` is the HP base of the
/// unit's class, `enhanced_hp` and `plain_hp` the unit's HP capability with
/// and without bonuses. Returns the personal base HP to store, after which
/// the game's own HP setter runs; `None` where that base would be 0, in
/// which case neither happens.
pub fn unit_set_hp(value: i32, class_base: u8, enhanced_hp: i32, plain_hp: i32) -> (r: Option<i32>)
    requires
        spec_hp_hook_fits(value as int, class_base as int, enhanced_hp as int, plain_hp as int),
    ensures
        ({
            let d = spec_hp_base_difference(value as int, class_base as int, enhanced_hp - plain_hp);
            r == if d != 0 { Some(d as i32) } else { None::<i32> }
        }),
{
    let base_class_hp: i32 = class_base as i32;
    let hp_enhance: i32 = enhanced_hp - plain_hp;
    let mut difference_hp: i32 = value - base_class_hp - hp_enhance;
    if value < hp_enhance {
        difference_hp = difference_hp + hp_enhance - value + 1;
    }
    if difference_hp != 0 {
        Some(difference_hp)
    } else {
        None
    }
}

/// The stored base makes the unit's HP what was asked: class base, personal
/// base and bonus add up to `value`; where `value` is below the bonus, class
/// base and personal base add up to 1.
pub proof fn lemma_hp_base_restores_value(value: int, class_base: int, enhance: int)
    ensures
        value >= enhance ==> class_base + spec_hp_base_difference(value, class_base, enhance) + enhance == value,
        value < enhance ==> class_base + spec_hp_base_difference(value, class_base, enhance) == 1,
{
}

} // verus!
