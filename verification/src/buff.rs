//! Buffs that the bot keeps up.

use vstd::prelude::*;

use crate::keys::KeyBindingConfiguration;
use crate::models::Character;

verus! {

/// A buff that the bot keeps up.
#[derive(Clone, Copy, Debug, PartialEq, Eq, Structural)]
pub enum BuffKind {
    Rune,
    Familiar,
    SayramElixir,
    AureliaElixir,
    ExpCouponX2,
    ExpCouponX3,
    ExpCouponX4,
    BonusExpCoupon,
    LegionLuck,
    LegionWealth,
    WealthAcquisitionPotion,
    ExpAccumulationPotion,
    SmallWealthAcquisitionPotion,
    SmallExpAccumulationPotion,
    ForTheGuild,
    HardHitter,
    ExtremeRedPotion,
    ExtremeBluePotion,
    ExtremeGreenPotion,
    ExtremeGoldPotion,
}

/// Every buff kind, in declaration order.
pub open spec fn all_buff_kinds_spec() -> Seq<BuffKind> {
    seq![
        BuffKind::Rune,
        BuffKind::Familiar,
        BuffKind::SayramElixir,
        BuffKind::AureliaElixir,
        BuffKind::ExpCouponX2,
        BuffKind::ExpCouponX3,
        BuffKind::ExpCouponX4,
        BuffKind::BonusExpCoupon,
        BuffKind::LegionLuck,
        BuffKind::LegionWealth,
        BuffKind::WealthAcquisitionPotion,
        BuffKind::ExpAccumulationPotion,
        BuffKind::SmallWealthAcquisitionPotion,
        BuffKind::SmallExpAccumulationPotion,
        BuffKind::ForTheGuild,
        BuffKind::HardHitter,
        BuffKind::ExtremeRedPotion,
        BuffKind::ExtremeBluePotion,
        BuffKind::ExtremeGreenPotion,
        BuffKind::ExtremeGoldPotion,
    ]
}

/// Every buff kind, in declaration order.
pub fn all_buff_kinds() -> (v: Vec<BuffKind>)
    ensures
        v@ == all_buff_kinds_spec(),
{
    let v = vec![
        BuffKind::Rune,
        BuffKind::Familiar,
        BuffKind::SayramElixir,
        BuffKind::AureliaElixir,
        BuffKind::ExpCouponX2,
        BuffKind::ExpCouponX3,
        BuffKind::ExpCouponX4,
        BuffKind::BonusExpCoupon,
        BuffKind::LegionLuck,
        BuffKind::LegionWealth,
        BuffKind::WealthAcquisitionPotion,
        BuffKind::ExpAccumulationPotion,
        BuffKind::SmallWealthAcquisitionPotion,
        BuffKind::SmallExpAccumulationPotion,
        BuffKind::ForTheGuild,
        BuffKind::HardHitter,
        BuffKind::ExtremeRedPotion,
        BuffKind::ExtremeBluePotion,
        BuffKind::ExtremeGreenPotion,
        BuffKind::ExtremeGoldPotion,
    ];
    assert(v@ =~= all_buff_kinds_spec());
    v
}

/// The key binding of a character that keeps up `kind`; none for the rune
/// buff, which the bot gets by solving runes.
pub open spec fn buff_key_of(c: Character, kind: BuffKind) -> Option<KeyBindingConfiguration> {
    match kind {
        BuffKind::Rune => None,
        BuffKind::Familiar => Some(c.familiar_buff_key),
        BuffKind::SayramElixir => Some(c.sayram_elixir_key),
        BuffKind::AureliaElixir => Some(c.aurelia_elixir_key),
        BuffKind::ExpCouponX2 => Some(c.exp_x2_key),
        BuffKind::ExpCouponX3 => Some(c.exp_x3_key),
        BuffKind::ExpCouponX4 => Some(c.exp_x4_key),
        BuffKind::BonusExpCoupon => Some(c.bonus_exp_key),
        BuffKind::LegionLuck => Some(c.legion_luck_key),
        BuffKind::LegionWealth => Some(c.legion_wealth_key),
        BuffKind::WealthAcquisitionPotion => Some(c.wealth_acquisition_potion_key),
        BuffKind::ExpAccumulationPotion => Some(c.exp_accumulation_potion_key),
        BuffKind::SmallWealthAcquisitionPotion => Some(c.small_wealth_acquisition_potion_key),
        BuffKind::SmallExpAccumulationPotion => Some(c.small_exp_accumulation_potion_key),
        BuffKind::ForTheGuild => Some(c.for_the_guild_key),
        BuffKind::HardHitter => Some(c.hard_hitter_key),
        BuffKind::ExtremeRedPotion => Some(c.extreme_red_potion_key),
        BuffKind::ExtremeBluePotion => Some(c.extreme_blue_potion_key),
        BuffKind::ExtremeGreenPotion => Some(c.extreme_green_potion_key),
        BuffKind::ExtremeGoldPotion => Some(c.extreme_gold_potion_key),
    }
}

/// The key binding of `character` that keeps up `kind`.
pub fn buff_key(character: &Character, kind: BuffKind) -> (r: Option<KeyBindingConfiguration>)
    ensures
        r == buff_key_of(*character, kind),
{
    match kind {
        BuffKind::Rune => None,
        BuffKind::Familiar => Some(character.familiar_buff_key),
        BuffKind::SayramElixir => Some(character.sayram_elixir_key),
        BuffKind::AureliaElixir => Some(character.aurelia_elixir_key),
        BuffKind::ExpCouponX2 => Some(character.exp_x2_key),
        BuffKind::ExpCouponX3 => Some(character.exp_x3_key),
        BuffKind::ExpCouponX4 => Some(character.exp_x4_key),
        BuffKind::BonusExpCoupon => Some(character.bonus_exp_key),
        BuffKind::LegionLuck => Some(character.legion_luck_key),
        BuffKind::LegionWealth => Some(character.legion_wealth_key),
        BuffKind::WealthAcquisitionPotion => Some(character.wealth_acquisition_potion_key),
        BuffKind::ExpAccumulationPotion => Some(character.exp_accumulation_potion_key),
        BuffKind::SmallWealthAcquisitionPotion => Some(character.small_wealth_acquisition_potion_key),
        BuffKind::SmallExpAccumulationPotion => Some(character.small_exp_accumulation_potion_key),
        BuffKind::ForTheGuild => Some(character.for_the_guild_key),
        BuffKind::HardHitter => Some(character.hard_hitter_key),
        BuffKind::ExtremeRedPotion => Some(character.extreme_red_potion_key),
        BuffKind::ExtremeBluePotion => Some(character.extreme_blue_potion_key),
        BuffKind::ExtremeGreenPotion => Some(character.extreme_green_potion_key),
        BuffKind::ExtremeGoldPotion => Some(character.extreme_gold_potion_key),
    }
}

} // verus!
