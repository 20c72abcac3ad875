//! The actions and buffs in use, and what the rotator is built from.

use vstd::prelude::*;

use crate::buff::{all_buff_kinds, all_buff_kinds_spec, buff_key, buff_key_of, BuffKind};
use crate::keys::{key_kind_of, KeyBinding, KeyBindingConfiguration, KeyKind};
use crate::maps::{copy_actions, preset_lookup, MinimapData, MobbingKey, RotationMode};
use crate::models::{
    condition_of, configuration_action, default_action_key, Action, ActionCondition, ActionConfiguration,
    ActionConfigurationCondition, ActionKey, Bound, Character, EliteBossBehavior,
    ExchangeHexaBoosterCondition, FamiliarsConfiguration, PotionMode, Settings, SwappableFamiliars,
};

verus! {

/// How the rotator goes through the actions.
#[derive(Clone, Copy, Debug, PartialEq, Eq, Structural)]
pub enum RotatorMode {
    StartToEnd,
    StartToEndThenReverse,
    AutoMobbing(MobbingKey, Bound),
    PingPong(MobbingKey, Bound),
}

/// The rotator mode of a map; start to end without a map.
pub open spec fn rotator_mode_of(map: Option<MinimapData>) -> RotatorMode {
    match map {
        None => RotatorMode::StartToEnd,
        Some(m) => match m.rotation_mode {
            RotationMode::StartToEnd => RotatorMode::StartToEnd,
            RotationMode::StartToEndThenReverse => RotatorMode::StartToEndThenReverse,
            RotationMode::AutoMobbing => RotatorMode::AutoMobbing(
                m.rotation_mobbing_key,
                m.rotation_auto_mob_bound,
            ),
            RotationMode::PingPong => RotatorMode::PingPong(
                m.rotation_mobbing_key,
                m.rotation_ping_pong_bound,
            ),
        },
    }
}

/// The rotator mode of `map`.
pub fn rotator_mode_from(map: Option<&MinimapData>) -> (r: RotatorMode)
    ensures
        r == rotator_mode_of(
            match map {
                Some(m) => Some(*m),
                None => None,
            },
        ),
{
    match map {
        None => RotatorMode::StartToEnd,
        Some(map) => match map.rotation_mode {
            RotationMode::StartToEnd => RotatorMode::StartToEnd,
            RotationMode::StartToEndThenReverse => RotatorMode::StartToEndThenReverse,
            RotationMode::AutoMobbing => RotatorMode::AutoMobbing(
                map.rotation_mobbing_key,
                map.rotation_auto_mob_bound,
            ),
            RotationMode::PingPong => RotatorMode::PingPong(
                map.rotation_mobbing_key,
                map.rotation_ping_pong_bound,
            ),
        },
    }
}

/// A key used every `millis` milliseconds `count` times, with a short wait around it.
pub open spec fn timed_key_action(key: KeyBinding, millis: u64, count: u32) -> Action {
    Action::Key(
        ActionKey {
            key,
            count,
            condition: ActionCondition::EveryMillis(millis),
            wait_before_use_millis: 350,
            wait_after_use_millis: 350,
            ..default_action_key()
        },
    )
}

fn make_key_action(key: KeyBinding, millis: u64, count: u32) -> (a: Action)
    ensures
        a == timed_key_action(key, millis, count),
{
    Action::Key(
        ActionKey {
            key,
            count,
            condition: ActionCondition::EveryMillis(millis),
            wait_before_use_millis: 350,
            wait_after_use_millis: 350,
            ..ActionKey::default()
        },
    )
}

/// Whether a character's fixed action is linked to the one before it.
pub open spec fn config_linked(c: ActionConfiguration) -> bool {
    c.condition is Linked
}

/// One past the last index of the run of linked fixed actions that starts at `j`.
pub open spec fn config_run_end(s: Seq<ActionConfiguration>, j: int) -> int
    decreases s.len() - j,
{
    if 0 <= j < s.len() && config_linked(s[j]) {
        config_run_end(s, j + 1)
    } else {
        j
    }
}

proof fn lemma_config_run_end(s: Seq<ActionConfiguration>, j: int)
    requires
        0 <= j <= s.len(),
    ensures
        j <= config_run_end(s, j) <= s.len(),
        config_run_end(s, j) < s.len() ==> !config_linked(s[config_run_end(s, j)]),
    decreases s.len() - j,
{
    if j < s.len() && config_linked(s[j]) {
        lemma_config_run_end(s, j + 1);
    }
}

/// The rotation actions of the fixed actions `s[i..]`: every enabled action
/// that is not linked, each followed by the linked actions after it.
pub open spec fn fixed_actions_from(s: Seq<ActionConfiguration>, i: int) -> Seq<Action>
    decreases s.len() - i,
{
    if i < 0 || i >= s.len() {
        Seq::empty()
    } else if !s[i].enabled || config_linked(s[i]) {
        fixed_actions_from(s, i + 1)
    } else {
        let end = config_run_end(s, i + 1);
        if end <= i || end > s.len() {
            Seq::empty()
        } else {
            Seq::new((end - i) as nat, |k: int| configuration_action(s[i + k]))
                + fixed_actions_from(s, end)
        }
    }
}

/// The rotation actions that a character brings: feeding the pet, drinking
/// potions on a timer, then its fixed actions.
pub open spec fn character_actions(c: Character) -> Seq<Action> {
    let pet = if c.feed_pet_key.enabled {
        seq![timed_key_action(c.feed_pet_key.key, c.feed_pet_millis, c.feed_pet_count)]
    } else {
        Seq::empty()
    };
    let potion = if c.potion_key.enabled {
        match c.potion_mode {
            PotionMode::EveryMillis(millis) => seq![timed_key_action(c.potion_key.key, millis, 1)],
            PotionMode::Percentage(_) => Seq::empty(),
        }
    } else {
        Seq::empty()
    };
    pet + potion + fixed_actions_from(c.actions@, 0)
}

/// Builds the rotation actions that `character` brings.
pub fn actions_from(character: &Character) -> (r: Vec<Action>)
    ensures
        r@ == character_actions(*character),
{
    let mut vec: Vec<Action> = Vec::new();
    if character.feed_pet_key.enabled {
        vec.push(
            make_key_action(
                character.feed_pet_key.key,
                character.feed_pet_millis,
                character.feed_pet_count,
            ),
        );
    }
    if character.potion_key.enabled {
        if let PotionMode::EveryMillis(millis) = character.potion_mode {
            vec.push(make_key_action(character.potion_key.key, millis, 1));
        }
    }
    let ghost prefix = vec@;
    let actions = &character.actions;
    let mut i: usize = 0;
    while i < actions.len()
        invariant
            i <= actions@.len(),
            vec@ + fixed_actions_from(actions@, i as int) == prefix + fixed_actions_from(
                actions@,
                0,
            ),
        decreases actions@.len() - i,
    {
        let action = actions[i];
        if !action.enabled || matches!(action.condition, ActionConfigurationCondition::Linked) {
            i += 1;
            continue;
        }
        proof {
            lemma_config_run_end(actions@, i + 1);
        }
        let ghost before = vec@;
        let ghost end = config_run_end(actions@, i + 1);
        vec.push(action.to_action());
        let mut j = i + 1;
        while j < actions.len()
            invariant
                i < j <= actions@.len(),
                config_run_end(actions@, j as int) == end,
                vec@ == before + Seq::new(
                    (j - i) as nat,
                    |k: int| configuration_action(actions@[i + k]),
                ),
            ensures
                i < j <= actions@.len(),
                j == end,
                vec@ == before + Seq::new(
                    (j - i) as nat,
                    |k: int| configuration_action(actions@[i + k]),
                ),
            decreases actions@.len() - j,
        {
            let next = actions[j];
            if !matches!(next.condition, ActionConfigurationCondition::Linked) {
                break;
            }
            vec.push(next.to_action());
            proof {
                assert(vec@ =~= before + Seq::new(
                    (j + 1 - i) as nat,
                    |k: int| configuration_action(actions@[i + k]),
                ));
            }
            j += 1;
        }
        proof {
            assert(vec@ + fixed_actions_from(actions@, j as int) =~= before + fixed_actions_from(
                actions@,
                i as int,
            ));
        }
        i = j;
    }
    proof {
        assert(prefix == character_actions(*character).subrange(
            0,
            character_actions(*character).len() - fixed_actions_from(actions@, 0).len(),
        ));
        assert(vec@ =~= character_actions(*character));
    }
    vec
}

/// The fixed actions of a character never start with a linked action: each
/// linked action comes after the action it is linked to.
pub proof fn fixed_actions_start_with_a_head(s: Seq<ActionConfiguration>, i: int)
    requires
        0 <= i,
        fixed_actions_from(s, i).len() > 0,
    ensures
        !(condition_of(fixed_actions_from(s, i)[0]) is Linked),
    decreases s.len() - i,
{
    if i >= s.len() {
    } else if !s[i].enabled || config_linked(s[i]) {
        fixed_actions_start_with_a_head(s, i + 1);
    } else {
        let end = config_run_end(s, i + 1);
        if end <= i || end > s.len() {
        } else {
            assert(fixed_actions_from(s, i)[0] == configuration_action(s[i]));
        }
    }
}

/// The rotation actions of a character never start with a linked action.
pub proof fn character_actions_start_with_a_head(c: Character)
    requires
        character_actions(c).len() > 0,
    ensures
        !(condition_of(character_actions(c)[0]) is Linked),
{
    let fixed = fixed_actions_from(c.actions@, 0);
    let timed = character_actions(c).len() - fixed.len();
    if timed == 0 {
        assert(character_actions(c)[0] == fixed[0]);
        fixed_actions_start_with_a_head(c.actions@, 0);
    }
}

/// The buffs of `kinds` that `c` keeps up, each with its key.
pub open spec fn buff_entries(c: Character, kinds: Seq<BuffKind>) -> Seq<(BuffKind, KeyKind)>
    decreases kinds.len(),
{
    if kinds.len() == 0 {
        Seq::empty()
    } else {
        let rest = buff_entries(c, kinds.drop_last());
        match buff_key_of(c, kinds.last()) {
            Some(k) => if k.enabled {
                rest.push((kinds.last(), key_kind_of(k.key)))
            } else {
                rest
            },
            None => rest,
        }
    }
}

/// The buffs that `c` keeps up, in buff order, each with its key.
pub open spec fn character_buffs(c: Character) -> Seq<(BuffKind, KeyKind)> {
    buff_entries(c, all_buff_kinds_spec())
}

/// Every buff listed for a character is one it has an enabled key for, with
/// that key; the rune buff, which has no key, is never listed.
pub proof fn listed_buffs_have_enabled_keys(c: Character, kinds: Seq<BuffKind>)
    ensures
        forall|i: int|
            0 <= i < buff_entries(c, kinds).len() ==> {
                let (kind, key) = #[trigger] buff_entries(c, kinds)[i];
                &&& kind != BuffKind::Rune
                &&& buff_key_of(c, kind) matches Some(k) && k.enabled && key == key_kind_of(k.key)
            },
    decreases kinds.len(),
{
    if kinds.len() > 0 {
        listed_buffs_have_enabled_keys(c, kinds.drop_last());
        let rest = buff_entries(c, kinds.drop_last());
        assert forall|i: int| 0 <= i < buff_entries(c, kinds).len() implies {
            let (kind, key) = #[trigger] buff_entries(c, kinds)[i];
            &&& kind != BuffKind::Rune
            &&& buff_key_of(c, kind) matches Some(k) && k.enabled && key == key_kind_of(k.key)
        } by {
            if i < rest.len() {
                assert(buff_entries(c, kinds)[i] == rest[i]);
            }
        }
    }
}

/// A buff kind appears in the entries built from `kinds` with a key exactly
/// when `kinds` holds it and the character has that key enabled for it.
proof fn buff_entries_contain(c: Character, kinds: Seq<BuffKind>, kind: BuffKind, key: KeyKind)
    ensures
        buff_entries(c, kinds).contains((kind, key)) <==> {
            &&& kinds.contains(kind)
            &&& buff_key_of(c, kind) matches Some(b) && binding_gives(b, key)
        },
    decreases kinds.len(),
{
    if kinds.len() > 0 {
        let init = kinds.drop_last();
        buff_entries_contain(c, init, kind, key);
        let rest = buff_entries(c, init);
        let whole = buff_entries(c, kinds);
        assert(kinds =~= init.push(kinds.last()));
        assert(kinds.contains(kind) <==> (init.contains(kind) || kind == kinds.last())) by {
            if kinds.contains(kind) {
                let j = choose|j: int| 0 <= j < kinds.len() && kinds[j] == kind;
                if j < init.len() {
                    assert(init[j] == kind);
                }
            }
            if init.contains(kind) {
                let j = choose|j: int| 0 <= j < init.len() && init[j] == kind;
                assert(kinds[j] == kind);
            }
            if kind == kinds.last() {
                assert(kinds[kinds.len() - 1] == kind);
            }
        }
        if whole.len() > rest.len() {
            assert(whole =~= rest.push(whole.last()));
            assert(whole.contains((kind, key)) <==> (rest.contains((kind, key)) || whole.last() == (kind, key))) by {
                if whole.contains((kind, key)) {
                    let j = choose|j: int| 0 <= j < whole.len() && whole[j] == (kind, key);
                    if j < rest.len() {
                        assert(rest[j] == (kind, key));
                    }
                }
                if rest.contains((kind, key)) {
                    let j = choose|j: int| 0 <= j < rest.len() && rest[j] == (kind, key);
                    assert(whole[j] == (kind, key));
                }
                if whole.last() == (kind, key) {
                    assert(whole[whole.len() - 1] == (kind, key));
                }
            }
        }
    }
}

/// Whether the key binding `b` is enabled and presses `key`.
pub open spec fn binding_gives(b: KeyBindingConfiguration, key: KeyKind) -> bool {
    b.enabled && key == key_kind_of(b.key)
}

/// Each buff is kept up with the character's own key for that buff: a buff
/// is listed with a key exactly when the character's binding for that buff is
/// enabled and presses that key, and the rune buff is never listed.
pub proof fn buffs_are_kept_with_their_own_keys(c: Character, key: KeyKind)
    ensures
        !character_buffs(c).contains((BuffKind::Rune, key)),
        character_buffs(c).contains((BuffKind::Familiar, key)) <==> binding_gives(c.familiar_buff_key, key),
        character_buffs(c).contains((BuffKind::SayramElixir, key)) <==> binding_gives(c.sayram_elixir_key, key),
        character_buffs(c).contains((BuffKind::AureliaElixir, key)) <==> binding_gives(c.aurelia_elixir_key, key),
        character_buffs(c).contains((BuffKind::ExpCouponX2, key)) <==> binding_gives(c.exp_x2_key, key),
        character_buffs(c).contains((BuffKind::ExpCouponX3, key)) <==> binding_gives(c.exp_x3_key, key),
        character_buffs(c).contains((BuffKind::ExpCouponX4, key)) <==> binding_gives(c.exp_x4_key, key),
        character_buffs(c).contains((BuffKind::BonusExpCoupon, key)) <==> binding_gives(c.bonus_exp_key, key),
        character_buffs(c).contains((BuffKind::LegionLuck, key)) <==> binding_gives(c.legion_luck_key, key),
        character_buffs(c).contains((BuffKind::LegionWealth, key)) <==> binding_gives(c.legion_wealth_key, key),
        character_buffs(c).contains((BuffKind::WealthAcquisitionPotion, key)) <==> binding_gives(c.wealth_acquisition_potion_key, key),
        character_buffs(c).contains((BuffKind::ExpAccumulationPotion, key)) <==> binding_gives(c.exp_accumulation_potion_key, key),
        character_buffs(c).contains((BuffKind::SmallWealthAcquisitionPotion, key)) <==> binding_gives(c.small_wealth_acquisition_potion_key, key),
        character_buffs(c).contains((BuffKind::SmallExpAccumulationPotion, key)) <==> binding_gives(c.small_exp_accumulation_potion_key, key),
        character_buffs(c).contains((BuffKind::ForTheGuild, key)) <==> binding_gives(c.for_the_guild_key, key),
        character_buffs(c).contains((BuffKind::HardHitter, key)) <==> binding_gives(c.hard_hitter_key, key),
        character_buffs(c).contains((BuffKind::ExtremeRedPotion, key)) <==> binding_gives(c.extreme_red_potion_key, key),
        character_buffs(c).contains((BuffKind::ExtremeBluePotion, key)) <==> binding_gives(c.extreme_blue_potion_key, key),
        character_buffs(c).contains((BuffKind::ExtremeGreenPotion, key)) <==> binding_gives(c.extreme_green_potion_key, key),
        character_buffs(c).contains((BuffKind::ExtremeGoldPotion, key)) <==> binding_gives(c.extreme_gold_potion_key, key),
{
    assert(all_buff_kinds_spec()[1] == BuffKind::Familiar);
    assert(all_buff_kinds_spec()[2] == BuffKind::SayramElixir);
    assert(all_buff_kinds_spec()[3] == BuffKind::AureliaElixir);
    assert(all_buff_kinds_spec()[4] == BuffKind::ExpCouponX2);
    assert(all_buff_kinds_spec()[5] == BuffKind::ExpCouponX3);
    assert(all_buff_kinds_spec()[6] == BuffKind::ExpCouponX4);
    assert(all_buff_kinds_spec()[7] == BuffKind::BonusExpCoupon);
    assert(all_buff_kinds_spec()[8] == BuffKind::LegionLuck);
    assert(all_buff_kinds_spec()[9] == BuffKind::LegionWealth);
    assert(all_buff_kinds_spec()[10] == BuffKind::WealthAcquisitionPotion);
    assert(all_buff_kinds_spec()[11] == BuffKind::ExpAccumulationPotion);
    assert(all_buff_kinds_spec()[12] == BuffKind::SmallWealthAcquisitionPotion);
    assert(all_buff_kinds_spec()[13] == BuffKind::SmallExpAccumulationPotion);
    assert(all_buff_kinds_spec()[14] == BuffKind::ForTheGuild);
    assert(all_buff_kinds_spec()[15] == BuffKind::HardHitter);
    assert(all_buff_kinds_spec()[16] == BuffKind::ExtremeRedPotion);
    assert(all_buff_kinds_spec()[17] == BuffKind::ExtremeBluePotion);
    assert(all_buff_kinds_spec()[18] == BuffKind::ExtremeGreenPotion);
    assert(all_buff_kinds_spec()[19] == BuffKind::ExtremeGoldPotion);
    assert forall|kind: BuffKind| #[trigger] buff_entries(c, all_buff_kinds_spec()).contains((kind, key))
        <==> (all_buff_kinds_spec().contains(kind) && (buff_key_of(c, kind) matches Some(b) && binding_gives(b, key))) by {
        buff_entries_contain(c, all_buff_kinds_spec(), kind, key);
    }
}

/// Lists the buffs that `character` keeps up, each with its key.
pub fn buffs_from(character: &Character) -> (r: Vec<(BuffKind, KeyKind)>)
    ensures
        r@ == character_buffs(*character),
{
    let kinds = all_buff_kinds();
    let mut buffs: Vec<(BuffKind, KeyKind)> = Vec::new();
    let mut i: usize = 0;
    while i < kinds.len()
        invariant
            i <= kinds@.len(),
            kinds@ == all_buff_kinds_spec(),
            buffs@ == buff_entries(*character, kinds@.subrange(0, i as int)),
        decreases kinds@.len() - i,
    {
        let kind = kinds[i];
        proof {
            assert(kinds@.subrange(0, i + 1).drop_last() =~= kinds@.subrange(0, i as int));
        }
        if let Some(key) = buff_key(character, kind) {
            if key.enabled {
                buffs.push((kind, key.key.to_key_kind()));
            }
        }
        i += 1;
    }
    proof {
        assert(kinds@.subrange(0, kinds@.len() as int) =~= kinds@);
    }
    buffs
}

/// What the rotator is built from.
#[derive(Clone, Debug, PartialEq, Eq)]
pub struct RotatorBuildArgs {
    pub mode: RotatorMode,
    pub actions: Vec<Action>,
    pub buffs: Vec<(BuffKind, KeyKind)>,
    pub familiars: FamiliarsConfiguration,
    pub familiar_essence_key: KeyKind,
    pub elite_boss_behavior: EliteBossBehavior,
    pub elite_boss_behavior_key: KeyKind,
    pub hexa_booster_exchange_condition: ExchangeHexaBoosterCondition,
    pub hexa_booster_exchange_amount: u32,
    pub hexa_booster_exchange_all: bool,
    pub enable_panic_mode: bool,
    pub enable_rune_solving: bool,
    pub enable_transparent_shape_solving: bool,
    pub enable_reset_normal_actions_on_erda: bool,
    pub enable_using_generic_booster: bool,
    pub enable_using_hexa_booster: bool,
}

} // verus!

verus! {

/// The map's actions of the preset in use, if there is a map and a preset.
pub open spec fn map_actions(map: Option<MinimapData>, preset: Option<Seq<char>>) -> Seq<Action> {
    match (map, preset) {
        (Some(m), Some(p)) => match preset_lookup(m.actions@, p) {
            Some(actions) => actions,
            None => Seq::empty(),
        },
        _ => Seq::empty(),
    }
}

/// Whether `args` holds what the rotator is built from, given the service's
/// actions and buffs, the map, the character and the settings.
pub open spec fn build_args_spec(
    args: RotatorBuildArgs,
    actions: Seq<Action>,
    buffs: Seq<(BuffKind, KeyKind)>,
    map: Option<MinimapData>,
    character: Option<Character>,
    settings: Settings,
) -> bool {
    &&& args.mode == rotator_mode_of(map)
    &&& args.actions@ == actions
    &&& args.buffs@ == buffs
    &&& args.enable_panic_mode == settings.enable_panic_mode
    &&& args.enable_rune_solving == settings.enable_rune_solving
    &&& args.enable_transparent_shape_solving == settings.enable_transparent_shape_solving
    &&& args.enable_reset_normal_actions_on_erda == match map {
        Some(m) => m.actions_any_reset_on_erda_condition,
        None => false,
    }
    &&& match character {
        Some(c) => {
            &&& args.familiar_essence_key == key_kind_of(c.familiar_essence_key.key)
            &&& args.elite_boss_behavior == c.elite_boss_behavior
            &&& args.elite_boss_behavior_key == key_kind_of(c.elite_boss_behavior_key)
            &&& args.hexa_booster_exchange_condition == c.hexa_booster_exchange_condition
            &&& args.hexa_booster_exchange_amount == c.hexa_booster_exchange_amount
            &&& args.hexa_booster_exchange_all == c.hexa_booster_exchange_all
            &&& args.enable_using_generic_booster == c.generic_booster_key.enabled
            &&& args.enable_using_hexa_booster == c.hexa_booster_key.enabled
            &&& args.familiars.swappable_familiars == c.familiars.swappable_familiars
            &&& args.familiars.swappable_rarities@ == c.familiars.swappable_rarities@
            &&& args.familiars.swap_check_millis == c.familiars.swap_check_millis
            &&& args.familiars.enable_familiars_swapping == c.familiars.enable_familiars_swapping
        },
        None => {
            &&& args.familiar_essence_key == KeyKind::A
            &&& args.elite_boss_behavior == EliteBossBehavior::Ignore
            &&& args.elite_boss_behavior_key == KeyKind::A
            &&& args.hexa_booster_exchange_condition == ExchangeHexaBoosterCondition::Never
            &&& args.hexa_booster_exchange_amount == 1
            &&& !args.hexa_booster_exchange_all
            &&& !args.enable_using_generic_booster
            &&& !args.enable_using_hexa_booster
            &&& args.familiars.swappable_familiars == SwappableFamiliars::All
            &&& args.familiars.swappable_rarities@.len() == 0
            &&& args.familiars.swap_check_millis == 0
            &&& !args.familiars.enable_familiars_swapping
        },
    }
}

/// An optional reference as an optional value.
pub open spec fn opt_ref<T>(r: Option<&T>) -> Option<T> {
    match r {
        Some(v) => Some(*v),
        None => None,
    }
}

/// Handles rotator-related requests.
pub trait RotatorService {
    /// Builds the actions to use from the map's preset and the character.
    fn update_actions(
        &mut self,
        map: Option<&MinimapData>,
        preset: Option<String>,
        character: Option<&Character>,
    );

    /// Builds the buffs to keep up from the character.
    fn update_buffs(&mut self, character: Option<&Character>);

    /// What the rotator is built from, given the map, character and settings.
    fn apply(
        &self,
        map: Option<&MinimapData>,
        character: Option<&Character>,
        settings: &Settings,
    ) -> RotatorBuildArgs;
}

/// The rotator service of the bot.
#[derive(Debug)]
pub struct DefaultRotatorService {
    actions: Vec<Action>,
    buffs: Vec<(BuffKind, KeyKind)>,
}

fn copy_buffs(buffs: &Vec<(BuffKind, KeyKind)>) -> (r: Vec<(BuffKind, KeyKind)>)
    ensures
        r@ == buffs@,
{
    let mut out: Vec<(BuffKind, KeyKind)> = Vec::new();
    let mut i: usize = 0;
    while i < buffs.len()
        invariant
            i <= buffs@.len(),
            out@ == buffs@.subrange(0, i as int),
        decreases buffs@.len() - i,
    {
        out.push(buffs[i]);
        i += 1;
    }
    assert(out@ =~= buffs@);
    out
}

fn append_actions(front: Vec<Action>, back: &Vec<Action>) -> (r: Vec<Action>)
    ensures
        r@ == front@ + back@,
{
    let mut out = front;
    let ghost start = out@;
    let mut i: usize = 0;
    while i < back.len()
        invariant
            i <= back@.len(),
            out@ == start + back@.subrange(0, i as int),
        decreases back@.len() - i,
    {
        out.push(back[i]);
        proof {
            assert(start + back@.subrange(0, i + 1) =~= start + back@.subrange(0, i as int).push(
                back@[i as int],
            ));
        }
        i += 1;
    }
    assert(back@.subrange(0, back@.len() as int) =~= back@);
    out
}

impl DefaultRotatorService {
    /// The actions in use.
    pub closed spec fn actions_view(&self) -> Seq<Action> {
        self.actions@
    }

    /// The buffs in use, each with its key.
    pub closed spec fn buffs_view(&self) -> Seq<(BuffKind, KeyKind)> {
        self.buffs@
    }

    /// A service with no actions and no buffs.
    pub fn new() -> (s: Self)
        ensures
            s.actions_view().len() == 0,
            s.buffs_view().len() == 0,
    {
        DefaultRotatorService { actions: Vec::new(), buffs: Vec::new() }
    }

    /// A service using `actions` and `buffs`.
    pub fn with_actions_and_buffs(actions: Vec<Action>, buffs: Vec<(BuffKind, KeyKind)>) -> (s:
        Self)
        ensures
            s.actions_view() == actions@,
            s.buffs_view() == buffs@,
    {
        DefaultRotatorService { actions, buffs }
    }

    /// The actions in use.
    pub fn actions(&self) -> (r: &Vec<Action>)
        ensures
            r@ == self.actions_view(),
    {
        &self.actions
    }

    /// The buffs in use.
    pub fn buffs(&self) -> (r: &Vec<(BuffKind, KeyKind)>)
        ensures
            r@ == self.buffs_view(),
    {
        &self.buffs
    }
}

impl Default for DefaultRotatorService {
    fn default() -> (s: Self)
        ensures
            s.actions_view().len() == 0,
            s.buffs_view().len() == 0,
    {
        DefaultRotatorService::new()
    }
}

impl RotatorService for DefaultRotatorService {
    fn update_actions(
        &mut self,
        map: Option<&MinimapData>,
        preset: Option<String>,
        character: Option<&Character>,
    )
        ensures
            final(self).actions_view() == match opt_ref(character) {
                Some(c) => character_actions(c),
                None => Seq::<Action>::empty(),
            } + map_actions(
                opt_ref(map),
                match preset {
                    Some(p) => Some(p@),
                    None => None,
                },
            ),
            final(self).buffs_view() == old(self).buffs_view(),
    {
        let character_actions = match character {
            Some(c) => actions_from(c),
            None => Vec::new(),
        };
        let map_actions = match (map, &preset) {
            (Some(m), Some(p)) => match m.preset_actions(p) {
                Some(actions) => actions,
                None => Vec::new(),
            },
            _ => Vec::new(),
        };
        self.actions = append_actions(character_actions, &map_actions);
    }

    fn update_buffs(&mut self, character: Option<&Character>)
        ensures
            final(self).buffs_view() == match opt_ref(character) {
                Some(c) => character_buffs(c),
                None => Seq::<(BuffKind, KeyKind)>::empty(),
            },
            final(self).actions_view() == old(self).actions_view(),
    {
        self.buffs = match character {
            Some(c) => buffs_from(c),
            None => Vec::new(),
        };
    }

    fn apply(
        &self,
        map: Option<&MinimapData>,
        character: Option<&Character>,
        settings: &Settings,
    ) -> (args: RotatorBuildArgs)
        ensures
            build_args_spec(
                args,
                self.actions_view(),
                self.buffs_view(),
                opt_ref(map),
                opt_ref(character),
                *settings,
            ),
    {
        let mode = rotator_mode_from(map);
        let reset_normal_actions_on_erda = match map {
            Some(m) => m.actions_any_reset_on_erda_condition,
            None => false,
        };
        let (
            familiar_essence_key,
            elite_boss_behavior,
            elite_boss_behavior_key,
            hexa_booster_exchange_condition,
            hexa_booster_exchange_amount,
            hexa_booster_exchange_all,
            enable_using_generic_booster,
            enable_using_hexa_booster,
            familiars,
        ) = match character {
            Some(c) => (
                c.familiar_essence_key.key,
                c.elite_boss_behavior,
                c.elite_boss_behavior_key,
                c.hexa_booster_exchange_condition,
                c.hexa_booster_exchange_amount,
                c.hexa_booster_exchange_all,
                c.generic_booster_key.enabled,
                c.hexa_booster_key.enabled,
                c.familiars.duplicate(),
            ),
            None => (
                KeyBinding::A,
                EliteBossBehavior::Ignore,
                KeyBinding::A,
                ExchangeHexaBoosterCondition::Never,
                1,
                false,
                false,
                false,
                FamiliarsConfiguration::default(),
            ),
        };
        RotatorBuildArgs {
            mode,
            actions: copy_actions(&self.actions),
            buffs: copy_buffs(&self.buffs),
            familiars,
            familiar_essence_key: familiar_essence_key.to_key_kind(),
            elite_boss_behavior,
            elite_boss_behavior_key: elite_boss_behavior_key.to_key_kind(),
            hexa_booster_exchange_condition,
            hexa_booster_exchange_amount,
            hexa_booster_exchange_all,
            enable_panic_mode: settings.enable_panic_mode,
            enable_rune_solving: settings.enable_rune_solving,
            enable_transparent_shape_solving: settings.enable_transparent_shape_solving,
            enable_reset_normal_actions_on_erda: reset_normal_actions_on_erda,
            enable_using_generic_booster,
            enable_using_hexa_booster,
        }
    }
}

} // verus!
