//! The data that the user configures: actions, characters, maps and settings.

use vstd::prelude::*;

use crate::keys::{KeyBinding, KeyBindingConfiguration, LinkKeyBinding};

verus! {

/// A position on the minimap, with a random spread on the x axis.
#[derive(Clone, Copy, Debug, PartialEq, Eq, Structural)]
pub struct Position {
    pub x: i32,
    pub x_random_range: i32,
    pub y: i32,
    pub allow_adjusting: bool,
}

/// A rectangle on the minimap.
#[derive(Clone, Copy, Debug, PartialEq, Eq, Structural)]
pub struct Bound {
    pub x: i32,
    pub y: i32,
    pub width: i32,
    pub height: i32,
}

/// A horizontal platform on the minimap.
#[derive(Clone, Copy, Debug, PartialEq, Eq, Structural)]
pub struct Platform {
    pub x_start: i32,
    pub x_end: i32,
    pub y: i32,
}

/// When an action runs.
#[derive(Clone, Copy, Debug, PartialEq, Eq, Structural)]
pub enum ActionCondition {
    /// Runs in the normal rotation.
    Any,
    /// Runs every given number of milliseconds.
    EveryMillis(u64),
    /// Runs when Erda Shower is off cooldown.
    ErdaShowerOffCooldown,
    /// Runs right after the action before it.
    Linked,
}

/// Whether two conditions are of the same kind, whatever their data.
pub open spec fn same_condition_kind(a: ActionCondition, b: ActionCondition) -> bool {
    match (a, b) {
        (ActionCondition::Any, ActionCondition::Any) => true,
        (ActionCondition::EveryMillis(_), ActionCondition::EveryMillis(_)) => true,
        (ActionCondition::ErdaShowerOffCooldown, ActionCondition::ErdaShowerOffCooldown) => true,
        (ActionCondition::Linked, ActionCondition::Linked) => true,
        _ => false,
    }
}

impl ActionCondition {
    /// Whether `self` and `other` are of the same kind, whatever their data.
    pub fn same_kind(&self, other: &ActionCondition) -> (b: bool)
        ensures
            b == same_condition_kind(*self, *other),
    {
        match (self, other) {
            (ActionCondition::Any, ActionCondition::Any) => true,
            (ActionCondition::EveryMillis(_), ActionCondition::EveryMillis(_)) => true,
            (ActionCondition::ErdaShowerOffCooldown, ActionCondition::ErdaShowerOffCooldown) => true,
            (ActionCondition::Linked, ActionCondition::Linked) => true,
            _ => false,
        }
    }

    /// Whether this is [`ActionCondition::Linked`].
    pub fn is_linked(&self) -> (b: bool)
        ensures
            b == (*self is Linked),
    {
        matches!(self, ActionCondition::Linked)
    }
}

/// Which movement the player must be in to use a key.
#[derive(Clone, Copy, Debug, PartialEq, Eq, Structural)]
pub enum ActionKeyWith {
    Any,
    Stationary,
    DoubleJump,
}

/// Which direction the player must face to use a key.
#[derive(Clone, Copy, Debug, PartialEq, Eq, Structural)]
pub enum ActionKeyDirection {
    Any,
    Left,
    Right,
}

/// How the wait after a key is buffered.
#[derive(Clone, Copy, Debug, PartialEq, Eq, Structural)]
pub enum WaitAfterBuffered {
    Disabled,
    Interruptible,
    Uninterruptible,
}

/// An action that moves the player to a position.
#[derive(Clone, Copy, Debug, PartialEq, Eq, Structural)]
pub struct ActionMove {
    pub position: Position,
    pub condition: ActionCondition,
    pub wait_after_move_millis: u64,
}

/// An action that uses a key.
#[derive(Clone, Copy, Debug, PartialEq, Eq, Structural)]
pub struct ActionKey {
    pub key: KeyBinding,
    pub key_hold_millis: u64,
    pub key_hold_buffered_to_wait_after: bool,
    pub link_key: LinkKeyBinding,
    pub count: u32,
    pub position: Option<Position>,
    pub condition: ActionCondition,
    pub direction: ActionKeyDirection,
    pub with: ActionKeyWith,
    pub queue_to_front: Option<bool>,
    pub wait_before_use_millis: u64,
    pub wait_before_use_millis_random_range: u64,
    pub wait_after_use_millis: u64,
    pub wait_after_use_millis_random_range: u64,
    pub wait_after_buffered: WaitAfterBuffered,
}

/// The key action that every unset field takes.
pub open spec fn default_action_key() -> ActionKey {
    ActionKey {
        key: KeyBinding::A,
        key_hold_millis: 0,
        key_hold_buffered_to_wait_after: false,
        link_key: LinkKeyBinding::Unlinked,
        count: 1,
        position: None,
        condition: ActionCondition::Any,
        direction: ActionKeyDirection::Any,
        with: ActionKeyWith::Any,
        queue_to_front: None,
        wait_before_use_millis: 0,
        wait_before_use_millis_random_range: 0,
        wait_after_use_millis: 0,
        wait_after_use_millis_random_range: 0,
        wait_after_buffered: WaitAfterBuffered::Disabled,
    }
}

impl Default for ActionKey {
    fn default() -> (a: Self)
        ensures
            a == default_action_key(),
    {
        ActionKey {
            key: KeyBinding::A,
            key_hold_millis: 0,
            key_hold_buffered_to_wait_after: false,
            link_key: LinkKeyBinding::Unlinked,
            count: 1,
            position: None,
            condition: ActionCondition::Any,
            direction: ActionKeyDirection::Any,
            with: ActionKeyWith::Any,
            queue_to_front: None,
            wait_before_use_millis: 0,
            wait_before_use_millis_random_range: 0,
            wait_after_use_millis: 0,
            wait_after_use_millis_random_range: 0,
            wait_after_buffered: WaitAfterBuffered::Disabled,
        }
    }
}

/// An action of a map's rotation.
#[derive(Clone, Copy, Debug, PartialEq, Eq, Structural)]
pub enum Action {
    Move(ActionMove),
    Key(ActionKey),
}

/// The condition of an action.
pub open spec fn condition_of(action: Action) -> ActionCondition {
    match action {
        Action::Move(m) => m.condition,
        Action::Key(k) => k.condition,
    }
}

/// `action` with its condition replaced by `condition`.
pub open spec fn with_condition_spec(action: Action, condition: ActionCondition) -> Action {
    match action {
        Action::Move(m) => Action::Move(ActionMove { condition, ..m }),
        Action::Key(k) => Action::Key(ActionKey { condition, ..k }),
    }
}

impl Action {
    /// The condition of this action.
    pub fn condition(&self) -> (c: ActionCondition)
        ensures
            c == condition_of(*self),
    {
        match self {
            Action::Move(m) => m.condition,
            Action::Key(k) => k.condition,
        }
    }

    /// This action with its condition replaced by `condition`.
    pub fn with_condition(&self, condition: ActionCondition) -> (a: Action)
        ensures
            a == with_condition_spec(*self, condition),
    {
        match self {
            Action::Move(m) => Action::Move(ActionMove { condition, ..*m }),
            Action::Key(k) => Action::Key(ActionKey { condition, ..*k }),
        }
    }
}

/// When a character's fixed action runs.
#[derive(Clone, Copy, Debug, PartialEq, Eq, Structural)]
pub enum ActionConfigurationCondition {
    EveryMillis(u64),
    Linked,
}

impl Default for ActionConfigurationCondition {
    fn default() -> (c: Self)
        ensures
            c == ActionConfigurationCondition::EveryMillis(0),
    {
        ActionConfigurationCondition::EveryMillis(0)
    }
}

/// A fixed action of a character: a key used on a timer or right after another one.
#[derive(Clone, Copy, Debug, PartialEq, Eq, Structural)]
pub struct ActionConfiguration {
    pub key: KeyBinding,
    pub key_hold_millis: u64,
    pub key_hold_buffered_to_wait_after: bool,
    pub link_key: LinkKeyBinding,
    pub count: u32,
    pub condition: ActionConfigurationCondition,
    pub with: ActionKeyWith,
    pub wait_before_millis: u64,
    pub wait_before_millis_random_range: u64,
    pub wait_after_millis: u64,
    pub wait_after_millis_random_range: u64,
    pub wait_after_buffered: WaitAfterBuffered,
    pub enabled: bool,
}

impl Default for ActionConfiguration {
    fn default() -> (a: Self)
        ensures
            a.key == KeyBinding::A,
            a.key_hold_millis == 0,
            !a.key_hold_buffered_to_wait_after,
            a.link_key == LinkKeyBinding::Unlinked,
            a.count == 1,
            a.condition == ActionConfigurationCondition::EveryMillis(0),
            a.with == ActionKeyWith::Any,
            a.wait_before_millis == 0,
            a.wait_before_millis_random_range == 0,
            a.wait_after_millis == 0,
            a.wait_after_millis_random_range == 0,
            a.wait_after_buffered == WaitAfterBuffered::Disabled,
            !a.enabled,
    {
        ActionConfiguration {
            key: KeyBinding::A,
            key_hold_millis: 0,
            key_hold_buffered_to_wait_after: false,
            link_key: LinkKeyBinding::Unlinked,
            count: 1,
            condition: ActionConfigurationCondition::EveryMillis(0),
            with: ActionKeyWith::Any,
            wait_before_millis: 0,
            wait_before_millis_random_range: 0,
            wait_after_millis: 0,
            wait_after_millis_random_range: 0,
            wait_after_buffered: WaitAfterBuffered::Disabled,
            enabled: false,
        }
    }
}

/// The rotation action that a character's fixed action stands for.
pub open spec fn configuration_action(c: ActionConfiguration) -> Action {
    Action::Key(
        ActionKey {
            key: c.key,
            key_hold_millis: c.key_hold_millis,
            key_hold_buffered_to_wait_after: c.key_hold_buffered_to_wait_after,
            link_key: c.link_key,
            count: c.count,
            condition: match c.condition {
                ActionConfigurationCondition::EveryMillis(m) => ActionCondition::EveryMillis(m),
                ActionConfigurationCondition::Linked => ActionCondition::Linked,
            },
            with: c.with,
            wait_before_use_millis: c.wait_before_millis,
            wait_before_use_millis_random_range: c.wait_before_millis_random_range,
            wait_after_use_millis: c.wait_after_millis,
            wait_after_use_millis_random_range: c.wait_after_millis_random_range,
            wait_after_buffered: c.wait_after_buffered,
            ..default_action_key()
        },
    )
}

impl ActionConfiguration {
    /// Converts this fixed action into a rotation action.
    pub fn to_action(&self) -> (a: Action)
        ensures
            a == configuration_action(*self),
    {
        let condition = match self.condition {
            ActionConfigurationCondition::EveryMillis(m) => ActionCondition::EveryMillis(m),
            ActionConfigurationCondition::Linked => ActionCondition::Linked,
        };
        Action::Key(
            ActionKey {
                key: self.key,
                key_hold_millis: self.key_hold_millis,
                key_hold_buffered_to_wait_after: self.key_hold_buffered_to_wait_after,
                link_key: self.link_key,
                count: self.count,
                condition,
                with: self.with,
                wait_before_use_millis: self.wait_before_millis,
                wait_before_use_millis_random_range: self.wait_before_millis_random_range,
                wait_after_use_millis: self.wait_after_millis,
                wait_after_use_millis_random_range: self.wait_after_millis_random_range,
                wait_after_buffered: self.wait_after_buffered,
                ..ActionKey::default()
            },
        )
    }
}

} // verus!

verus! {

/// How the user wants potions used.
#[derive(Clone, Copy, Debug, PartialEq, Eq, Structural)]
pub enum PotionMode {
    /// Every given number of milliseconds.
    EveryMillis(u64),
    /// When health drops below the given whole percentage.
    Percentage(u32),
}

/// What the bot does when an elite boss appears.
#[derive(Clone, Copy, Debug, PartialEq, Eq, Structural)]
pub enum EliteBossBehavior {
    Ignore,
    CycleChannel,
    UseKey,
}

/// When the bot exchanges Sol Erda for HEXA Boosters.
#[derive(Clone, Copy, Debug, PartialEq, Eq, Structural)]
pub enum ExchangeHexaBoosterCondition {
    Never,
    Full,
    AtLeastOne,
}

/// Which familiar slots may be swapped.
#[derive(Clone, Copy, Debug, PartialEq, Eq, Structural)]
pub enum SwappableFamiliars {
    All,
    Last,
    SecondAndLast,
}

/// The rarity of a familiar.
#[derive(Clone, Copy, Debug, PartialEq, Eq, Structural)]
pub enum FamiliarRarity {
    Rare,
    Epic,
}

/// How the bot swaps familiars.
#[derive(Clone, Debug, PartialEq, Eq)]
pub struct FamiliarsConfiguration {
    pub swappable_familiars: SwappableFamiliars,
    /// The rarities that may be swapped; a valid configuration (`wf`) lists each once.
    pub swappable_rarities: Vec<FamiliarRarity>,
    pub swap_check_millis: u64,
    pub enable_familiars_swapping: bool,
}

impl Default for FamiliarsConfiguration {
    fn default() -> (c: Self)
        ensures
            c.swappable_familiars == SwappableFamiliars::All,
            c.swappable_rarities@.len() == 0,
            c.swap_check_millis == 0,
            !c.enable_familiars_swapping,
            c.wf(),
    {
        FamiliarsConfiguration {
            swappable_familiars: SwappableFamiliars::All,
            swappable_rarities: Vec::new(),
            swap_check_millis: 0,
            enable_familiars_swapping: false,
        }
    }
}

/// Whether `x` is among the first `n` items of `s`.
pub open spec fn occurs_before<T>(s: Seq<T>, n: int, x: T) -> bool {
    exists|k: int| 0 <= k < n && #[trigger] s[k] == x
}

proof fn lemma_push_contains<T>(s: Seq<T>, v: T)
    ensures
        forall|x: T| #[trigger] s.push(v).contains(x) == (x == v || s.contains(x)),
        s.no_duplicates() && !s.contains(v) ==> s.push(v).no_duplicates(),
{
    assert forall|x: T| #[trigger] s.push(v).contains(x) == (x == v || s.contains(x)) by {
        if x == v {
            assert(s.push(v)[s.len() as int] == v);
        }
        if s.push(v).contains(x) && x != v {
            let k = choose|k: int| 0 <= k < s.len() + 1 && s.push(v)[k] == x;
            assert(s[k] == x);
        }
        if s.contains(x) {
            let k = choose|k: int| 0 <= k < s.len() && s[k] == x;
            assert(s.push(v)[k] == x);
        }
    }
    if s.no_duplicates() && !s.contains(v) {
        assert forall|a: int, b: int|
            0 <= a < s.push(v).len() && 0 <= b < s.push(v).len() && a != b implies s.push(v)[a]
            != s.push(v)[b] by {
            if b == s.len() {
                assert(s[a] != v);
            } else if a == s.len() {
                assert(s[b] != v);
            }
        }
    }
}

impl FamiliarsConfiguration {
    /// Whether the configuration is valid: no rarity is listed twice.
    pub open spec fn wf(&self) -> bool {
        self.swappable_rarities@.no_duplicates()
    }

    /// Whether familiars of `rarity` may be swapped.
    pub fn allows(&self, rarity: FamiliarRarity) -> (b: bool)
        ensures
            b == self.swappable_rarities@.contains(rarity),
    {
        let mut i: usize = 0;
        while i < self.swappable_rarities.len()
            invariant
                i <= self.swappable_rarities@.len(),
                forall|k: int| 0 <= k < i ==> #[trigger] self.swappable_rarities@[k] != rarity,
            decreases self.swappable_rarities@.len() - i,
        {
            if self.swappable_rarities[i] == rarity {
                return true;
            }
            i += 1;
        }
        false
    }

    /// Allows or forbids swapping familiars of `rarity`; the other rarities
    /// stay as they are, and no rarity is listed twice.
    pub fn set_allowed(&mut self, rarity: FamiliarRarity, allowed: bool)
        requires
            old(self).wf(),
        ensures
            final(self).wf(),
            forall|r: FamiliarRarity| #[trigger]
                final(self).swappable_rarities@.contains(r) == if r == rarity {
                    allowed
                } else {
                    old(self).swappable_rarities@.contains(r)
                },
            final(self).swappable_familiars == old(self).swappable_familiars,
            final(self).swap_check_millis == old(self).swap_check_millis,
            final(self).enable_familiars_swapping == old(self).enable_familiars_swapping,
    {
        let ghost before = self.swappable_rarities@;
        let mut kept: Vec<FamiliarRarity> = Vec::new();
        let mut i: usize = 0;
        while i < self.swappable_rarities.len()
            invariant
                i <= before.len(),
                self.swappable_rarities@ == before,
                forall|r: FamiliarRarity| #[trigger]
                    kept@.contains(r) == (r != rarity && occurs_before(before, i as int, r)),
                before.no_duplicates() ==> kept@.no_duplicates(),
            decreases before.len() - i,
        {
            let r = self.swappable_rarities[i];
            proof {
                assert forall|x: FamiliarRarity| #[trigger]
                    occurs_before(before, i + 1, x) == (occurs_before(before, i as int, x) || x
                        == r) by {
                    if occurs_before(before, i + 1, x) && x != r {
                        let k = choose|k: int| 0 <= k < i + 1 && #[trigger] before[k] == x;
                        assert(k < i);
                    }
                    if x == r {
                        assert(before[i as int] == r);
                    }
                }
            }
            if r != rarity {
                proof {
                    if before.no_duplicates() && kept@.contains(r) {
                        let k = choose|k: int| 0 <= k < i && #[trigger] before[k] == r;
                        assert(before[k] == before[i as int]);
                    }
                }
                let ghost prior = kept@;
                kept.push(r);
                proof {
                    lemma_push_contains(prior, r);
                }
            }
            i += 1;
        }
        if allowed {
            let ghost prior = kept@;
            kept.push(rarity);
            proof {
                lemma_push_contains(prior, rarity);
            }
        }
        proof {
            assert forall|x: FamiliarRarity| #[trigger] occurs_before(before, before.len() as int, x)
                == before.contains(x) by {
                if before.contains(x) {
                    let k = choose|k: int| 0 <= k < before.len() && before[k] == x;
                    assert(occurs_before(before, before.len() as int, x));
                }
            }
        }
        self.swappable_rarities = kept;
    }

    /// A copy of this configuration.
    pub fn duplicate(&self) -> (c: Self)
        ensures
            c.swappable_familiars == self.swappable_familiars,
            c.swappable_rarities@ == self.swappable_rarities@,
            c.swap_check_millis == self.swap_check_millis,
            c.enable_familiars_swapping == self.enable_familiars_swapping,
    {
        let mut rarities: Vec<FamiliarRarity> = Vec::new();
        let mut i: usize = 0;
        while i < self.swappable_rarities.len()
            invariant
                i <= self.swappable_rarities@.len(),
                rarities@ == self.swappable_rarities@.subrange(0, i as int),
            decreases self.swappable_rarities@.len() - i,
        {
            rarities.push(self.swappable_rarities[i]);
            i += 1;
        }
        assert(rarities@ =~= self.swappable_rarities@);
        FamiliarsConfiguration {
            swappable_familiars: self.swappable_familiars,
            swappable_rarities: rarities,
            swap_check_millis: self.swap_check_millis,
            enable_familiars_swapping: self.enable_familiars_swapping,
        }
    }
}

/// A game character: its key bindings, consumables and fixed actions.
#[derive(Clone, Debug, PartialEq, Eq)]
pub struct Character {
    pub id: Option<i64>,
    pub name: String,
    pub link_key_timing_millis: u64,
    pub disable_double_jumping: bool,
    pub disable_adjusting: bool,
    pub disable_teleport_on_fall: bool,
    pub up_jump_is_flight: bool,
    pub up_jump_specific_key_should_jump: bool,
    pub hexa_booster_exchange_all: bool,
    pub interact_key: KeyBindingConfiguration,
    pub jump_key: KeyBindingConfiguration,
    pub potion_key: KeyBindingConfiguration,
    pub generic_booster_key: KeyBindingConfiguration,
    pub hexa_booster_key: KeyBindingConfiguration,
    pub feed_pet_key: KeyBindingConfiguration,
    pub familiar_essence_key: KeyBindingConfiguration,
    pub ropelift_key: Option<KeyBindingConfiguration>,
    pub teleport_key: Option<KeyBindingConfiguration>,
    pub up_jump_key: Option<KeyBindingConfiguration>,
    pub cash_shop_key: Option<KeyBindingConfiguration>,
    pub familiar_menu_key: Option<KeyBindingConfiguration>,
    pub to_town_key: Option<KeyBindingConfiguration>,
    pub change_channel_key: Option<KeyBindingConfiguration>,
    pub potion_mode: PotionMode,
    pub health_update_millis: u64,
    pub feed_pet_millis: u64,
    pub feed_pet_count: u32,
    pub actions: Vec<ActionConfiguration>,
    pub elite_boss_behavior: EliteBossBehavior,
    pub elite_boss_behavior_key: KeyBinding,
    pub hexa_booster_exchange_condition: ExchangeHexaBoosterCondition,
    pub hexa_booster_exchange_amount: u32,
    pub familiars: FamiliarsConfiguration,
    pub familiar_buff_key: KeyBindingConfiguration,
    pub sayram_elixir_key: KeyBindingConfiguration,
    pub aurelia_elixir_key: KeyBindingConfiguration,
    pub exp_x2_key: KeyBindingConfiguration,
    pub exp_x3_key: KeyBindingConfiguration,
    pub exp_x4_key: KeyBindingConfiguration,
    pub bonus_exp_key: KeyBindingConfiguration,
    pub legion_luck_key: KeyBindingConfiguration,
    pub legion_wealth_key: KeyBindingConfiguration,
    pub wealth_acquisition_potion_key: KeyBindingConfiguration,
    pub exp_accumulation_potion_key: KeyBindingConfiguration,
    pub small_wealth_acquisition_potion_key: KeyBindingConfiguration,
    pub small_exp_accumulation_potion_key: KeyBindingConfiguration,
    pub for_the_guild_key: KeyBindingConfiguration,
    pub hard_hitter_key: KeyBindingConfiguration,
    pub extreme_red_potion_key: KeyBindingConfiguration,
    pub extreme_blue_potion_key: KeyBindingConfiguration,
    pub extreme_green_potion_key: KeyBindingConfiguration,
    pub extreme_gold_potion_key: KeyBindingConfiguration,
}

impl Default for Character {
    fn default() -> (c: Self)
        ensures
            c.id is None,
            c.name@.len() == 0,
            c.link_key_timing_millis == 0,
            c.disable_double_jumping == false,
            c.disable_adjusting == false,
            c.disable_teleport_on_fall == false,
            c.up_jump_is_flight == false,
            c.up_jump_specific_key_should_jump == false,
            c.hexa_booster_exchange_all == false,
            c.interact_key == (KeyBindingConfiguration { key: KeyBinding::A, enabled: false }),
            c.jump_key == (KeyBindingConfiguration { key: KeyBinding::A, enabled: false }),
            c.potion_key == (KeyBindingConfiguration { key: KeyBinding::A, enabled: false }),
            c.generic_booster_key == (KeyBindingConfiguration { key: KeyBinding::A, enabled: false }),
            c.hexa_booster_key == (KeyBindingConfiguration { key: KeyBinding::A, enabled: false }),
            c.feed_pet_key == (KeyBindingConfiguration { key: KeyBinding::A, enabled: false }),
            c.familiar_essence_key == (KeyBindingConfiguration { key: KeyBinding::A, enabled: false }),
            c.ropelift_key is None,
            c.teleport_key is None,
            c.up_jump_key is None,
            c.cash_shop_key is None,
            c.familiar_menu_key is None,
            c.to_town_key is None,
            c.change_channel_key is None,
            c.potion_mode == PotionMode::EveryMillis(0),
            c.health_update_millis == 0,
            c.feed_pet_millis == 0,
            c.feed_pet_count == 1,
            c.actions@.len() == 0,
            c.elite_boss_behavior == EliteBossBehavior::Ignore,
            c.elite_boss_behavior_key == KeyBinding::A,
            c.hexa_booster_exchange_condition == ExchangeHexaBoosterCondition::Never,
            c.hexa_booster_exchange_amount == 1,
            c.familiars.swappable_familiars == SwappableFamiliars::All && c.familiars.swappable_rarities@.len() == 0 && c.familiars.swap_check_millis == 0 && !c.familiars.enable_familiars_swapping,
            c.familiar_buff_key == (KeyBindingConfiguration { key: KeyBinding::A, enabled: false }),
            c.sayram_elixir_key == (KeyBindingConfiguration { key: KeyBinding::A, enabled: false }),
            c.aurelia_elixir_key == (KeyBindingConfiguration { key: KeyBinding::A, enabled: false }),
            c.exp_x2_key == (KeyBindingConfiguration { key: KeyBinding::A, enabled: false }),
            c.exp_x3_key == (KeyBindingConfiguration { key: KeyBinding::A, enabled: false }),
            c.exp_x4_key == (KeyBindingConfiguration { key: KeyBinding::A, enabled: false }),
            c.bonus_exp_key == (KeyBindingConfiguration { key: KeyBinding::A, enabled: false }),
            c.legion_luck_key == (KeyBindingConfiguration { key: KeyBinding::A, enabled: false }),
            c.legion_wealth_key == (KeyBindingConfiguration { key: KeyBinding::A, enabled: false }),
            c.wealth_acquisition_potion_key == (KeyBindingConfiguration { key: KeyBinding::A, enabled: false }),
            c.exp_accumulation_potion_key == (KeyBindingConfiguration { key: KeyBinding::A, enabled: false }),
            c.small_wealth_acquisition_potion_key == (KeyBindingConfiguration { key: KeyBinding::A, enabled: false }),
            c.small_exp_accumulation_potion_key == (KeyBindingConfiguration { key: KeyBinding::A, enabled: false }),
            c.for_the_guild_key == (KeyBindingConfiguration { key: KeyBinding::A, enabled: false }),
            c.hard_hitter_key == (KeyBindingConfiguration { key: KeyBinding::A, enabled: false }),
            c.extreme_red_potion_key == (KeyBindingConfiguration { key: KeyBinding::A, enabled: false }),
            c.extreme_blue_potion_key == (KeyBindingConfiguration { key: KeyBinding::A, enabled: false }),
            c.extreme_green_potion_key == (KeyBindingConfiguration { key: KeyBinding::A, enabled: false }),
            c.extreme_gold_potion_key == (KeyBindingConfiguration { key: KeyBinding::A, enabled: false }),
    {
        Character {
            id: None,
            name: String::new(),
            link_key_timing_millis: 0,
            disable_double_jumping: false,
            disable_adjusting: false,
            disable_teleport_on_fall: false,
            up_jump_is_flight: false,
            up_jump_specific_key_should_jump: false,
            hexa_booster_exchange_all: false,
            interact_key: KeyBindingConfiguration::default(),
            jump_key: KeyBindingConfiguration::default(),
            potion_key: KeyBindingConfiguration::default(),
            generic_booster_key: KeyBindingConfiguration::default(),
            hexa_booster_key: KeyBindingConfiguration::default(),
            feed_pet_key: KeyBindingConfiguration::default(),
            familiar_essence_key: KeyBindingConfiguration::default(),
            ropelift_key: None,
            teleport_key: None,
            up_jump_key: None,
            cash_shop_key: None,
            familiar_menu_key: None,
            to_town_key: None,
            change_channel_key: None,
            potion_mode: PotionMode::EveryMillis(0),
            health_update_millis: 0,
            feed_pet_millis: 0,
            feed_pet_count: 1,
            actions: Vec::new(),
            elite_boss_behavior: EliteBossBehavior::Ignore,
            elite_boss_behavior_key: KeyBinding::A,
            hexa_booster_exchange_condition: ExchangeHexaBoosterCondition::Never,
            hexa_booster_exchange_amount: 1,
            familiars: FamiliarsConfiguration::default(),
            familiar_buff_key: KeyBindingConfiguration::default(),
            sayram_elixir_key: KeyBindingConfiguration::default(),
            aurelia_elixir_key: KeyBindingConfiguration::default(),
            exp_x2_key: KeyBindingConfiguration::default(),
            exp_x3_key: KeyBindingConfiguration::default(),
            exp_x4_key: KeyBindingConfiguration::default(),
            bonus_exp_key: KeyBindingConfiguration::default(),
            legion_luck_key: KeyBindingConfiguration::default(),
            legion_wealth_key: KeyBindingConfiguration::default(),
            wealth_acquisition_potion_key: KeyBindingConfiguration::default(),
            exp_accumulation_potion_key: KeyBindingConfiguration::default(),
            small_wealth_acquisition_potion_key: KeyBindingConfiguration::default(),
            small_exp_accumulation_potion_key: KeyBindingConfiguration::default(),
            for_the_guild_key: KeyBindingConfiguration::default(),
            hard_hitter_key: KeyBindingConfiguration::default(),
            extreme_red_potion_key: KeyBindingConfiguration::default(),
            extreme_blue_potion_key: KeyBindingConfiguration::default(),
            extreme_green_potion_key: KeyBindingConfiguration::default(),
            extreme_gold_potion_key: KeyBindingConfiguration::default(),
        }
    }
}

} // verus!

verus! {

/// The position among `characters` of the character whose id is `id`: the
/// first such character.
pub fn character_position(characters: &Vec<Character>, id: Option<i64>) -> (r: Option<usize>)
    ensures
        match r {
            Some(i) => i < characters@.len() && characters@[i as int].id == id && forall|k: int|
                0 <= k < i ==> #[trigger] characters@[k].id != id,
            None => forall|k: int| 0 <= k < characters@.len() ==> #[trigger] characters@[k].id != id,
        },
{
    let mut i: usize = 0;
    while i < characters.len()
        invariant
            i <= characters@.len(),
            forall|k: int| 0 <= k < i ==> #[trigger] characters@[k].id != id,
        decreases characters@.len() - i,
    {
        let same = match (characters[i].id, id) {
            (Some(a), Some(b)) => a == b,
            (None, None) => true,
            _ => false,
        };
        if same {
            return Some(i);
        }
        i += 1;
    }
    None
}

/// The character to select when none is: the last selected one, where it is
/// still there, else the first one.
pub fn preferred_character(characters: &Vec<Character>, selected_id: Option<i64>) -> (r: Option<
    usize,
>)
    ensures
        characters@.len() == 0 ==> r is None,
        characters@.len() > 0 ==> (r matches Some(i) && i < characters@.len() && (
        if exists|k: int| 0 <= k < characters@.len() && #[trigger] characters@[k].id == selected_id {
            characters@[i as int].id == selected_id && forall|k: int|
                0 <= k < i ==> #[trigger] characters@[k].id != selected_id
        } else {
            i == 0
        })),
{
    match character_position(characters, selected_id) {
        Some(i) => Some(i),
        None => if characters.len() > 0 {
            Some(0)
        } else {
            None
        },
    }
}

} // verus!

verus! {

/// The bot's settings that the services read.
#[derive(Clone, Debug, PartialEq, Eq)]
pub struct Settings {
    pub enable_panic_mode: bool,
    pub enable_rune_solving: bool,
    pub enable_transparent_shape_solving: bool,
    pub stop_on_player_die: bool,
    pub stop_on_fail_or_change_map: bool,
    pub toggle_actions_key: KeyBindingConfiguration,
    pub platform_start_key: KeyBindingConfiguration,
    pub platform_end_key: KeyBindingConfiguration,
    pub platform_add_key: KeyBindingConfiguration,
    pub cycle_run_stop: bool,
    pub cycle_run_duration_millis: u64,
    pub cycle_stop_duration_millis: u64,
    pub discord_bot_access_token: String,
}

impl Default for Settings {
    fn default() -> (s: Self)
        ensures
            !s.enable_panic_mode,
            !s.enable_rune_solving,
            !s.enable_transparent_shape_solving,
            !s.stop_on_player_die,
            !s.stop_on_fail_or_change_map,
            s.toggle_actions_key == (KeyBindingConfiguration { key: KeyBinding::A, enabled: false }),
            s.platform_start_key == (KeyBindingConfiguration { key: KeyBinding::A, enabled: false }),
            s.platform_end_key == (KeyBindingConfiguration { key: KeyBinding::A, enabled: false }),
            s.platform_add_key == (KeyBindingConfiguration { key: KeyBinding::A, enabled: false }),
            !s.cycle_run_stop,
            s.cycle_run_duration_millis == 0,
            s.cycle_stop_duration_millis == 0,
            s.discord_bot_access_token@.len() == 0,
    {
        Settings {
            enable_panic_mode: false,
            enable_rune_solving: false,
            enable_transparent_shape_solving: false,
            stop_on_player_die: false,
            stop_on_fail_or_change_map: false,
            toggle_actions_key: KeyBindingConfiguration::default(),
            platform_start_key: KeyBindingConfiguration::default(),
            platform_end_key: KeyBindingConfiguration::default(),
            platform_add_key: KeyBindingConfiguration::default(),
            cycle_run_stop: false,
            cycle_run_duration_millis: 0,
            cycle_stop_duration_millis: 0,
            discord_bot_access_token: String::new(),
        }
    }
}

} // verus!
