//! Maps: their platforms, rotation and named action presets.

use vstd::prelude::*;

use crate::keys::{KeyBinding, LinkKeyBinding};
use crate::models::{Action, ActionKeyWith, Bound, Platform};

verus! {

/// How the rotator goes through a map's actions.
#[derive(Clone, Copy, Debug, PartialEq, Eq, Structural)]
pub enum RotationMode {
    StartToEnd,
    StartToEndThenReverse,
    AutoMobbing,
    PingPong,
}

/// The key used while mobbing.
#[derive(Clone, Copy, Debug, PartialEq, Eq, Structural)]
pub struct MobbingKey {
    pub key: KeyBinding,
    pub key_hold_millis: u64,
    pub link_key: LinkKeyBinding,
    pub count: u32,
    pub with: ActionKeyWith,
    pub wait_before_millis: u64,
    pub wait_before_millis_random_range: u64,
    pub wait_after_millis: u64,
    pub wait_after_millis_random_range: u64,
}

pub open spec fn default_mobbing_key() -> MobbingKey {
    MobbingKey {
        key: KeyBinding::A,
        key_hold_millis: 0,
        link_key: LinkKeyBinding::Unlinked,
        count: 1,
        with: ActionKeyWith::Any,
        wait_before_millis: 0,
        wait_before_millis_random_range: 0,
        wait_after_millis: 0,
        wait_after_millis_random_range: 0,
    }
}

impl Default for MobbingKey {
    fn default() -> (k: Self)
        ensures
            k == default_mobbing_key(),
    {
        MobbingKey {
            key: KeyBinding::A,
            key_hold_millis: 0,
            link_key: LinkKeyBinding::Unlinked,
            count: 1,
            with: ActionKeyWith::Any,
            wait_before_millis: 0,
            wait_before_millis_random_range: 0,
            wait_after_millis: 0,
            wait_after_millis_random_range: 0,
        }
    }
}

/// A named list of actions of a map.
#[derive(Clone, Debug, PartialEq, Eq)]
pub struct ActionPreset {
    pub name: String,
    pub actions: Vec<Action>,
}

/// A map (its minimap): its size, platforms, rotation and action presets.
#[derive(Clone, Debug, PartialEq, Eq)]
pub struct MinimapData {
    pub id: Option<i64>,
    pub name: String,
    pub width: i32,
    pub height: i32,
    pub platforms: Vec<Platform>,
    pub rune_platforms_pathing: bool,
    pub rune_platforms_pathing_up_jump_only: bool,
    pub auto_mob_platforms_pathing: bool,
    pub auto_mob_platforms_pathing_up_jump_only: bool,
    pub auto_mob_platforms_bound: bool,
    pub auto_mob_use_key_when_pathing: bool,
    pub auto_mob_use_key_when_pathing_update_millis: u64,
    pub rotation_mode: RotationMode,
    pub rotation_mobbing_key: MobbingKey,
    pub rotation_auto_mob_bound: Bound,
    pub rotation_ping_pong_bound: Bound,
    /// The action presets; in a valid map (`wf`) no two share a name.
    pub actions: Vec<ActionPreset>,
    pub actions_any_reset_on_erda_condition: bool,
    pub paths_id_index: Option<i64>,
}

pub open spec fn zero_bound() -> Bound {
    Bound { x: 0, y: 0, width: 0, height: 0 }
}

/// Whether `m` is the map that every unset field takes, with the given name and size.
pub open spec fn is_new_map(m: MinimapData, name: Seq<char>, width: i32, height: i32) -> bool {
    &&& m.id is None
    &&& m.name@ == name
    &&& m.width == width
    &&& m.height == height
    &&& m.platforms@.len() == 0
    &&& !m.rune_platforms_pathing
    &&& !m.rune_platforms_pathing_up_jump_only
    &&& !m.auto_mob_platforms_pathing
    &&& !m.auto_mob_platforms_pathing_up_jump_only
    &&& !m.auto_mob_platforms_bound
    &&& !m.auto_mob_use_key_when_pathing
    &&& m.auto_mob_use_key_when_pathing_update_millis == 0
    &&& m.rotation_mode == RotationMode::StartToEnd
    &&& m.rotation_mobbing_key == default_mobbing_key()
    &&& m.rotation_auto_mob_bound == zero_bound()
    &&& m.rotation_ping_pong_bound == zero_bound()
    &&& m.actions@.len() == 0
    &&& !m.actions_any_reset_on_erda_condition
    &&& m.paths_id_index is None
}

impl MinimapData {
    /// Whether the map is valid: no two of its presets share a name.
    pub open spec fn wf(&self) -> bool {
        unique_preset_names(self.actions@)
    }

    /// A map with the given name and size and every other field unset.
    pub fn new_named(name: String, width: i32, height: i32) -> (m: MinimapData)
        ensures
            is_new_map(m, name@, width, height),
            m.wf(),
    {
        MinimapData {
            id: None,
            name,
            width,
            height,
            platforms: Vec::new(),
            rune_platforms_pathing: false,
            rune_platforms_pathing_up_jump_only: false,
            auto_mob_platforms_pathing: false,
            auto_mob_platforms_pathing_up_jump_only: false,
            auto_mob_platforms_bound: false,
            auto_mob_use_key_when_pathing: false,
            auto_mob_use_key_when_pathing_update_millis: 0,
            rotation_mode: RotationMode::StartToEnd,
            rotation_mobbing_key: MobbingKey::default(),
            rotation_auto_mob_bound: Bound { x: 0, y: 0, width: 0, height: 0 },
            rotation_ping_pong_bound: Bound { x: 0, y: 0, width: 0, height: 0 },
            actions: Vec::new(),
            actions_any_reset_on_erda_condition: false,
            paths_id_index: None,
        }
    }
}

impl Default for MinimapData {
    fn default() -> (m: Self)
        ensures
            is_new_map(m, Seq::empty(), 0, 0),
            m.wf(),
    {
        MinimapData::new_named(String::new(), 0, 0)
    }
}

/// The first index at or after `i` of a preset named `name`.
pub open spec fn first_preset_from(presets: Seq<ActionPreset>, name: Seq<char>, i: int) -> Option<
    int,
>
    decreases presets.len() - i,
{
    if i < 0 || i >= presets.len() {
        None
    } else if presets[i].name@ == name {
        Some(i)
    } else {
        first_preset_from(presets, name, i + 1)
    }
}

/// The actions of the preset named `name`.
pub open spec fn preset_lookup(presets: Seq<ActionPreset>, name: Seq<char>) -> Option<Seq<Action>> {
    match first_preset_from(presets, name, 0) {
        Some(i) => Some(presets[i].actions@),
        None => None,
    }
}

proof fn lemma_first_preset_bounds(presets: Seq<ActionPreset>, name: Seq<char>, i: int)
    ensures
        first_preset_from(presets, name, i) matches Some(k) ==> i <= k < presets.len()
            && presets[k].name@ == name,
    decreases presets.len() - i,
{
    if 0 <= i < presets.len() && presets[i].name@ != name {
        lemma_first_preset_bounds(presets, name, i + 1);
    }
}

proof fn lemma_first_preset_same_names(
    p: Seq<ActionPreset>,
    q: Seq<ActionPreset>,
    name: Seq<char>,
    i: int,
)
    requires
        p.len() == q.len(),
        forall|k: int| 0 <= k < p.len() ==> #[trigger] p[k].name@ == q[k].name@,
    ensures
        first_preset_from(p, name, i) == first_preset_from(q, name, i),
    decreases p.len() - i,
{
    if 0 <= i < p.len() {
        lemma_first_preset_same_names(p, q, name, i + 1);
    }
}

proof fn lemma_first_preset_push(p: Seq<ActionPreset>, x: ActionPreset, name: Seq<char>, i: int)
    requires
        0 <= i <= p.len(),
    ensures
        first_preset_from(p.push(x), name, i) == match first_preset_from(p, name, i) {
            Some(k) => Some(k),
            None => if x.name@ == name {
                Some(p.len() as int)
            } else {
                None
            },
        },
    decreases p.len() - i,
{
    if i < p.len() {
        assert(p.push(x)[i] == p[i]);
        lemma_first_preset_push(p, x, name, i + 1);
    } else {
        assert(p.push(x)[i] == x);
        assert(first_preset_from(p.push(x), name, i + 1) == None::<int>);
    }
}

/// Whether no two presets share a name.
pub open spec fn unique_preset_names(presets: Seq<ActionPreset>) -> bool {
    forall|i: int, j: int|
        0 <= i < j < presets.len() ==> #[trigger] presets[i].name@ != #[trigger] presets[j].name@
}

proof fn lemma_first_preset_none(presets: Seq<ActionPreset>, name: Seq<char>, i: int)
    requires
        0 <= i,
        first_preset_from(presets, name, i) is None,
    ensures
        forall|k: int| i <= k < presets.len() ==> #[trigger] presets[k].name@ != name,
    decreases presets.len() - i,
{
    if i < presets.len() {
        lemma_first_preset_none(presets, name, i + 1);
    }
}

/// Whether two strings hold the same characters.
pub fn same_name(a: &String, b: &String) -> (r: bool)
    ensures
        r == (a@ == b@),
{
    a.eq(b)
}

impl MinimapData {
    /// Finds the index of the preset named `name`.
    pub fn find_preset(&self, name: &String) -> (r: Option<usize>)
        ensures
            match r {
                Some(i) => first_preset_from(self.actions@, name@, 0) == Some(i as int),
                None => first_preset_from(self.actions@, name@, 0) is None,
            },
    {
        let mut i: usize = 0;
        while i < self.actions.len()
            invariant
                i <= self.actions@.len(),
                first_preset_from(self.actions@, name@, 0) == first_preset_from(
                    self.actions@,
                    name@,
                    i as int,
                ),
            decreases self.actions@.len() - i,
        {
            if same_name(&self.actions[i].name, name) {
                return Some(i);
            }
            i += 1;
        }
        None
    }

    /// The actions of the preset named `name`.
    pub fn preset_actions(&self, name: &String) -> (r: Option<Vec<Action>>)
        ensures
            match r {
                Some(v) => preset_lookup(self.actions@, name@) == Some(v@),
                None => preset_lookup(self.actions@, name@) is None,
            },
    {
        match self.find_preset(name) {
            Some(i) => {
                proof {
                    lemma_first_preset_bounds(self.actions@, name@, 0);
                }
                Some(copy_actions(&self.actions[i].actions))
            },
            None => None,
        }
    }

    /// Sets the actions of the preset named `name`, adding the preset if there is none.
    pub fn insert_preset(&mut self, name: String, actions: Vec<Action>)
        requires
            old(self).wf(),
        ensures
            final(self).wf(),
            preset_lookup(final(self).actions@, name@) == Some(actions@),
            forall|other: Seq<char>|
                other != name@ ==> preset_lookup(final(self).actions@, other) == preset_lookup(
                    old(self).actions@,
                    other,
                ),
    {
        let ghost old_presets = self.actions@;
        proof {
            lemma_first_preset_bounds(old_presets, name@, 0);
        }
        match self.find_preset(&name) {
            Some(i) => {
                let ghost target = name@;
                self.actions.set(i, ActionPreset { name, actions });
                proof {
                    let new_presets = self.actions@;
                    assert forall|k: int| 0 <= k < old_presets.len() implies #[trigger] old_presets[k].name@
                        == new_presets[k].name@ by {
                        if k == i {
                        }
                    }
                    if unique_preset_names(old_presets) {
                        assert forall|a: int, b: int|
                            0 <= a < b < new_presets.len() implies #[trigger] new_presets[a].name@
                            != #[trigger] new_presets[b].name@ by {
                            assert(old_presets[a].name@ == new_presets[a].name@);
                            assert(old_presets[b].name@ == new_presets[b].name@);
                        }
                    }
                    assert forall|other: Seq<char>|
                        true implies first_preset_from(new_presets, other, 0) == first_preset_from(
                            old_presets,
                            other,
                            0,
                        ) by {
                        lemma_first_preset_same_names(new_presets, old_presets, other, 0);
                    }
                    assert forall|other: Seq<char>|
                        other != target implies preset_lookup(new_presets, other) == preset_lookup(
                            old_presets,
                            other,
                        ) by {
                        lemma_first_preset_bounds(old_presets, other, 0);
                        if let Some(k) = first_preset_from(old_presets, other, 0) {
                            assert(k != i);
                        }
                    }
                }
            },
            None => {
                let ghost target = name@;
                let ghost pushed = ActionPreset { name, actions };
                self.actions.push(ActionPreset { name, actions });
                proof {
                    assert forall|other: Seq<char>|
                        true implies first_preset_from(self.actions@, other, 0) == match first_preset_from(
                            old_presets,
                            other,
                            0,
                        ) {
                            Some(k) => Some(k),
                            None => if target == other {
                                Some(old_presets.len() as int)
                            } else {
                                None
                            },
                        } by {
                        lemma_first_preset_push(old_presets, pushed, other, 0);
                    }
                    lemma_first_preset_none(old_presets, target, 0);
                    if unique_preset_names(old_presets) {
                        let new_presets = self.actions@;
                        assert forall|a: int, b: int|
                            0 <= a < b < new_presets.len() implies #[trigger] new_presets[a].name@
                            != #[trigger] new_presets[b].name@ by {
                            if b == old_presets.len() {
                                assert(new_presets[a] == old_presets[a]);
                            } else {
                                assert(new_presets[a] == old_presets[a]);
                                assert(new_presets[b] == old_presets[b]);
                            }
                        }
                    }
                    assert forall|other: Seq<char>|
                        other != target implies preset_lookup(self.actions@, other) == preset_lookup(
                            old_presets,
                            other,
                        ) by {
                        lemma_first_preset_bounds(old_presets, other, 0);
                        if let Some(k) = first_preset_from(old_presets, other, 0) {
                            assert(self.actions@[k] == old_presets[k]);
                        }
                    }
                }
            },
        }
    }
}

/// A copy of a list of actions.
pub fn copy_actions(actions: &Vec<Action>) -> (r: Vec<Action>)
    ensures
        r@ == actions@,
{
    let mut out: Vec<Action> = Vec::new();
    let mut i: usize = 0;
    while i < actions.len()
        invariant
            i <= actions@.len(),
            out@ == actions@.subrange(0, i as int),
        decreases actions@.len() - i,
    {
        out.push(actions[i]);
        i += 1;
    }
    assert(out@ =~= actions@);
    out
}

} // verus!

verus! {

proof fn lemma_first_preset_remove(p: Seq<ActionPreset>, r: int, name: Seq<char>, i: int)
    requires
        0 <= r < p.len(),
        0 <= i <= r,
        first_preset_from(p, p[r].name@, i) == Some(r),
        name != p[r].name@,
    ensures
        first_preset_from(p.remove(r), name, i) == match first_preset_from(p, name, i) {
            Some(k) => if k < r {
                Some(k)
            } else {
                Some(k - 1)
            },
            None => None,
        },
    decreases p.len() - i,
{
    lemma_first_preset_bounds(p, name, i);
    lemma_first_preset_bounds(p.remove(r), name, i);
    if i < r {
        assert(p.remove(r)[i] == p[i]);
        lemma_first_preset_remove(p, r, name, i + 1);
    } else {
        lemma_first_preset_shift(p, r, name, r + 1);
    }
}

proof fn lemma_first_preset_shift(p: Seq<ActionPreset>, r: int, name: Seq<char>, i: int)
    requires
        0 <= r < p.len(),
        r + 1 <= i <= p.len(),
    ensures
        first_preset_from(p.remove(r), name, i - 1) == match first_preset_from(p, name, i) {
            Some(k) => Some(k - 1),
            None => None,
        },
    decreases p.len() - i,
{
    lemma_first_preset_bounds(p, name, i);
    if i < p.len() {
        assert(p.remove(r)[i - 1] == p[i]);
        lemma_first_preset_shift(p, r, name, i + 1);
    }
}

impl MinimapData {
    /// Adds an empty preset named `name`; `false`, and nothing changes, where
    /// a preset of that name exists.
    pub fn create_preset(&mut self, name: String) -> (r: bool)
        requires
            old(self).wf(),
        ensures
            r == (preset_lookup(old(self).actions@, name@) is None),
            r ==> preset_lookup(final(self).actions@, name@) == Some(Seq::<Action>::empty()),
            forall|other: Seq<char>|
                other != name@ ==> preset_lookup(final(self).actions@, other) == preset_lookup(
                    old(self).actions@,
                    other,
                ),
            !r ==> final(self).actions@ == old(self).actions@,
            final(self).wf(),
    {
        if self.find_preset(&name).is_some() {
            return false;
        }
        self.insert_preset(name, Vec::new());
        true
    }

    /// Deletes the preset named `name`; `false` where there is none.
    pub fn delete_preset(&mut self, name: &String) -> (r: bool)
        requires
            old(self).wf(),
        ensures
            final(self).wf(),
            r == (preset_lookup(old(self).actions@, name@) is Some),
            preset_lookup(final(self).actions@, name@) is None,
            forall|other: Seq<char>|
                other != name@ ==> preset_lookup(final(self).actions@, other) == preset_lookup(
                    old(self).actions@,
                    other,
                ),
    {
        let ghost old_presets = self.actions@;
        let mut removed = false;
        loop
            invariant
                removed ==> preset_lookup(old_presets, name@) is Some,
                !removed ==> self.actions@ == old_presets,
                unique_preset_names(old_presets) ==> unique_preset_names(self.actions@),
                forall|other: Seq<char>|
                    other != name@ ==> preset_lookup(self.actions@, other) == preset_lookup(
                        old_presets,
                        other,
                    ),
            ensures
                removed == (preset_lookup(old_presets, name@) is Some),
                unique_preset_names(old_presets) ==> unique_preset_names(self.actions@),
                preset_lookup(self.actions@, name@) is None,
                forall|other: Seq<char>|
                    other != name@ ==> preset_lookup(self.actions@, other) == preset_lookup(
                        old_presets,
                        other,
                    ),
            decreases self.actions@.len(),
        {
            let ghost before = self.actions@;
            proof {
                lemma_first_preset_bounds(before, name@, 0);
            }
            match self.find_preset(name) {
                None => {
                    break;
                },
                Some(i) => {
                    self.actions.remove(i);
                    proof {
                        let after = self.actions@;
                        if unique_preset_names(old_presets) {
                            assert forall|a: int, b: int|
                                0 <= a < b < after.len() implies #[trigger] after[a].name@
                                != #[trigger] after[b].name@ by {
                                let a0 = if a < i { a } else { a + 1 };
                                let b0 = if b < i { b } else { b + 1 };
                                assert(after[a] == before[a0]);
                                assert(after[b] == before[b0]);
                            }
                        }
                        assert forall|other: Seq<char>|
                            other != name@ implies preset_lookup(after, other) == preset_lookup(
                                before,
                                other,
                            ) by {
                            lemma_first_preset_remove(before, i as int, other, 0);
                            lemma_first_preset_bounds(before, other, 0);
                            if let Some(k) = first_preset_from(before, other, 0) {
                                if k < i {
                                    assert(after[k] == before[k]);
                                } else {
                                    assert(after[k - 1] == before[k]);
                                }
                            }
                        }
                    }
                    removed = true;
                },
            }
        }
        removed
    }
}

} // verus!

verus! {

impl MinimapData {
    /// The names of the presets, in order.
    pub fn preset_names(&self) -> (r: Vec<String>)
        ensures
            r@.len() == self.actions@.len(),
            forall|i: int| 0 <= i < r@.len() ==> #[trigger] r@[i]@ == self.actions@[i].name@,
    {
        let mut names: Vec<String> = Vec::new();
        let mut i: usize = 0;
        while i < self.actions.len()
            invariant
                i <= self.actions@.len(),
                names@.len() == i,
                forall|k: int| 0 <= k < i ==> #[trigger] names@[k]@ == self.actions@[k].name@,
            decreases self.actions@.len() - i,
        {
            names.push(self.actions[i].name.clone());
            i += 1;
        }
        names
    }
}

/// The position of `preset` among `names`: the first equal name.
pub fn preset_position(names: &Vec<String>, preset: &String) -> (r: Option<usize>)
    ensures
        match r {
            Some(i) => i < names@.len() && names@[i as int]@ == preset@ && forall|k: int|
                0 <= k < i ==> #[trigger] names@[k]@ != preset@,
            None => forall|k: int| 0 <= k < names@.len() ==> #[trigger] names@[k]@ != preset@,
        },
{
    let mut i: usize = 0;
    while i < names.len()
        invariant
            i <= names@.len(),
            forall|k: int| 0 <= k < i ==> #[trigger] names@[k]@ != preset@,
        decreases names@.len() - i,
    {
        if same_name(&names[i], preset) {
            return Some(i);
        }
        i += 1;
    }
    None
}

/// The position among `maps` of the map whose id is `id`: the first such map.
pub fn map_position(maps: &Vec<MinimapData>, id: Option<i64>) -> (r: Option<usize>)
    ensures
        match r {
            Some(i) => i < maps@.len() && maps@[i as int].id == id && forall|k: int|
                0 <= k < i ==> #[trigger] maps@[k].id != id,
            None => forall|k: int| 0 <= k < maps@.len() ==> #[trigger] maps@[k].id != id,
        },
{
    let mut i: usize = 0;
    while i < maps.len()
        invariant
            i <= maps@.len(),
            forall|k: int| 0 <= k < i ==> #[trigger] maps@[k].id != id,
        decreases maps@.len() - i,
    {
        let same = match (maps[i].id, id) {
            (Some(a), Some(b)) => a == b,
            (None, None) => true,
            _ => false,
        };
        if same {
            return Some(i);
        }
        i += 1;
    }
    None
}

} // verus!
