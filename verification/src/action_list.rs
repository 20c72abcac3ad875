//! How the user edits a map's action list.
//!
//! A map's actions form groups: an action whose condition is not
//! [`ActionCondition::Linked`] heads a group, and the linked actions right after
//! it belong to that group and run right after it. The user interface shows the
//! actions of one condition kind at a time, and every edit below keeps the
//! groups whole.

use std::ops::Range;

use vstd::prelude::*;

use crate::models::{
    condition_of, same_condition_kind, with_condition_spec, Action, ActionCondition, Platform,
};

verus! {

/// Whether the action at `i` is linked to the one before it.
pub open spec fn is_linked_at(s: Seq<Action>, i: int) -> bool {
    condition_of(s[i]) is Linked
}

/// One past the last index of the run of linked actions that starts at `j`.
pub open spec fn linked_run_end(s: Seq<Action>, j: int) -> int
    decreases s.len() - j,
{
    if 0 <= j < s.len() && is_linked_at(s, j) {
        linked_run_end(s, j + 1)
    } else {
        j
    }
}

/// One past the last action of the group whose head is at `i`.
pub open spec fn group_end(s: Seq<Action>, i: int) -> int {
    linked_run_end(s, i + 1)
}

/// The run of linked actions starting at `j` is as long as it can be.
pub proof fn lemma_linked_run_end(s: Seq<Action>, j: int)
    requires
        0 <= j,
    ensures
        j <= linked_run_end(s, j),
        j <= s.len() ==> linked_run_end(s, j) <= s.len(),
        forall|k: int| j <= k < linked_run_end(s, j) ==> is_linked_at(s, k),
        linked_run_end(s, j) < s.len() ==> !is_linked_at(s, linked_run_end(s, j)),
    decreases s.len() - j,
{
    if 0 <= j < s.len() && is_linked_at(s, j) {
        lemma_linked_run_end(s, j + 1);
    }
}

/// Finds the indices of the linked actions that follow the action at `action_index`.
pub fn find_linked_action_range(actions: &[Action], action_index: usize) -> (r: Option<
    Range<usize>,
>)
    requires
        action_index < usize::MAX,
    ensures
        match r {
            None => group_end(actions@, action_index as int) == action_index + 1,
            Some(range) => {
                &&& range.start == action_index + 1
                &&& range.end as int == group_end(actions@, action_index as int)
                &&& range.start < range.end
            },
        },
{
    if action_index + 1 >= actions.len() {
        return None;
    }
    let start = action_index + 1;
    if !actions[start].condition().is_linked() {
        return None;
    }
    let mut end = start + 1;
    while end < actions.len()
        invariant
            start < end <= actions@.len(),
            start == action_index + 1,
            linked_run_end(actions@, end as int) == linked_run_end(actions@, start as int),
        ensures
            start < end <= actions@.len(),
            linked_run_end(actions@, end as int) == linked_run_end(actions@, start as int),
            end == actions@.len() || !is_linked_at(actions@, end as int),
        decreases actions@.len() - end,
    {
        if !actions[end].condition().is_linked() {
            break;
        }
        end += 1;
    }
    Some(Range { start, end })
}

/// The last index of `s[..n]` whose condition has the kind of `condition`.
pub open spec fn last_matching(s: Seq<Action>, condition: ActionCondition, n: int) -> Option<int>
    decreases n,
{
    if n <= 0 {
        None
    } else if same_condition_kind(condition_of(s[n - 1]), condition) {
        Some(n - 1)
    } else {
        last_matching(s, condition, n - 1)
    }
}

/// The last index of the group headed by the last action of `condition`'s kind.
pub open spec fn last_linked_index(s: Seq<Action>, condition: ActionCondition) -> Option<int> {
    match last_matching(s, condition, s.len() as int) {
        None => None,
        Some(i) => Some(group_end(s, i) - 1),
    }
}

proof fn lemma_last_matching_bounds(s: Seq<Action>, condition: ActionCondition, n: int)
    ensures
        last_matching(s, condition, n) matches Some(i) ==> 0 <= i < n,
    decreases n,
{
    if n > 0 {
        lemma_last_matching_bounds(s, condition, n - 1);
    }
}

/// Finds the last index of the group whose head is the last action of
/// `condition`'s kind.
pub fn find_last_linked_action_index(actions: &[Action], condition: ActionCondition) -> (r: Option<
    usize,
>)
    ensures
        match r {
            None => last_linked_index(actions@, condition) is None,
            Some(i) => last_linked_index(actions@, condition) == Some(i as int),
        },
{
    let mut n = actions.len();
    while n > 0
        invariant
            n <= actions@.len(),
            last_matching(actions@, condition, actions@.len() as int) == last_matching(
                actions@,
                condition,
                n as int,
            ),
        ensures
            n > 0 ==> same_condition_kind(condition_of(actions@[n - 1]), condition),
            last_matching(actions@, condition, actions@.len() as int) == last_matching(
                actions@,
                condition,
                n as int,
            ),
        decreases n,
    {
        if actions[n - 1].condition().same_kind(&condition) {
            break;
        }
        n -= 1;
    }
    if n == 0 {
        return None;
    }
    let mut last_index = n - 1;
    proof {
        lemma_linked_run_end(actions@, last_index + 1);
    }
    if let Some(range) = find_linked_action_range(actions, last_index) {
        last_index += range.end - range.start;
    }
    Some(last_index)
}

/// The actions of `s[i..]` that the list of `condition`'s kind shows, each
/// with its index in `s`: every group whose head has that kind.
pub open spec fn filtered_from(s: Seq<Action>, condition: ActionCondition, i: int) -> Seq<
    (Action, usize),
>
    decreases s.len() - i,
{
    if i < 0 || i >= s.len() {
        Seq::empty()
    } else if !same_condition_kind(condition_of(s[i]), condition) {
        filtered_from(s, condition, i + 1)
    } else {
        let end = group_end(s, i);
        if end <= i || end > s.len() {
            Seq::empty()
        } else {
            Seq::new((end - i) as nat, |k: int| (s[i + k], (i + k) as usize)) + filtered_from(
                s,
                condition,
                end,
            )
        }
    }
}

/// The actions that the list of `condition`'s kind shows.
pub open spec fn filtered(s: Seq<Action>, condition: ActionCondition) -> Seq<(Action, usize)> {
    filtered_from(s, condition, 0)
}

/// Filters `actions` to the actions whose condition has the kind of
/// `condition`, each with the linked actions that follow it. Each action comes
/// with its index in `actions`.
pub fn filter_actions(actions: Vec<Action>, condition: ActionCondition) -> (r: Vec<(Action, usize)>)
    ensures
        r@ == filtered(actions@, condition),
{
    let mut filtered_vec: Vec<(Action, usize)> = Vec::new();
    let mut i: usize = 0;
    while i < actions.len()
        invariant
            i <= actions@.len(),
            filtered_vec@ + filtered_from(actions@, condition, i as int) == filtered(
                actions@,
                condition,
            ),
        decreases actions@.len() - i,
    {
        let action = actions[i];
        if !action.condition().same_kind(&condition) {
            i += 1;
            continue;
        }
        proof {
            lemma_linked_run_end(actions@, i + 1);
        }
        let ghost before = filtered_vec@;
        let ghost end = group_end(actions@, i as int);
        filtered_vec.push((action, i));
        let mut j = i + 1;
        if let Some(range) = find_linked_action_range(&actions, i) {
            j = range.start;
            while j < range.end
                invariant
                    i < j <= range.end,
                    range.end as int == end,
                    end <= actions@.len(),
                    filtered_vec@ == before + Seq::new(
                        (j - i) as nat,
                        |k: int| (actions@[i + k], (i + k) as usize),
                    ),
                decreases range.end - j,
            {
                filtered_vec.push((actions[j], j));
                proof {
                    assert(filtered_vec@ =~= before + Seq::new(
                        (j + 1 - i) as nat,
                        |k: int| (actions@[i + k], (i + k) as usize),
                    ));
                }
                j += 1;
            }
        } else {
            proof {
                assert(filtered_vec@ =~= before + Seq::new(
                    (j - i) as nat,
                    |k: int| (actions@[i + k], (i + k) as usize),
                ));
            }
        }
        proof {
            assert(j == end);
            assert(filtered_from(actions@, condition, i as int) == Seq::new(
                (end - i) as nat,
                |k: int| (actions@[i + k], (i + k) as usize),
            ) + filtered_from(actions@, condition, end));
            assert(filtered_vec@ + filtered_from(actions@, condition, j as int) =~= before
                + filtered_from(actions@, condition, i as int));
        }
        i = j;
    }
    filtered_vec
}

proof fn lemma_filtered_from_entries(s: Seq<Action>, condition: ActionCondition, i: int)
    requires
        0 <= i,
        s.len() <= usize::MAX,
    ensures
        forall|j: int|
            0 <= j < filtered_from(s, condition, i).len() ==> {
                let (a, k) = #[trigger] filtered_from(s, condition, i)[j];
                &&& i <= k < s.len()
                &&& a == s[k as int]
            },
        forall|j1: int, j2: int|
            0 <= j1 < j2 < filtered_from(s, condition, i).len() ==> (#[trigger] filtered_from(
                s,
                condition,
                i,
            )[j1]).1 < (#[trigger] filtered_from(s, condition, i)[j2]).1,
    decreases s.len() - i,
{
    if i >= s.len() {
    } else if !same_condition_kind(condition_of(s[i]), condition) {
        lemma_filtered_from_entries(s, condition, i + 1);
    } else {
        let end = group_end(s, i);
        lemma_linked_run_end(s, i + 1);
        if end <= i || end > s.len() {
        } else {
            lemma_filtered_from_entries(s, condition, end);
            let head = Seq::new((end - i) as nat, |k: int| (s[i + k], (i + k) as usize));
            let rest = filtered_from(s, condition, end);
            let all = filtered_from(s, condition, i);
            assert(all == head + rest);
            assert forall|j: int| 0 <= j < all.len() implies {
                let (a, k) = #[trigger] all[j];
                &&& i <= k < s.len()
                &&& a == s[k as int]
            } by {
                if j < head.len() {
                    assert(all[j] == head[j]);
                } else {
                    assert(all[j] == rest[j - head.len()]);
                }
            }
            assert forall|j1: int, j2: int| 0 <= j1 < j2 < all.len() implies (#[trigger] all[j1]).1
                < (#[trigger] all[j2]).1 by {
                if j2 < head.len() {
                    assert(all[j1] == head[j1]);
                    assert(all[j2] == head[j2]);
                } else if j1 < head.len() {
                    assert(all[j1] == head[j1]);
                    assert(all[j2] == rest[j2 - head.len()]);
                } else {
                    assert(all[j1] == rest[j1 - head.len()]);
                    assert(all[j2] == rest[j2 - head.len()]);
                }
            }
        }
    }
}

/// Each entry of `filter_actions` is the action at its index in the list, and
/// the indices strictly increase: the filtered list keeps the list's order.
pub proof fn filter_actions_keeps_order(s: Seq<Action>, condition: ActionCondition)
    requires
        s.len() <= usize::MAX,
    ensures
        forall|j: int|
            0 <= j < filtered(s, condition).len() ==> {
                let (a, k) = #[trigger] filtered(s, condition)[j];
                &&& k < s.len()
                &&& a == s[k as int]
            },
        forall|j1: int, j2: int|
            0 <= j1 < j2 < filtered(s, condition).len() ==> (#[trigger] filtered(
                s,
                condition,
            )[j1]).1 < (#[trigger] filtered(s, condition)[j2]).1,
{
    lemma_filtered_from_entries(s, condition, 0);
}

/// The index in the whole list at which an item dropped at `index` of a
/// filtered list goes.
pub open spec fn insert_index_global(filtered: Seq<(Action, usize)>, index: int) -> int {
    if index == 0 {
        if filtered.len() > 0 {
            filtered[0].1 as int
        } else {
            0
        }
    } else if index < filtered.len() {
        filtered[index].1 as int
    } else if filtered.len() > 0 {
        filtered.last().1 + 1
    } else {
        0
    }
}

/// Maps an insert position in a filtered list to the position in the whole list.
pub fn map_insert_index_local_to_global(filtered: Vec<(Action, usize)>, index: usize) -> (r: usize)
    requires
        index <= filtered@.len(),
        filtered@.len() > 0 ==> filtered@.last().1 < usize::MAX,
    ensures
        r == insert_index_global(filtered@, index as int),
{
    if index == 0 {
        if filtered.len() > 0 {
            filtered[0].1
        } else {
            0
        }
    } else if index < filtered.len() {
        filtered[index].1
    } else if filtered.len() > 0 {
        filtered[filtered.len() - 1].1 + 1
    } else {
        0
    }
}

/// Makes a platform at least one unit wide.
pub fn update_valid_platform_end(platform: &mut Platform)
    requires
        old(platform).x_end > old(platform).x_start || old(platform).x_start < i32::MAX,
    ensures
        final(platform).x_start == old(platform).x_start,
        final(platform).y == old(platform).y,
        final(platform).x_end == if old(platform).x_end <= old(platform).x_start {
            old(platform).x_start + 1
        } else {
            old(platform).x_end as int
        },
{
    platform.x_end = if platform.x_end <= platform.x_start {
        platform.x_start + 1
    } else {
        platform.x_end
    };
}

/// The groups of `s[i..]` that have a head: a linked action with no head before it is dropped.
pub open spec fn sanitized_from(s: Seq<Action>, i: int) -> Seq<Action>
    decreases s.len() - i,
{
    if i < 0 || i >= s.len() {
        Seq::empty()
    } else if is_linked_at(s, i) {
        sanitized_from(s, i + 1)
    } else {
        let end = group_end(s, i);
        if end <= i || end > s.len() {
            Seq::empty()
        } else {
            s.subrange(i, end) + sanitized_from(s, end)
        }
    }
}

/// Appends the well-formed groups of `imported` to `actions`.
pub fn import_actions(actions: Vec<Action>, imported: &[Action]) -> (r: Vec<Action>)
    ensures
        r@ == actions@ + sanitized_from(imported@, 0),
{
    let mut actions = actions;
    let ghost start = actions@;
    let mut i: usize = 0;
    while i < imported.len()
        invariant
            i <= imported@.len(),
            actions@ + sanitized_from(imported@, i as int) == start + sanitized_from(
                imported@,
                0,
            ),
        decreases imported@.len() - i,
    {
        let action = imported[i];
        if action.condition().is_linked() {
            i += 1;
            continue;
        }
        proof {
            lemma_linked_run_end(imported@, i + 1);
        }
        let ghost before = actions@;
        let ghost end = group_end(imported@, i as int);
        actions.push(action);
        let mut j = i + 1;
        if let Some(range) = find_linked_action_range(imported, i) {
            j = range.start;
            while j < range.end
                invariant
                    i < j <= range.end,
                    range.end as int == end,
                    end <= imported@.len(),
                    actions@ == before + imported@.subrange(i as int, j as int),
                decreases range.end - j,
            {
                actions.push(imported[j]);
                proof {
                    assert(actions@ =~= before + imported@.subrange(i as int, j + 1));
                }
                j += 1;
            }
        } else {
            proof {
                assert(actions@ =~= before + imported@.subrange(i as int, j as int));
            }
        }
        proof {
            assert(j == end);
            assert(actions@ + sanitized_from(imported@, j as int) =~= before + sanitized_from(
                imported@,
                i as int,
            ));
        }
        i = j;
    }
    actions
}

/// An import never brings in a linked action without the action it is linked to.
pub proof fn import_starts_with_a_head(s: Seq<Action>, i: int)
    requires
        0 <= i,
        sanitized_from(s, i).len() > 0,
    ensures
        !(condition_of(sanitized_from(s, i)[0]) is Linked),
    decreases s.len() - i,
{
    if i >= s.len() {
    } else if is_linked_at(s, i) {
        import_starts_with_a_head(s, i + 1);
    } else {
        let end = group_end(s, i);
        if end <= i || end > s.len() {
        } else {
            assert(sanitized_from(s, i)[0] == s[i]);
        }
    }
}

/// Where a new action goes: a linked action joins the last group of its list,
/// any other action goes to the end.
pub open spec fn add_index(s: Seq<Action>, action: Action, condition: ActionCondition) -> int {
    if condition_of(action) is Linked {
        match last_linked_index(s, condition) {
            Some(i) => i + 1,
            None => s.len() as int,
        }
    } else {
        s.len() as int
    }
}

/// Adds `action` to the list shown for `condition`'s kind.
pub fn add_action(actions: Vec<Action>, action: Action, condition: ActionCondition) -> (r: Vec<
    Action,
>)
    ensures
        0 <= add_index(actions@, action, condition) <= actions@.len(),
        r@ == actions@.insert(add_index(actions@, action, condition), action),
{
    let mut actions = actions;
    proof {
        lemma_last_matching_bounds(actions@, condition, actions@.len() as int);
        if let Some(i) = last_matching(actions@, condition, actions@.len() as int) {
            lemma_linked_run_end(actions@, i + 1);
        }
    }
    let index = if action.condition().is_linked() {
        match find_last_linked_action_index(&actions, condition) {
            Some(index) => {
                assert(index < actions.len());
                index + 1
            },
            None => actions.len(),
        }
    } else {
        actions.len()
    };
    actions.insert(index, action);
    actions
}

/// Replaces the action at `index`, or gives `None` where there is none.
pub fn edit_action(actions: Vec<Action>, new_action: Action, index: usize) -> (r: Option<
    Vec<Action>,
>)
    ensures
        match r {
            None => index >= actions@.len(),
            Some(v) => index < actions@.len() && v@ == actions@.update(index as int, new_action),
        },
{
    let mut actions = actions;
    let ghost old_actions = actions@;
    if index >= actions.len() {
        return None;
    }
    actions.set(index, new_action);
    assert(actions@ == old_actions.update(index as int, new_action));
    Some(actions)
}

/// The list after deleting the action at `i`: when it heads a group, the
/// next action takes its condition and heads the group in its place.
pub open spec fn deleted(s: Seq<Action>, i: int) -> Seq<Action> {
    let promoted = if !is_linked_at(s, i) && i + 1 < s.len() && is_linked_at(s, i + 1) {
        s.update(i + 1, with_condition_spec(s[i + 1], condition_of(s[i])))
    } else {
        s
    };
    promoted.remove(i)
}

/// Deletes the action at `index`, or gives `None` where there is none.
pub fn delete_action(actions: Vec<Action>, index: usize) -> (r: Option<Vec<Action>>)
    ensures
        match r {
            None => index >= actions@.len(),
            Some(v) => index < actions@.len() && v@ == deleted(actions@, index as int),
        },
{
    let mut actions = actions;
    if index >= actions.len() {
        return None;
    }
    let condition = actions[index].condition();
    proof {
        lemma_linked_run_end(actions@, index + 1);
        lemma_linked_run_end(actions@, index + 2);
    }
    if !condition.is_linked() && find_linked_action_range(&actions, index).is_some() {
        let next = actions[index + 1].with_condition(condition);
        actions.set(index + 1, next);
    }
    actions.remove(index);
    Some(actions)
}

/// Deleting the head of a group leaves the rest of the group headed by its
/// next action, which takes the deleted action's condition.
pub proof fn delete_keeps_groups_headed(s: Seq<Action>, i: int)
    requires
        0 <= i,
        i + 1 < s.len(),
        !is_linked_at(s, i),
        is_linked_at(s, i + 1),
    ensures
        deleted(s, i).len() == s.len() - 1,
        condition_of(deleted(s, i)[i]) == condition_of(s[i]),
        forall|k: int| 0 <= k < i ==> deleted(s, i)[k] == s[k],
        forall|k: int| i + 1 <= k < s.len() - 1 ==> deleted(s, i)[k] == s[k + 1],
{
}

/// The list after moving the action at `from` of the list for `from_condition`
/// to the position `to` (`to_local` in the list for `to_condition`).
pub open spec fn moved(
    s: Seq<Action>,
    from: int,
    from_condition: ActionCondition,
    to_local: int,
    to: int,
    to_condition: ActionCondition,
) -> Seq<Action> {
    let action = s[from];
    let rest = s.remove(from);
    let insert = if from_condition == to_condition || from >= to {
        to
    } else {
        to - 1
    };
    let insert = if insert < rest.len() {
        insert
    } else {
        rest.len() as int
    };
    let action = if from_condition != to_condition || to_local == 0 {
        with_condition_spec(action, to_condition)
    } else {
        action
    };
    rest.insert(insert, action)
}

/// Moves an action between or within the lists of the action list.
pub fn move_action(
    actions: Vec<Action>,
    from_index: usize,
    from_condition: ActionCondition,
    to_index_local: usize,
    to_index: usize,
    to_condition: ActionCondition,
) -> (r: Vec<Action>)
    requires
        from_index < actions@.len(),
    ensures
        r@ == moved(
            actions@,
            from_index as int,
            from_condition,
            to_index_local as int,
            to_index as int,
            to_condition,
        ),
{
    let mut actions = actions;
    let action = actions.remove(from_index);
    let insert_index = if from_condition == to_condition || from_index >= to_index {
        to_index
    } else {
        to_index - 1
    };
    let insert_index = if insert_index < actions.len() {
        insert_index
    } else {
        actions.len()
    };
    let action = if from_condition != to_condition || to_index_local == 0 {
        action.with_condition(to_condition)
    } else {
        action
    };
    actions.insert(insert_index, action);
    actions
}

/// Moving an action to where it already is, within its own list and not to
/// the top of it, leaves the list as it was.
pub proof fn move_in_place_is_identity(
    s: Seq<Action>,
    from: int,
    condition: ActionCondition,
    to_local: int,
)
    requires
        0 <= from < s.len(),
        to_local != 0,
    ensures
        moved(s, from, condition, to_local, from, condition) == s,
{
    assert(moved(s, from, condition, to_local, from, condition) =~= s);
}

/// Where a move puts the dragged action: within one list at `to`, across
/// lists at `to` less one when the action came from above, and never past the
/// end.
pub open spec fn landing_index(
    len: int,
    from: int,
    from_condition: ActionCondition,
    to: int,
    to_condition: ActionCondition,
) -> int {
    let wanted = if from_condition != to_condition && from < to {
        to - 1
    } else {
        to
    };
    if wanted < len - 1 {
        wanted
    } else {
        len - 1
    }
}

/// A move takes the dragged action out and puts it back at its landing index,
/// leaving every other action in its order: the result holds the dragged
/// action at that index, with the target list's condition when it changes list
/// or goes to the top of its list, and taking it out again gives the list
/// without it. Within one list the landing index is `to` itself (or the last
/// place), so dragging the first of three actions to the bottom puts it last.
pub proof fn move_puts_the_action_at_its_landing_index(
    s: Seq<Action>,
    from: int,
    from_condition: ActionCondition,
    to_local: int,
    to: int,
    to_condition: ActionCondition,
)
    requires
        0 <= from < s.len(),
        0 <= to,
    ensures
        ({
            let r = moved(s, from, from_condition, to_local, to, to_condition);
            let at = landing_index(s.len() as int, from, from_condition, to, to_condition);
            &&& 0 <= at < r.len()
            &&& r[at] == if from_condition != to_condition || to_local == 0 {
                with_condition_spec(s[from], to_condition)
            } else {
                s[from]
            }
            &&& r.remove(at) == s.remove(from)
        }),
        from_condition == to_condition ==> landing_index(
            s.len() as int,
            from,
            from_condition,
            to,
            to_condition,
        ) == if to < s.len() - 1 {
            to
        } else {
            s.len() - 1
        },
{
    let r = moved(s, from, from_condition, to_local, to, to_condition);
    let at = landing_index(s.len() as int, from, from_condition, to, to_condition);
    let rest = s.remove(from);
    let action = if from_condition != to_condition || to_local == 0 {
        with_condition_spec(s[from], to_condition)
    } else {
        s[from]
    };
    assert(r == rest.insert(at, action));
    assert(r.remove(at) =~= rest);
}

/// A move keeps the number of actions.
pub proof fn move_keeps_length(
    s: Seq<Action>,
    from: int,
    from_condition: ActionCondition,
    to_local: int,
    to: int,
    to_condition: ActionCondition,
)
    requires
        0 <= from < s.len(),
        0 <= to,
    ensures
        moved(s, from, from_condition, to_local, to, to_condition).len() == s.len(),
{
}

} // verus!
