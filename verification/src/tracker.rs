//! The bookkeeping of multi-object tracking: which tracks matched which
//! detections, and how a track's state, age and length change. The motion
//! model and the matching costs are floating-point and live with the caller.

use vstd::prelude::*;

verus! {

/// Whether a track was matched in its last frame.
#[derive(Clone, Copy, Debug, PartialEq, Eq, Structural)]
pub enum TrackState {
    Active,
    Lost,
}

/// The integer state of a track.
#[derive(Clone, Copy, Debug, PartialEq, Eq, Structural)]
pub struct TrackMeta {
    pub track_id: u64,
    pub tracklet_len: usize,
    pub frame_id: u64,
    pub state: TrackState,
}

impl TrackMeta {
    /// A track made from a detection, not yet activated.
    pub fn new() -> (t: Self)
        ensures
            t == (TrackMeta { track_id: 0, tracklet_len: 0, frame_id: 0, state: TrackState::Lost }),
    {
        TrackMeta { track_id: 0, tracklet_len: 0, frame_id: 0, state: TrackState::Lost }
    }

    /// Starts tracking under the new id `track_id` at `frame_id`.
    pub fn activate(&mut self, track_id: u64, frame_id: u64)
        ensures
            *final(self) == (TrackMeta {
                track_id,
                tracklet_len: 0,
                frame_id,
                state: TrackState::Active,
            }),
    {
        self.track_id = track_id;
        self.tracklet_len = 0;
        self.frame_id = frame_id;
        self.state = TrackState::Active;
    }

    /// Records a match at `frame_id`.
    pub fn update(&mut self, frame_id: u64)
        requires
            old(self).tracklet_len < usize::MAX,
        ensures
            *final(self) == (TrackMeta {
                track_id: old(self).track_id,
                tracklet_len: (old(self).tracklet_len + 1) as usize,
                frame_id,
                state: TrackState::Active,
            }),
    {
        self.frame_id = frame_id;
        self.tracklet_len = self.tracklet_len + 1;
        self.state = TrackState::Active;
    }

    /// Records a match at `frame_id` of a track that was lost: it keeps its
    /// id and starts a new tracklet.
    pub fn reactivate(&mut self, frame_id: u64)
        requires
            old(self).tracklet_len < usize::MAX,
        ensures
            *final(self) == (TrackMeta {
                track_id: old(self).track_id,
                tracklet_len: 0,
                frame_id,
                state: TrackState::Active,
            }),
    {
        self.update(frame_id);
        self.tracklet_len = 0;
    }

    /// Marks the track lost.
    pub fn mark_lost(&mut self)
        ensures
            *final(self) == (TrackMeta { state: TrackState::Lost, ..*old(self) }),
    {
        self.state = TrackState::Lost;
    }
}

/// Whether a lost track last matched at `track_frame_id` is kept at `frame_id`.
pub fn keep_lost_track(frame_id: u64, track_frame_id: u64, max_time_lost: u64) -> (b: bool)
    requires
        track_frame_id <= frame_id,
    ensures
        b == (frame_id - track_frame_id <= max_time_lost),
{
    frame_id - track_frame_id <= max_time_lost
}

/// Whether row `i` of the assignment is a match: its column is a real
/// detection and the cost of the pair is within the threshold.
pub open spec fn is_match(assignment: Seq<usize>, accept: Seq<Seq<bool>>, m: int, i: int) -> bool {
    assignment[i] < m && accept[i][assignment[i] as int]
}

/// The matched pairs among the first `n` rows.
pub open spec fn matches_upto(assignment: Seq<usize>, accept: Seq<Seq<bool>>, m: int, n: int) -> Seq<
    (usize, usize),
>
    decreases n,
{
    if n <= 0 {
        Seq::empty()
    } else if is_match(assignment, accept, m, n - 1) {
        matches_upto(assignment, accept, m, n - 1).push(((n - 1) as usize, assignment[n - 1]))
    } else {
        matches_upto(assignment, accept, m, n - 1)
    }
}

/// The unmatched rows among the first `n` rows.
pub open spec fn unmatched_rows_upto(
    assignment: Seq<usize>,
    accept: Seq<Seq<bool>>,
    m: int,
    n: int,
) -> Seq<usize>
    decreases n,
{
    if n <= 0 {
        Seq::empty()
    } else if is_match(assignment, accept, m, n - 1) {
        unmatched_rows_upto(assignment, accept, m, n - 1)
    } else {
        unmatched_rows_upto(assignment, accept, m, n - 1).push((n - 1) as usize)
    }
}

/// Whether column `j` is matched by one of the first `n` rows.
pub open spec fn column_matched(
    assignment: Seq<usize>,
    accept: Seq<Seq<bool>>,
    m: int,
    n: int,
    j: int,
) -> bool {
    exists|i: int| 0 <= i < n && is_match(assignment, accept, m, i) && assignment[i] == j
}

/// The columns among the first `k` that no row matched.
pub open spec fn unmatched_columns_upto(
    assignment: Seq<usize>,
    accept: Seq<Seq<bool>>,
    m: int,
    n: int,
    k: int,
) -> Seq<usize>
    decreases k,
{
    if k <= 0 {
        Seq::empty()
    } else if column_matched(assignment, accept, m, n, k - 1) {
        unmatched_columns_upto(assignment, accept, m, n, k - 1)
    } else {
        unmatched_columns_upto(assignment, accept, m, n, k - 1).push((k - 1) as usize)
    }
}

/// Splits an assignment of `n` tracks to `m` detections into the matched
/// pairs, the unmatched tracks and the unmatched detections. `assignment[i]`
/// is the column that the solver gave track `i`; `accept[i][j]` tells whether
/// the cost of track `i` and detection `j` is within the threshold. With no
/// tracks or no detections every track is unmatched and no detection is.
pub fn partition_assignment(
    n: usize,
    m: usize,
    assignment: &Vec<usize>,
    accept: &Vec<Vec<bool>>,
) -> (r: (Vec<(usize, usize)>, Vec<usize>, Vec<usize>))
    requires
        assignment@.len() >= n,
        accept@.len() == n,
        forall|i: int| 0 <= i < n ==> (#[trigger] accept@[i])@.len() == m,
    ensures
        n == 0 || m == 0 ==> {
            &&& r.0@.len() == 0
            &&& r.1@ == Seq::new(n as nat, |i: int| i as usize)
            &&& r.2@.len() == 0
        },
        n > 0 && m > 0 ==> {
            let acc = accept@.map_values(|row: Vec<bool>| row@);
            &&& r.0@ == matches_upto(assignment@, acc, m as int, n as int)
            &&& r.1@ == unmatched_rows_upto(assignment@, acc, m as int, n as int)
            &&& r.2@ == unmatched_columns_upto(assignment@, acc, m as int, n as int, m as int)
        },
{
    if n == 0 || m == 0 {
        let mut rows: Vec<usize> = Vec::new();
        let mut i: usize = 0;
        while i < n
            invariant
                i <= n,
                rows@ == Seq::new(i as nat, |k: int| k as usize),
            decreases n - i,
        {
            rows.push(i);
            proof {
                assert(rows@ =~= Seq::new((i + 1) as nat, |k: int| k as usize));
            }
            i += 1;
        }
        return (Vec::new(), rows, Vec::new());
    }
    let ghost acc = accept@.map_values(|row: Vec<bool>| row@);
    let mut matches: Vec<(usize, usize)> = Vec::new();
    let mut unmatched_a: Vec<usize> = Vec::new();
    let mut unmatched_b: Vec<bool> = Vec::new();
    let mut j: usize = 0;
    while j < m
        invariant
            j <= m,
            unmatched_b@ == Seq::new(j as nat, |k: int| true),
        decreases m - j,
    {
        unmatched_b.push(true);
        proof {
            assert(unmatched_b@ =~= Seq::new((j + 1) as nat, |k: int| true));
        }
        j += 1;
    }
    let mut i: usize = 0;
    while i < n
        invariant
            i <= n,
            n > 0,
            m > 0,
            assignment@.len() >= n,
            accept@.len() == n,
            forall|k: int| 0 <= k < n ==> (#[trigger] accept@[k])@.len() == m,
            acc == accept@.map_values(|row: Vec<bool>| row@),
            unmatched_b@.len() == m,
            matches@ == matches_upto(assignment@, acc, m as int, i as int),
            unmatched_a@ == unmatched_rows_upto(assignment@, acc, m as int, i as int),
            forall|c: int|
                0 <= c < m ==> #[trigger] unmatched_b@[c] == !column_matched(
                    assignment@,
                    acc,
                    m as int,
                    i as int,
                    c,
                ),
        decreases n - i,
    {
        let col = assignment[i];
        assert(acc[i as int] == accept@[i as int]@);
        if col < m && accept[i][col] {
            matches.push((i, col));
            unmatched_b.set(col, false);
            proof {
                assert(is_match(assignment@, acc, m as int, i as int));
                assert forall|c: int| 0 <= c < m implies #[trigger] unmatched_b@[c]
                    == !column_matched(assignment@, acc, m as int, i + 1, c) by {
                    if c == col {
                        assert(column_matched(assignment@, acc, m as int, i + 1, c));
                    } else {
                        if column_matched(assignment@, acc, m as int, i + 1, c) {
                            let w = choose|w: int|
                                0 <= w < i + 1 && is_match(assignment@, acc, m as int, w)
                                    && assignment@[w] == c;
                            assert(w != i);
                            assert(column_matched(assignment@, acc, m as int, i as int, c));
                        }
                    }
                }
            }
        } else {
            unmatched_a.push(i);
            proof {
                assert(!is_match(assignment@, acc, m as int, i as int));
                assert forall|c: int| 0 <= c < m implies #[trigger] unmatched_b@[c]
                    == !column_matched(assignment@, acc, m as int, i + 1, c) by {
                    if column_matched(assignment@, acc, m as int, i + 1, c) {
                        let w = choose|w: int|
                            0 <= w < i + 1 && is_match(assignment@, acc, m as int, w)
                                && assignment@[w] == c;
                        assert(w != i);
                        assert(column_matched(assignment@, acc, m as int, i as int, c));
                    }
                }
            }
        }
        i += 1;
    }
    let mut unmatched_cols: Vec<usize> = Vec::new();
    let mut c: usize = 0;
    while c < m
        invariant
            c <= m,
            unmatched_b@.len() == m,
            forall|k: int|
                0 <= k < m ==> #[trigger] unmatched_b@[k] == !column_matched(
                    assignment@,
                    acc,
                    m as int,
                    n as int,
                    k,
                ),
            unmatched_cols@ == unmatched_columns_upto(assignment@, acc, m as int, n as int, c as int),
        decreases m - c,
    {
        if unmatched_b[c] {
            unmatched_cols.push(c);
        }
        c += 1;
    }
    (matches, unmatched_a, unmatched_cols)
}

/// Every track is either matched or unmatched, never both: the matched pairs
/// and the unmatched tracks together account for each of the `n` tracks once.
pub proof fn assignment_accounts_for_every_track(
    assignment: Seq<usize>,
    accept: Seq<Seq<bool>>,
    m: int,
    n: int,
)
    requires
        0 <= n,
    ensures
        matches_upto(assignment, accept, m, n).len() + unmatched_rows_upto(
            assignment,
            accept,
            m,
            n,
        ).len() == n,
    decreases n,
{
    if n > 0 {
        assignment_accounts_for_every_track(assignment, accept, m, n - 1);
    }
}

/// How a track of the next frame is made.
#[derive(Clone, Copy, Debug, PartialEq, Eq, Structural)]
pub enum NextTrack {
    /// An active track updated with the detection it matched.
    Update { track: usize, detection: usize },
    /// A new track started from an unmatched detection.
    New { detection: usize },
    /// A lost track reactivated with the detection it matched.
    Reactivate { track: usize, detection: usize },
}

/// What a frame does to the tracks: the tracks of the next frame, in order,
/// and the current tracks that are kept as lost.
#[derive(Clone, Debug, PartialEq, Eq)]
pub struct FramePlan {
    pub next_tracks: Vec<NextTrack>,
    pub lost: Vec<usize>,
}

/// The steps for the first `k` matched pairs whose track was in `state`:
/// updates for active tracks, reactivations for lost ones.
pub open spec fn match_steps(
    matches: Seq<(usize, usize)>,
    states: Seq<TrackState>,
    state: TrackState,
    k: int,
) -> Seq<NextTrack>
    decreases k,
{
    if k <= 0 {
        Seq::empty()
    } else {
        let (t, d) = matches[k - 1];
        let rest = match_steps(matches, states, state, k - 1);
        if states[t as int] == state {
            rest.push(
                if state == TrackState::Active {
                    NextTrack::Update { track: t, detection: d }
                } else {
                    NextTrack::Reactivate { track: t, detection: d }
                },
            )
        } else {
            rest
        }
    }
}

/// New tracks for the first `k` unmatched detections.
pub open spec fn new_steps(detections: Seq<usize>, k: int) -> Seq<NextTrack>
    decreases k,
{
    if k <= 0 {
        Seq::empty()
    } else {
        new_steps(detections, k - 1).push(NextTrack::New { detection: detections[k - 1] })
    }
}

/// The first `k` unmatched tracks that are kept as lost: those that matched
/// within `max_time_lost` frames of `frame_id`.
pub open spec fn kept_lost(
    tracks: Seq<usize>,
    frame_ids: Seq<u64>,
    frame_id: u64,
    max_time_lost: u64,
    k: int,
) -> Seq<usize>
    decreases k,
{
    if k <= 0 {
        Seq::empty()
    } else {
        let t = tracks[k - 1];
        let rest = kept_lost(tracks, frame_ids, frame_id, max_time_lost, k - 1);
        if frame_id - frame_ids[t as int] <= max_time_lost {
            rest.push(t)
        } else {
            rest
        }
    }
}

/// The plan of a frame with `states.len()` current tracks and `n_detections`
/// detections: with no current tracks every detection starts a track;
/// otherwise the tracks of the next frame are the updated active tracks, the
/// new tracks of the unmatched detections and the reactivated lost tracks, in
/// that order, and the unmatched tracks are kept as lost while recent enough.
pub open spec fn frame_plan(
    states: Seq<TrackState>,
    frame_ids: Seq<u64>,
    n_detections: int,
    matches: Seq<(usize, usize)>,
    unmatched_tracks: Seq<usize>,
    unmatched_detections: Seq<usize>,
    frame_id: u64,
    max_time_lost: u64,
) -> (Seq<NextTrack>, Seq<usize>) {
    if states.len() == 0 {
        (new_steps(Seq::new(n_detections as nat, |i: int| i as usize), n_detections), Seq::empty())
    } else {
        (
            match_steps(matches, states, TrackState::Active, matches.len() as int) + new_steps(
                unmatched_detections,
                unmatched_detections.len() as int,
            ) + match_steps(matches, states, TrackState::Lost, matches.len() as int),
            kept_lost(
                unmatched_tracks,
                frame_ids,
                frame_id,
                max_time_lost,
                unmatched_tracks.len() as int,
            ),
        )
    }
}

fn push_match_steps(
    out: &mut Vec<NextTrack>,
    matches: &Vec<(usize, usize)>,
    states: &Vec<TrackState>,
    state: TrackState,
)
    requires
        forall|k: int| 0 <= k < matches@.len() ==> (#[trigger] matches@[k]).0 < states@.len(),
    ensures
        final(out)@ == old(out)@ + match_steps(matches@, states@, state, matches@.len() as int),
{
    let ghost start = out@;
    let mut k: usize = 0;
    while k < matches.len()
        invariant
            k <= matches@.len(),
            forall|j: int| 0 <= j < matches@.len() ==> (#[trigger] matches@[j]).0 < states@.len(),
            out@ == start + match_steps(matches@, states@, state, k as int),
        decreases matches@.len() - k,
    {
        let (t, d) = matches[k];
        assert(matches@[k as int].0 < states@.len());
        if states[t] == state {
            let step = if state == TrackState::Active {
                NextTrack::Update { track: t, detection: d }
            } else {
                NextTrack::Reactivate { track: t, detection: d }
            };
            out.push(step);
            proof {
                assert(start + match_steps(matches@, states@, state, k + 1) =~= (start
                    + match_steps(matches@, states@, state, k as int)).push(step));
            }
        }
        k += 1;
    }
}

fn push_new_steps(out: &mut Vec<NextTrack>, detections: &Vec<usize>)
    ensures
        final(out)@ == old(out)@ + new_steps(detections@, detections@.len() as int),
{
    let ghost start = out@;
    let mut k: usize = 0;
    while k < detections.len()
        invariant
            k <= detections@.len(),
            out@ == start + new_steps(detections@, k as int),
        decreases detections@.len() - k,
    {
        let step = NextTrack::New { detection: detections[k] };
        out.push(step);
        proof {
            assert(start + new_steps(detections@, k + 1) =~= (start + new_steps(
                detections@,
                k as int,
            )).push(step));
        }
        k += 1;
    }
}

/// Plans a frame of tracking from the current tracks' states and last
/// matched frames, the number of detections and how the tracks and the
/// detections were assigned (see [`partition_assignment`]).
pub fn plan_frame(
    states: &Vec<TrackState>,
    frame_ids: &Vec<u64>,
    n_detections: usize,
    matches: &Vec<(usize, usize)>,
    unmatched_tracks: &Vec<usize>,
    unmatched_detections: &Vec<usize>,
    frame_id: u64,
    max_time_lost: u64,
) -> (p: FramePlan)
    requires
        frame_ids@.len() == states@.len(),
        forall|i: int| 0 <= i < frame_ids@.len() ==> #[trigger] frame_ids@[i] <= frame_id,
        forall|k: int| 0 <= k < matches@.len() ==> (#[trigger] matches@[k]).0 < states@.len(),
        forall|k: int| 0 <= k < unmatched_tracks@.len() ==> #[trigger] unmatched_tracks@[k]
            < states@.len(),
    ensures
        (p.next_tracks@, p.lost@) == frame_plan(
            states@,
            frame_ids@,
            n_detections as int,
            matches@,
            unmatched_tracks@,
            unmatched_detections@,
            frame_id,
            max_time_lost,
        ),
{
    let mut next_tracks: Vec<NextTrack> = Vec::new();
    if states.len() == 0 {
        let mut all: Vec<usize> = Vec::new();
        let mut i: usize = 0;
        while i < n_detections
            invariant
                i <= n_detections,
                all@ == Seq::new(i as nat, |k: int| k as usize),
            decreases n_detections - i,
        {
            all.push(i);
            proof {
                assert(all@ =~= Seq::new((i + 1) as nat, |k: int| k as usize));
            }
            i += 1;
        }
        push_new_steps(&mut next_tracks, &all);
        assert(next_tracks@ =~= new_steps(all@, all@.len() as int));
        return FramePlan { next_tracks, lost: Vec::new() };
    }
    push_match_steps(&mut next_tracks, matches, states, TrackState::Active);
    push_new_steps(&mut next_tracks, unmatched_detections);
    push_match_steps(&mut next_tracks, matches, states, TrackState::Lost);
    assert(next_tracks@ =~= match_steps(
        matches@,
        states@,
        TrackState::Active,
        matches@.len() as int,
    ) + new_steps(unmatched_detections@, unmatched_detections@.len() as int) + match_steps(
        matches@,
        states@,
        TrackState::Lost,
        matches@.len() as int,
    ));
    let mut lost: Vec<usize> = Vec::new();
    let mut k: usize = 0;
    while k < unmatched_tracks.len()
        invariant
            k <= unmatched_tracks@.len(),
            frame_ids@.len() == states@.len(),
            forall|i: int| 0 <= i < frame_ids@.len() ==> #[trigger] frame_ids@[i] <= frame_id,
            forall|j: int| 0 <= j < unmatched_tracks@.len() ==> #[trigger] unmatched_tracks@[j]
                < states@.len(),
            lost@ == kept_lost(unmatched_tracks@, frame_ids@, frame_id, max_time_lost, k as int),
        decreases unmatched_tracks@.len() - k,
    {
        let t = unmatched_tracks[k];
        assert(unmatched_tracks@[k as int] < states@.len());
        if keep_lost_track(frame_id, frame_ids[t], max_time_lost) {
            lost.push(t);
        }
        k += 1;
    }
    FramePlan { next_tracks, lost }
}

/// Each matched track goes on in exactly one way: an active one is updated
/// and a lost one reactivated, so the matched pairs give as many tracks of
/// the next frame as there are pairs.
pub proof fn matched_tracks_go_on_once(
    matches: Seq<(usize, usize)>,
    states: Seq<TrackState>,
    k: int,
)
    requires
        0 <= k,
    ensures
        match_steps(matches, states, TrackState::Active, k).len() + match_steps(
            matches,
            states,
            TrackState::Lost,
            k,
        ).len() == k,
    decreases k,
{
    if k > 0 {
        matched_tracks_go_on_once(matches, states, k - 1);
    }
}

} // verus!
