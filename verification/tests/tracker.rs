use komari::tracker::{
    keep_lost_track, partition_assignment, plan_frame, FramePlan, NextTrack, TrackMeta, TrackState,
};

#[test]
fn assignment_splits_into_matches_and_leftovers() {
    // Three tracks, two detections; the solver's square matrix gave track 2
    // the padding column 2.
    let assignment = vec![1, 0, 2];
    let accept = vec![vec![false, true], vec![false, false], vec![true, true]];

    let (matches, unmatched_tracks, unmatched_detections) =
        partition_assignment(3, 2, &assignment, &accept);

    assert_eq!(matches, vec![(0, 1)]);
    assert_eq!(unmatched_tracks, vec![1, 2]);
    assert_eq!(unmatched_detections, vec![0]);
}

#[test]
fn every_track_is_unmatched_without_detections() {
    let (matches, unmatched_tracks, unmatched_detections) =
        partition_assignment(3, 0, &vec![0, 0, 0], &vec![vec![], vec![], vec![]]);
    assert!(matches.is_empty());
    assert_eq!(unmatched_tracks, vec![0, 1, 2]);
    assert!(unmatched_detections.is_empty());

    let (matches, unmatched_tracks, unmatched_detections) =
        partition_assignment(0, 4, &vec![], &vec![]);
    assert!(matches.is_empty());
    assert!(unmatched_tracks.is_empty());
    assert!(unmatched_detections.is_empty());
}

#[test]
fn every_track_and_detection_is_accounted_for() {
    let assignment = vec![2, 0, 1, 3];
    let accept = vec![
        vec![true, true, true],
        vec![true, false, false],
        vec![false, false, false],
        vec![true, true, true],
    ];
    let (matches, unmatched_tracks, unmatched_detections) =
        partition_assignment(4, 3, &assignment, &accept);
    assert_eq!(matches, vec![(0, 2), (1, 0)]);
    assert_eq!(unmatched_tracks, vec![2, 3]);
    assert_eq!(unmatched_detections, vec![1]);
    assert_eq!(matches.len() + unmatched_tracks.len(), 4);
    assert_eq!(matches.len() + unmatched_detections.len(), 3);
}

#[test]
fn track_life_cycle() {
    let mut track = TrackMeta::new();
    assert_eq!(track.state, TrackState::Lost);
    track.activate(7, 1);
    assert_eq!(
        track,
        TrackMeta {
            track_id: 7,
            tracklet_len: 0,
            frame_id: 1,
            state: TrackState::Active
        }
    );
    track.update(2);
    track.update(3);
    assert_eq!(track.tracklet_len, 2);
    track.mark_lost();
    assert_eq!(track.state, TrackState::Lost);
    assert_eq!(track.frame_id, 3);
    track.reactivate(9);
    assert_eq!(
        track,
        TrackMeta {
            track_id: 7,
            tracklet_len: 0,
            frame_id: 9,
            state: TrackState::Active
        }
    );
}

#[test]
fn lost_tracks_expire() {
    assert!(keep_lost_track(40, 10, 30));
    assert!(!keep_lost_track(41, 10, 30));
    assert!(keep_lost_track(10, 10, 0));
}

#[test]
fn first_frame_starts_a_track_per_detection() {
    let plan = plan_frame(&vec![], &vec![], 2, &vec![], &vec![], &vec![], 1, 30);
    assert_eq!(
        plan,
        FramePlan {
            next_tracks: vec![
                NextTrack::New { detection: 0 },
                NextTrack::New { detection: 1 }
            ],
            lost: vec![],
        }
    );
}

#[test]
fn next_frame_orders_updates_new_tracks_and_reactivations() {
    let states = vec![
        TrackState::Lost,
        TrackState::Active,
        TrackState::Active,
        TrackState::Lost,
    ];
    let frame_ids = vec![5, 49, 49, 10];
    let plan = plan_frame(
        &states,
        &frame_ids,
        3,
        &vec![(0, 2), (1, 0)],
        &vec![2, 3],
        &vec![1],
        50,
        30,
    );
    assert_eq!(
        plan.next_tracks,
        vec![
            NextTrack::Update {
                track: 1,
                detection: 0
            },
            NextTrack::New { detection: 1 },
            NextTrack::Reactivate {
                track: 0,
                detection: 2
            },
        ]
    );
    // Track 3 last matched 40 frames ago, longer than 30: it is dropped.
    assert_eq!(plan.lost, vec![2]);
}
