use komari::debug::{
    DebugService, DebugState, RuneDetection, RECORDING_ID_LEN, SOLVE_RUNE_TIMEOUT_SECS,
};
use komari::keyboard::{map_key, KeyInput};
use komari::keys::KeyBinding;
use komari::utils::{
    decimal_string, duration_from, epoch_millis_as_string, image_file_name_at, DatasetDir,
};

#[test]
fn durations_read_as_a_clock() {
    assert_eq!(duration_from(3725), "01:02:05");
    assert_eq!(duration_from(0), "00:00:00");
    assert_eq!(duration_from(360000), "100:00:00");
    assert_eq!(duration_from(59), "00:00:59");
}

#[test]
fn decimal_numbers() {
    assert_eq!(decimal_string(0), "0");
    assert_eq!(decimal_string(1234567890), "1234567890");
    assert_eq!(decimal_string(u128::MAX), u128::MAX.to_string());
    assert_eq!(image_file_name_at(1700000000123), "1700000000123.png");
}

#[test]
fn epoch_millis_are_digits() {
    let millis = epoch_millis_as_string().unwrap();
    assert!(!millis.is_empty());
    assert!(millis.chars().all(|c| c.is_ascii_digit()));
    assert!(millis.len() >= 13);
}

#[test]
fn dataset_folders_lie_under_the_root() {
    let root = "/data/set";
    assert_eq!(DatasetDir::Root.to_folder(root), root);
    let recordings = DatasetDir::Recordings.to_folder(root);
    assert!(recordings.starts_with(root));
    assert!(recordings.ends_with("recordings"));
    assert_ne!(recordings, format!("{root}recordings"));
    assert_eq!(
        std::path::Path::new(&DatasetDir::Rune.to_folder(root)),
        std::path::Path::new(root).join("rune")
    );
}

#[test]
fn characters_map_by_their_lowercase_form() {
    assert_eq!(
        map_key(KeyInput::Character("A".to_string())),
        Some(KeyBinding::A)
    );
    assert_eq!(
        map_key(KeyInput::Character("q".to_string())),
        Some(KeyBinding::Q)
    );
    assert_eq!(
        map_key(KeyInput::Character("7".to_string())),
        Some(KeyBinding::Seven)
    );
    assert_eq!(
        map_key(KeyInput::Character("`".to_string())),
        Some(KeyBinding::Tilde)
    );
    assert_eq!(map_key(KeyInput::Character("ab".to_string())), None);
    assert_eq!(map_key(KeyInput::Character("!".to_string())), None);
    assert_eq!(map_key(KeyInput::Escape), Some(KeyBinding::Esc));
    assert_eq!(map_key(KeyInput::ArrowDown), Some(KeyBinding::Down));
    assert_eq!(map_key(KeyInput::Other), None);
}

#[test]
fn recording_starts_and_stops() {
    let mut service: DebugService<u32, u64> = DebugService::new();
    assert_eq!(service.recording_id(), None);
    service.record_images(true);
    let id = service.recording_id().unwrap().clone();
    assert_eq!(id.len(), RECORDING_ID_LEN);
    assert!(id.chars().all(|c| c.is_ascii_alphanumeric()));
    assert_eq!(
        service.poll(0, None, true),
        Some(DebugState {
            is_recording: true,
            is_rune_auto_saving: true
        })
    );
    service.record_images(false);
    assert_eq!(service.recording_id(), None);
}

#[test]
fn rune_inference_follows_the_detection() {
    let mut service: DebugService<u32, u64> = DebugService::new();
    service.infer_rune(1, 500);
    assert_eq!(service.rune_inference(), Some((1, 500)));

    assert!(service
        .poll(2, Some(RuneDetection::Calibrating(2)), false)
        .is_some());
    assert_eq!(service.rune_inference(), Some((2, 500)));

    assert!(service.poll(3, None, false).is_some());
    assert_eq!(service.rune_inference(), Some((2, 500)));

    service.poll(4, Some(RuneDetection::Complete), false);
    assert_eq!(service.rune_inference(), None);

    service.infer_rune(1, 600);
    service.poll(5, Some(RuneDetection::Failed), false);
    assert_eq!(service.rune_inference(), None);
}

#[test]
fn rune_inference_times_out() {
    let mut service: DebugService<u32, u64> = DebugService::new();
    service.infer_rune(1, 500);
    assert_eq!(
        service.poll(SOLVE_RUNE_TIMEOUT_SECS, Some(RuneDetection::Calibrating(3)), false),
        None
    );
    assert_eq!(service.rune_inference(), None);
}

#[test]
fn dataset_folders_join_with_one_separator() {
    assert_eq!(DatasetDir::Recordings.to_folder("/data"), "/data/recordings");
    assert_eq!(DatasetDir::Recordings.to_folder("/data/"), "/data/recordings");
    assert_eq!(DatasetDir::Rune.to_folder(""), "rune");
}
