use progress_relay::{PackStage, ProgressNotification, RemoteProgress, RemoteProgressState};

#[test]
fn test_progress_zero_total() {
    let prog = RemoteProgress::new(RemoteProgressState::Pushing, 1, 0);

    assert_eq!(prog.progress, 100);
}

#[test]
fn test_progress_rounding() {
    let prog = RemoteProgress::new(RemoteProgressState::Pushing, 2, 10);

    assert_eq!(prog.progress, 20);
}

#[test]
fn percent_rounds_down() {
    assert_eq!(RemoteProgress::new(RemoteProgressState::Transfer, 1, 3).progress, 33);
    assert_eq!(RemoteProgress::new(RemoteProgressState::Transfer, 2, 3).progress, 66);
    assert_eq!(RemoteProgress::new(RemoteProgressState::Transfer, 199, 200).progress, 99);
}

#[test]
fn percent_of_a_full_count_is_100() {
    assert_eq!(RemoteProgress::new(RemoteProgressState::Transfer, 7, 7).progress, 100);
}

#[test]
fn percent_of_nothing_done_is_0() {
    assert_eq!(RemoteProgress::new(RemoteProgressState::Transfer, 0, 5).progress, 0);
}

#[test]
fn both_counters_zero_gives_0() {
    assert_eq!(RemoteProgress::new(RemoteProgressState::Pushing, 0, 0).progress, 0);
}

#[test]
fn current_past_total_clamps_to_100() {
    assert_eq!(RemoteProgress::new(RemoteProgressState::Pushing, 12, 5).progress, 100);
}

#[test]
fn largest_counters_stay_in_range() {
    let full = RemoteProgress::new(RemoteProgressState::Pushing, usize::MAX, usize::MAX);
    assert_eq!(full.progress, 100);
    let almost = RemoteProgress::new(RemoteProgressState::Pushing, usize::MAX - 1, usize::MAX);
    assert_eq!(almost.progress, 99);
    let tiny = RemoteProgress::new(RemoteProgressState::Pushing, 1, usize::MAX);
    assert_eq!(tiny.progress, 0);
    let half = RemoteProgress::new(RemoteProgressState::Pushing, usize::MAX / 2, usize::MAX);
    assert_eq!(half.progress, 49);
}

#[test]
fn new_keeps_the_state() {
    let prog = RemoteProgress::new(RemoteProgressState::PackingDeltafiction, 1, 2);
    assert_eq!(prog.state, RemoteProgressState::PackingDeltafiction);
    assert_eq!(prog.progress, 50);
}

#[test]
fn packing_adding_objects_maps_to_its_stage() {
    let prog = RemoteProgress::from(ProgressNotification::Packing {
        stage: PackStage::AddingObjects,
        total: 8,
        current: 2,
    });
    assert_eq!(
        prog,
        RemoteProgress { state: RemoteProgressState::PackingAddingObject, progress: 25 }
    );
}

#[test]
fn packing_deltafication_maps_to_its_stage() {
    let prog = RemoteProgress::from(ProgressNotification::Packing {
        stage: PackStage::Deltafication,
        total: 4,
        current: 3,
    });
    assert_eq!(
        prog,
        RemoteProgress { state: RemoteProgressState::PackingDeltafiction, progress: 75 }
    );
}

#[test]
fn push_transfer_maps_to_pushing() {
    let prog = RemoteProgress::from(ProgressNotification::PushTransfer {
        current: 9,
        total: 10,
        bytes: 4096,
    });
    assert_eq!(prog, RemoteProgress { state: RemoteProgressState::Pushing, progress: 90 });
}

#[test]
fn fetch_transfer_maps_to_transfer() {
    let prog = RemoteProgress::from(ProgressNotification::Transfer {
        objects: 1,
        total_objects: 8,
    });
    assert_eq!(prog, RemoteProgress { state: RemoteProgressState::Transfer, progress: 12 });
}

#[test]
fn done_maps_to_finished() {
    let prog = RemoteProgress::from(ProgressNotification::Done);
    assert_eq!(prog, RemoteProgress { state: RemoteProgressState::Done, progress: 100 });
}

#[test]
fn other_reports_collapse_to_finished() {
    let prog = RemoteProgress::from(ProgressNotification::UpdateTips {
        name: String::from("refs/heads/main"),
        a: vec![0u8; 20],
        b: vec![1u8; 20],
    });
    assert_eq!(prog, RemoteProgress { state: RemoteProgressState::Done, progress: 100 });
}

#[test]
fn only_done_is_terminal() {
    assert!(ProgressNotification::Done.is_terminal());
    assert!(!ProgressNotification::Transfer { objects: 1, total_objects: 1 }.is_terminal());
    assert!(!ProgressNotification::UpdateTips { name: String::new(), a: vec![], b: vec![] }
        .is_terminal());
}
