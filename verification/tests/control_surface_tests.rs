use reaper_session::channel::{MainTaskChannel, MainThreadTask};
use reaper_session::control_surface::{
    diff_project, diff_track, ChangeEvent, HelperControlSurface, ProjectSnapshot, TrackSnapshot,
};

fn track(guid: u64) -> TrackSnapshot {
    TrackSnapshot {
        guid,
        volume: 0,
        pan: 0,
        mute: false,
        solo: false,
        arm: false,
        selected: false,
        name: b"Track".to_vec(),
        input: 0,
        input_monitoring: 0,
        fxs: Vec::new(),
    }
}

#[test]
fn unchanged_track_yields_no_events() {
    let a = track(1);
    let b = track(1);
    assert!(diff_track(&a, &b).is_empty());
}

#[test]
fn changed_properties_yield_one_event_each() {
    let prev = track(1);
    let mut cur = track(1);
    cur.volume = 7;
    cur.mute = true;
    cur.name = b"Renamed".to_vec();
    let events = diff_track(&prev, &cur);
    assert_eq!(
        events,
        vec![
            ChangeEvent::TrackVolumeChanged { track: 1 },
            ChangeEvent::TrackMuteChanged { track: 1 },
            ChangeEvent::TrackNameChanged { track: 1 },
        ]
    );
}

#[test]
fn fx_set_changes_are_detected() {
    let mut prev = track(1);
    prev.fxs = vec![10, 11];
    let mut cur = track(1);
    cur.fxs = vec![11, 12];
    let events = diff_track(&prev, &cur);
    assert_eq!(
        events,
        vec![
            ChangeEvent::FxAdded { track: 1, fx: 12 },
            ChangeEvent::FxRemoved { track: 1, fx: 10 },
        ]
    );
}

#[test]
fn added_and_removed_tracks_are_detected() {
    let prev = ProjectSnapshot {
        tracks: vec![track(1), track(2)],
    };
    let cur = ProjectSnapshot {
        tracks: vec![track(2), track(3)],
    };
    let events = diff_project(&prev, &cur);
    assert_eq!(
        events,
        vec![
            ChangeEvent::TrackAdded { track: 3 },
            ChangeEvent::TrackRemoved { track: 1 },
        ]
    );
}

#[test]
fn project_diff_combines_track_changes() {
    let prev = ProjectSnapshot {
        tracks: vec![track(1)],
    };
    let mut changed = track(1);
    changed.pan = 9;
    let cur = ProjectSnapshot {
        tracks: vec![changed],
    };
    let events = diff_project(&prev, &cur);
    assert_eq!(events, vec![ChangeEvent::TrackPanChanged { track: 1 }]);
}

#[test]
fn control_surface_cycle_drains_and_diffs() {
    let mut channel = MainTaskChannel::new(8);
    channel.try_send(MainThreadTask::new(1, None));
    channel.try_send(MainThreadTask::new(2, Some(500)));
    let mut surface = HelperControlSurface::new(ProjectSnapshot {
        tracks: vec![track(1)],
    });
    let mut renamed = track(1);
    renamed.name = b"New name".to_vec();
    let (due, changes) = surface.run(
        &mut channel,
        10,
        ProjectSnapshot {
            tracks: vec![renamed],
        },
    );
    assert_eq!(due.iter().map(|t| t.op).collect::<Vec<_>>(), vec![1]);
    assert_eq!(changes, vec![ChangeEvent::TrackNameChanged { track: 1 }]);
    // The fresh snapshot became the baseline: the next cycle sees no change.
    let mut renamed_again = track(1);
    renamed_again.name = b"New name".to_vec();
    let (due, changes) = surface.run(
        &mut channel,
        600,
        ProjectSnapshot {
            tracks: vec![renamed_again],
        },
    );
    assert_eq!(due.iter().map(|t| t.op).collect::<Vec<_>>(), vec![2]);
    assert!(changes.is_empty());
}
