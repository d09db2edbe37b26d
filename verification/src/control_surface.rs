//! The main-loop adapter: once per host main-loop tick it drains the due
//! main-thread tasks (tasks whose deadline has passed, or that never had
//! one), and compares the previously observed host state against a freshly
//! queried snapshot, yielding one change event per watched property that
//! differs.
//!
//! The polling/diffing step exists because the host's native notification
//! hooks are incomplete: for the watched state classes, changes must be
//! detected by snapshot comparison.

use vstd::prelude::*;

use crate::channel::{main_channel_cap, main_channel_contents, MainTaskChannel, MainThreadTask};

verus! {

/// Whether a queued task is due at the given time: it has no deadline, or
/// its deadline has passed.
pub open spec fn task_is_due(t: (u64, Option<u64>), now: u64) -> bool {
    match t.1 {
        Option::None => true,
        Option::Some(deadline) => deadline <= now,
    }
}

/// The tasks of a queue that are due at the given time, in queue order.
pub open spec fn due_tasks_of(s: Seq<(u64, Option<u64>)>, now: u64) -> Seq<(u64, Option<u64>)> {
    s.filter(|t: (u64, Option<u64>)| task_is_due(t, now))
}

/// The tasks of a queue that are not yet due at the given time, in queue
/// order.
pub open spec fn pending_tasks_of(s: Seq<(u64, Option<u64>)>, now: u64) -> Seq<
    (u64, Option<u64>),
> {
    s.filter(|t: (u64, Option<u64>)| !task_is_due(t, now))
}

/// Appending one element to a sequence filters to the old filtered sequence,
/// with the element appended when it satisfies the predicate.
pub proof fn lemma_filter_push<A>(s: Seq<A>, pred: spec_fn(A) -> bool, x: A)
    ensures
        s.push(x).filter(pred) == if pred(x) {
            s.filter(pred).push(x)
        } else {
            s.filter(pred)
        },
{
    assert((s.push(x)).drop_last() =~= s);
    assert((s.push(x)).last() == x);
    reveal(Seq::filter);
}

/// Drains the tasks of the main-thread queue that are due at `now`,
/// returning them in queue order; tasks not yet due remain queued, in their
/// relative order, for a future cycle. Every due task is taken: none is
/// taken in a cycle before its deadline, and each is taken in the first
/// cycle at or after it.
pub fn drain_due_main_thread_tasks(channel: &mut MainTaskChannel, now: u64) -> (due: Vec<
    MainThreadTask,
>)
    ensures
        main_channel_cap(*final(channel)) == main_channel_cap(*old(channel)),
        due@.map_values(|t: MainThreadTask| t.as_pair()) == due_tasks_of(
            main_channel_contents(*old(channel)),
            now,
        ),
        main_channel_contents(*final(channel)) == pending_tasks_of(
            main_channel_contents(*old(channel)),
            now,
        ),
{
    let ghost orig = main_channel_contents(*old(channel));
    let ghost pending_pred = |t: (u64, Option<u64>)| !task_is_due(t, now);
    let n = channel.len();
    let mut due: Vec<MainThreadTask> = Vec::new();
    let mut i: usize = 0;
    proof {
        assert(orig.take(0) =~= Seq::<(u64, Option<u64>)>::empty());
        assert(orig.skip(0) =~= orig);
        reveal(Seq::filter);
        assert(due@.map_values(|t: MainThreadTask| t.as_pair()) =~= due_tasks_of(
            orig.take(0),
            now,
        ));
    }
    while i < n
        invariant
            orig == main_channel_contents(*old(channel)),
            n == orig.len(),
            n <= main_channel_cap(*channel),
            0 <= i <= n,
            main_channel_cap(*channel) == main_channel_cap(*old(channel)),
            due@.map_values(|t: MainThreadTask| t.as_pair()) == due_tasks_of(
                orig.take(i as int),
                now,
            ),
            main_channel_contents(*channel) == orig.skip(i as int) + pending_tasks_of(
                orig.take(i as int),
                now,
            ),
        decreases n - i,
    {
        proof {
            orig.take(i as int).lemma_filter_len(pending_pred);
            assert(orig.skip(i as int).len() == n - i);
        }
        let task = match channel.try_recv() {
            Some(task) => task,
            None => {
                proof {
                    assert(false);
                }
                MainThreadTask::new(0, None)
            },
        };
        proof {
            assert(orig.skip(i as int)[0] == orig[i as int]);
            assert(task.as_pair() == orig[i as int]);
            assert((orig.skip(i as int) + pending_tasks_of(orig.take(i as int), now)).drop_first()
                =~= orig.skip(i + 1) + pending_tasks_of(orig.take(i as int), now));
            assert(orig.take(i + 1) =~= orig.take(i as int).push(orig[i as int]));
            lemma_filter_push(
                orig.take(i as int),
                |t: (u64, Option<u64>)| task_is_due(t, now),
                orig[i as int],
            );
            lemma_filter_push(
                orig.take(i as int),
                |t: (u64, Option<u64>)| !task_is_due(t, now),
                orig[i as int],
            );
        }
        let is_due = match task.desired_execution_time {
            None => true,
            Some(deadline) => deadline <= now,
        };
        if is_due {
            proof {
                assert(task_is_due(orig[i as int], now));
                assert(due_tasks_of(orig.take(i + 1), now) == due_tasks_of(
                    orig.take(i as int),
                    now,
                ).push(orig[i as int]));
                assert(pending_tasks_of(orig.take(i + 1), now) == pending_tasks_of(
                    orig.take(i as int),
                    now,
                ));
            }
            let ghost due_before = due@;
            due.push(task);
            proof {
                assert(due@ == due_before.push(task));
                assert(due@.map_values(|t: MainThreadTask| t.as_pair()) =~= due_tasks_of(
                    orig.take(i + 1),
                    now,
                ));
            }
        } else {
            proof {
                assert(!task_is_due(orig[i as int], now));
                assert(due_tasks_of(orig.take(i + 1), now) == due_tasks_of(
                    orig.take(i as int),
                    now,
                ));
                assert(pending_tasks_of(orig.take(i + 1), now) == pending_tasks_of(
                    orig.take(i as int),
                    now,
                ).push(orig[i as int]));
            }
            let requeued = channel.try_send(task);
            proof {
                assert(requeued);
                assert(main_channel_contents(*channel) =~= orig.skip(i + 1) + pending_tasks_of(
                    orig.take(i + 1),
                    now,
                ));
            }
        }
        i = i + 1;
    }
    proof {
        assert(orig.take(n as int) =~= orig);
        assert(orig.skip(n as int) =~= Seq::<(u64, Option<u64>)>::empty());
        assert(main_channel_contents(*channel) =~= pending_tasks_of(orig, now));
    }
    due
}

/// The observed state of one track, as plain values: each watched property
/// is carried as an opaque ordinal (two snapshots differ in a property
/// exactly when the ordinals differ) and the name as its bytes.
pub struct TrackSnapshot {
    /// The track's identity across snapshots.
    pub guid: u64,
    /// The track's volume, as an opaque ordinal.
    pub volume: u64,
    /// The track's pan position, as an opaque ordinal.
    pub pan: u64,
    /// Whether the track is muted.
    pub mute: bool,
    /// Whether the track is soloed.
    pub solo: bool,
    /// Whether the track is armed for recording.
    pub arm: bool,
    /// Whether the track is selected.
    pub selected: bool,
    /// The track's name, as bytes.
    pub name: Vec<u8>,
    /// The track's recording input, as an opaque ordinal.
    pub input: u64,
    /// The track's input monitoring mode, as an opaque ordinal.
    pub input_monitoring: u64,
    /// The identities of the FX in the track's chain, in chain order.
    pub fxs: Vec<u64>,
}

/// The observed state of the watched parts of a project: its tracks in
/// project order.
pub struct ProjectSnapshot {
    pub tracks: Vec<TrackSnapshot>,
}

/// One detected state change, to be published as the corresponding domain
/// event.
#[derive(Clone, Copy, PartialEq, Eq, Structural, Debug)]
pub enum ChangeEvent {
    TrackAdded { track: u64 },
    TrackRemoved { track: u64 },
    TrackVolumeChanged { track: u64 },
    TrackPanChanged { track: u64 },
    TrackMuteChanged { track: u64 },
    TrackSoloChanged { track: u64 },
    TrackArmChanged { track: u64 },
    TrackSelectedChanged { track: u64 },
    TrackNameChanged { track: u64 },
    TrackInputChanged { track: u64 },
    TrackInputMonitoringChanged { track: u64 },
    FxAdded { track: u64, fx: u64 },
    FxRemoved { track: u64, fx: u64 },
}

/// The FX identities present in the second chain but not the first, in
/// chain order, as FX-added events for the given track.
pub open spec fn fx_added_events(track: u64, prev_fxs: Seq<u64>, cur_fxs: Seq<u64>) -> Seq<
    ChangeEvent,
> {
    cur_fxs.filter(|g: u64| !prev_fxs.contains(g)).map_values(
        |g: u64| ChangeEvent::FxAdded { track, fx: g },
    )
}

/// The FX identities present in the first chain but not the second, in
/// chain order, as FX-removed events for the given track.
pub open spec fn fx_removed_events(track: u64, prev_fxs: Seq<u64>, cur_fxs: Seq<u64>) -> Seq<
    ChangeEvent,
> {
    prev_fxs.filter(|g: u64| !cur_fxs.contains(g)).map_values(
        |g: u64| ChangeEvent::FxRemoved { track, fx: g },
    )
}

/// A single change event when the watched property differs, nothing when it
/// does not.
pub open spec fn opt_event(differs: bool, e: ChangeEvent) -> Seq<ChangeEvent> {
    if differs {
        seq![e]
    } else {
        Seq::empty()
    }
}

/// The change events for one track that exists in both snapshots: one event
/// per watched property that differs, in a fixed property order, followed
/// by the FX-set changes.
pub open spec fn track_prop_changes(prev: TrackSnapshot, cur: TrackSnapshot) -> Seq<ChangeEvent> {
    let t = cur.guid;
    Seq::empty() + opt_event(
        cur.volume != prev.volume,
        ChangeEvent::TrackVolumeChanged { track: t },
    ) + opt_event(cur.pan != prev.pan, ChangeEvent::TrackPanChanged { track: t }) + opt_event(
        cur.mute != prev.mute,
        ChangeEvent::TrackMuteChanged { track: t },
    ) + opt_event(cur.solo != prev.solo, ChangeEvent::TrackSoloChanged { track: t }) + opt_event(
        cur.arm != prev.arm,
        ChangeEvent::TrackArmChanged { track: t },
    ) + opt_event(
        cur.selected != prev.selected,
        ChangeEvent::TrackSelectedChanged { track: t },
    ) + opt_event(cur.name@ != prev.name@, ChangeEvent::TrackNameChanged { track: t }) + opt_event(
        cur.input != prev.input,
        ChangeEvent::TrackInputChanged { track: t },
    ) + opt_event(
        cur.input_monitoring != prev.input_monitoring,
        ChangeEvent::TrackInputMonitoringChanged { track: t },
    ) + fx_added_events(t, prev.fxs@, cur.fxs@) + fx_removed_events(t, prev.fxs@, cur.fxs@)
}

/// The first track with the given identity, if any.
pub open spec fn find_track(tracks: Seq<TrackSnapshot>, guid: u64) -> Option<TrackSnapshot>
    decreases tracks.len(),
{
    if tracks.len() == 0 {
        None
    } else if tracks[0].guid == guid {
        Some(tracks[0])
    } else {
        find_track(tracks.drop_first(), guid)
    }
}

/// The change events contributed by the current tracks, in project order:
/// for a track also present before, its property changes; for a new track,
/// a track-added event.
pub open spec fn events_for_current_tracks(
    prev: Seq<TrackSnapshot>,
    cur: Seq<TrackSnapshot>,
) -> Seq<ChangeEvent>
    decreases cur.len(),
{
    if cur.len() == 0 {
        Seq::empty()
    } else {
        events_for_current_tracks(prev, cur.drop_last()) + match find_track(
            prev,
            cur.last().guid,
        ) {
            Some(p) => track_prop_changes(p, cur.last()),
            None => seq![ChangeEvent::TrackAdded { track: cur.last().guid }],
        }
    }
}

/// One track-removed event for each previous track that no longer exists,
/// in previous project order.
pub open spec fn events_for_removed_tracks(
    prev: Seq<TrackSnapshot>,
    cur: Seq<TrackSnapshot>,
) -> Seq<ChangeEvent>
    decreases prev.len(),
{
    if prev.len() == 0 {
        Seq::empty()
    } else {
        events_for_removed_tracks(prev.drop_last(), cur) + if find_track(
            cur,
            prev.last().guid,
        ) is Some {
            Seq::empty()
        } else {
            seq![ChangeEvent::TrackRemoved { track: prev.last().guid }]
        }
    }
}

/// All change events between two project snapshots: the events for the
/// current tracks, then the events for the removed tracks.
pub open spec fn project_changes(prev: ProjectSnapshot, cur: ProjectSnapshot) -> Seq<ChangeEvent> {
    events_for_current_tracks(prev.tracks@, cur.tracks@) + events_for_removed_tracks(
        prev.tracks@,
        cur.tracks@,
    )
}

/// Whether two byte strings are equal.
fn bytes_eq(a: &Vec<u8>, b: &Vec<u8>) -> (r: bool)
    ensures
        r == (a@ == b@),
{
    if a.len() != b.len() {
        proof {
            assert(a@ != b@);
        }
        return false;
    }
    let n = a.len();
    let mut i: usize = 0;
    while i < n
        invariant
            n == a@.len(),
            n == b@.len(),
            0 <= i <= n,
            forall|j: int| 0 <= j < i ==> a@[j] == b@[j],
        decreases n - i,
    {
        if a[i] != b[i] {
            proof {
                assert(a@[i as int] != b@[i as int]);
            }
            return false;
        }
        i = i + 1;
    }
    proof {
        assert(a@ =~= b@);
    }
    true
}

/// Whether the sequence of identities contains the given one.
fn guids_contain(xs: &Vec<u64>, guid: u64) -> (r: bool)
    ensures
        r == xs@.contains(guid),
{
    let n = xs.len();
    let mut i: usize = 0;
    while i < n
        invariant
            n == xs@.len(),
            0 <= i <= n,
            forall|j: int| 0 <= j < i ==> xs@[j] != guid,
        decreases n - i,
    {
        if xs[i] == guid {
            return true;
        }
        i = i + 1;
    }
    false
}

/// The first track with the given identity, if any.
fn find_track_exec(tracks: &Vec<TrackSnapshot>, guid: u64) -> (r: Option<&TrackSnapshot>)
    ensures
        match r {
            Some(t) => find_track(tracks@, guid) == Some(*t),
            None => find_track(tracks@, guid) is None,
        },
{
    let n = tracks.len();
    let mut i: usize = 0;
    proof {
        assert(tracks@.skip(0) =~= tracks@);
    }
    while i < n
        invariant
            n == tracks@.len(),
            0 <= i <= n,
            find_track(tracks@, guid) == find_track(tracks@.skip(i as int), guid),
        decreases n - i,
    {
        proof {
            assert(tracks@.skip(i as int)[0] == tracks@[i as int]);
            assert(tracks@.skip(i as int).drop_first() =~= tracks@.skip(i + 1));
        }
        if tracks[i].guid == guid {
            return Some(&tracks[i]);
        }
        i = i + 1;
    }
    proof {
        assert(tracks@.skip(n as int) =~= Seq::<TrackSnapshot>::empty());
    }
    None
}

/// Appends, for each identity of `from` that `not_in` lacks, the event
/// `mk_event` describes, in order.
fn push_fx_events(
    out: &mut Vec<ChangeEvent>,
    track: u64,
    from: &Vec<u64>,
    not_in: &Vec<u64>,
    added: bool,
)
    ensures
        added ==> final(out)@ == old(out)@ + fx_added_events(track, not_in@, from@),
        !added ==> final(out)@ == old(out)@ + fx_removed_events(track, from@, not_in@),
{
    let ghost pred = |g: u64| !not_in@.contains(g);
    let ghost mapper = if added {
        |g: u64| ChangeEvent::FxAdded { track, fx: g }
    } else {
        |g: u64| ChangeEvent::FxRemoved { track, fx: g }
    };
    let ghost orig_out = out@;
    let n = from.len();
    let mut i: usize = 0;
    proof {
        reveal(Seq::filter);
        assert(from@.take(0) =~= Seq::<u64>::empty());
        assert(out@ =~= orig_out + from@.take(0).filter(pred).map_values(mapper));
    }
    while i < n
        invariant
            n == from@.len(),
            0 <= i <= n,
            pred == (|g: u64| !not_in@.contains(g)),
            mapper == if added {
                (|g: u64| ChangeEvent::FxAdded { track, fx: g })
            } else {
                (|g: u64| ChangeEvent::FxRemoved { track, fx: g })
            },
            out@ == orig_out + from@.take(i as int).filter(pred).map_values(mapper),
        decreases n - i,
    {
        let g = from[i];
        let keep = !guids_contain(not_in, g);
        proof {
            assert(from@.take(i + 1) =~= from@.take(i as int).push(from@[i as int]));
            lemma_filter_push(from@.take(i as int), pred, from@[i as int]);
        }
        if keep {
            let event = if added {
                ChangeEvent::FxAdded { track, fx: g }
            } else {
                ChangeEvent::FxRemoved { track, fx: g }
            };
            out.push(event);
            proof {
                assert(out@ =~= orig_out + from@.take(i + 1).filter(pred).map_values(mapper));
            }
        }
        i = i + 1;
    }
    proof {
        assert(from@.take(n as int) =~= from@);
    }
}

/// Appends one change event when the watched property differs.
fn push_opt_event(out: &mut Vec<ChangeEvent>, differs: bool, e: ChangeEvent)
    ensures
        final(out)@ == old(out)@ + opt_event(differs, e),
{
    if differs {
        out.push(e);
    }
    proof {
        assert(final(out)@ =~= old(out)@ + opt_event(differs, e));
    }
}

/// The change events for one track that exists in both snapshots: one event
/// per watched property that differs, in a fixed property order, followed
/// by the FX-set changes.
pub fn diff_track(prev: &TrackSnapshot, cur: &TrackSnapshot) -> (r: Vec<ChangeEvent>)
    ensures
        r@ == track_prop_changes(*prev, *cur),
{
    let t = cur.guid;
    let mut r: Vec<ChangeEvent> = Vec::new();
    push_opt_event(&mut r, cur.volume != prev.volume, ChangeEvent::TrackVolumeChanged { track: t });
    push_opt_event(&mut r, cur.pan != prev.pan, ChangeEvent::TrackPanChanged { track: t });
    push_opt_event(&mut r, cur.mute != prev.mute, ChangeEvent::TrackMuteChanged { track: t });
    push_opt_event(&mut r, cur.solo != prev.solo, ChangeEvent::TrackSoloChanged { track: t });
    push_opt_event(&mut r, cur.arm != prev.arm, ChangeEvent::TrackArmChanged { track: t });
    push_opt_event(
        &mut r,
        cur.selected != prev.selected,
        ChangeEvent::TrackSelectedChanged { track: t },
    );
    let names_equal = bytes_eq(&cur.name, &prev.name);
    push_opt_event(&mut r, !names_equal, ChangeEvent::TrackNameChanged { track: t });
    push_opt_event(&mut r, cur.input != prev.input, ChangeEvent::TrackInputChanged { track: t });
    push_opt_event(
        &mut r,
        cur.input_monitoring != prev.input_monitoring,
        ChangeEvent::TrackInputMonitoringChanged { track: t },
    );
    push_fx_events(&mut r, t, &cur.fxs, &prev.fxs, true);
    push_fx_events(&mut r, t, &prev.fxs, &cur.fxs, false);
    r
}

/// Compares the previously observed project state against a fresh snapshot
/// and returns one change event per watched property that differs: property
/// changes and FX-set changes for tracks present in both, a track-added
/// event per new track, then a track-removed event per vanished track.
pub fn diff_project(prev: &ProjectSnapshot, cur: &ProjectSnapshot) -> (r: Vec<ChangeEvent>)
    ensures
        r@ == project_changes(*prev, *cur),
{
    let mut r: Vec<ChangeEvent> = Vec::new();
    let n = cur.tracks.len();
    let mut i: usize = 0;
    while i < n
        invariant
            n == cur.tracks@.len(),
            0 <= i <= n,
            r@ == events_for_current_tracks(prev.tracks@, cur.tracks@.take(i as int)),
        decreases n - i,
    {
        proof {
            assert(cur.tracks@.take(i + 1).drop_last() =~= cur.tracks@.take(i as int));
            assert(cur.tracks@.take(i + 1).last() == cur.tracks@[i as int]);
        }
        let track = &cur.tracks[i];
        match find_track_exec(&prev.tracks, track.guid) {
            Some(p) => {
                let mut changes = diff_track(p, track);
                r.append(&mut changes);
                proof {
                    assert(r@ =~= events_for_current_tracks(prev.tracks@, cur.tracks@.take(i + 1)));
                }
            },
            None => {
                r.push(ChangeEvent::TrackAdded { track: track.guid });
                proof {
                    assert(r@ =~= events_for_current_tracks(prev.tracks@, cur.tracks@.take(i + 1)));
                }
            },
        }
        i = i + 1;
    }
    proof {
        assert(cur.tracks@.take(n as int) =~= cur.tracks@);
    }
    let m = prev.tracks.len();
    let mut j: usize = 0;
    while j < m
        invariant
            m == prev.tracks@.len(),
            n == cur.tracks@.len(),
            0 <= j <= m,
            r@ == events_for_current_tracks(prev.tracks@, cur.tracks@)
                + events_for_removed_tracks(prev.tracks@.take(j as int), cur.tracks@),
        decreases m - j,
    {
        proof {
            assert(prev.tracks@.take(j + 1).drop_last() =~= prev.tracks@.take(j as int));
            assert(prev.tracks@.take(j + 1).last() == prev.tracks@[j as int]);
        }
        let track = &prev.tracks[j];
        let gone = match find_track_exec(&cur.tracks, track.guid) {
            Some(_) => false,
            None => true,
        };
        if gone {
            r.push(ChangeEvent::TrackRemoved { track: track.guid });
        }
        proof {
            assert(r@ =~= events_for_current_tracks(prev.tracks@, cur.tracks@)
                + events_for_removed_tracks(prev.tracks@.take(j + 1), cur.tracks@));
        }
        j = j + 1;
    }
    proof {
        assert(prev.tracks@.take(m as int) =~= prev.tracks@);
    }
    r
}

/// A task with a future deadline is not among the tasks a drain cycle at an
/// earlier time takes, and still queued then; a drain cycle at or after the
/// deadline takes it.
pub proof fn lemma_deadline_respected(
    s: Seq<(u64, Option<u64>)>,
    i: int,
    deadline: u64,
    now: u64,
)
    requires
        0 <= i < s.len(),
        s[i].1 == Some(deadline),
    ensures
        now < deadline ==> !due_tasks_of(s, now).contains(s[i]) && pending_tasks_of(
            s,
            now,
        ).contains(s[i]),
        now >= deadline ==> due_tasks_of(s, now).contains(s[i]) && !pending_tasks_of(
            s,
            now,
        ).contains(s[i]),
{
    let due_pred = |t: (u64, Option<u64>)| task_is_due(t, now);
    let pending_pred = |t: (u64, Option<u64>)| !task_is_due(t, now);
    if now < deadline {
        s.lemma_filter_contains(pending_pred, i);
        if due_tasks_of(s, now).contains(s[i]) {
            let j = choose|j: int|
                0 <= j < due_tasks_of(s, now).len() && due_tasks_of(s, now)[j] == s[i];
            s.lemma_filter_pred(due_pred, j);
        }
    } else {
        s.lemma_filter_contains(due_pred, i);
        if pending_tasks_of(s, now).contains(s[i]) {
            let j = choose|j: int|
                0 <= j < pending_tasks_of(s, now).len() && pending_tasks_of(s, now)[j] == s[i];
            s.lemma_filter_pred(pending_pred, j);
        }
    }
}


/// The main-loop adapter: holds the previously observed project state and,
/// once per host main-loop tick, drains the due main-thread tasks and diffs
/// the watched host state against the previous snapshot.
pub struct HelperControlSurface {
    /// The project state observed in the previous cycle.
    pub prev: ProjectSnapshot,
}

impl HelperControlSurface {
    /// Creates the adapter with the initially observed project state.
    pub fn new(initial: ProjectSnapshot) -> (r: HelperControlSurface)
        ensures
            r.prev == initial,
    {
        HelperControlSurface { prev: initial }
    }

    /// One main-loop cycle: takes the due tasks out of the main-thread queue
    /// (tasks not yet due remain queued), and compares the given fresh
    /// project snapshot against the previous one, yielding the change events
    /// to publish. The fresh snapshot becomes the previous one for the next
    /// cycle.
    pub fn run(
        &mut self,
        channel: &mut MainTaskChannel,
        now: u64,
        current: ProjectSnapshot,
    ) -> (r: (Vec<MainThreadTask>, Vec<ChangeEvent>))
        ensures
            main_channel_cap(*final(channel)) == main_channel_cap(*old(channel)),
            r.0@.map_values(|t: MainThreadTask| t.as_pair()) == due_tasks_of(
                main_channel_contents(*old(channel)),
                now,
            ),
            main_channel_contents(*final(channel)) == pending_tasks_of(
                main_channel_contents(*old(channel)),
                now,
            ),
            r.1@ == project_changes(old(self).prev, current),
            final(self).prev == current,
    {
        let due = drain_due_main_thread_tasks(channel, now);
        let changes = diff_project(&self.prev, &current);
        self.prev = current;
        (due, changes)
    }
}

} // verus!
