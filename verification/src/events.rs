//! The event bus: one broadcast subject per domain event kind.
//!
//! A subject keeps its subscribers (as plain subscriber handles) in
//! subscription order and fans a published value out to all of them
//! synchronously. Publishing is strictly non-reentrant per subject: a publish
//! begun while another publish of the same subject is still in progress is
//! detected and reported as an error instead of corrupting delivery order.
//! The caller that delivers to subscribers brackets the delivery between
//! `begin_publish` and `end_publish`.

use vstd::prelude::*;

verus! {

/// Error reported when a publish to a subject is begun while another publish
/// of the same subject is still in progress.
#[derive(Clone, Copy, PartialEq, Eq, Structural, Debug)]
pub struct ReentrantPublish;

/// A single-threaded broadcast point for one event kind: zero or more
/// subscribers, notified in subscription order, with a guard flag that
/// detects re-entrant publishing.
pub struct EventStreamSubject {
    /// Subscriber handles in subscription order.
    subscribers: Vec<u64>,
    /// The handle the next subscription receives.
    next_handle: u64,
    /// Whether a publish of this subject is currently in progress.
    publishing: bool,
}

impl EventStreamSubject {
    /// The subscriber handles of this subject, in subscription order.
    pub closed spec fn subscribers(self) -> Seq<u64> {
        self.subscribers@
    }

    /// Whether a publish of this subject is currently in progress.
    pub closed spec fn is_publishing(self) -> bool {
        self.publishing
    }

    /// The handle the next subscription receives.
    pub closed spec fn next_handle(self) -> u64 {
        self.next_handle
    }

    /// Every subscriber handle was handed out before `next_handle`, so a
    /// fresh handle is never already subscribed.
    pub closed spec fn wf(self) -> bool {
        forall|i: int|
            0 <= i < self.subscribers@.len() ==> #[trigger] self.subscribers@[i]
                < self.next_handle
    }

    /// Creates a subject with no subscribers and no publish in progress.
    pub fn new() -> (r: EventStreamSubject)
        ensures
            r.subscribers() == Seq::<u64>::empty(),
            !r.is_publishing(),
            r.wf(),
    {
        EventStreamSubject { subscribers: Vec::new(), next_handle: 0, publishing: false }
    }

    /// The number of current subscribers.
    pub fn subscribed_size(&self) -> (r: usize)
        ensures
            r == self.subscribers().len(),
    {
        self.subscribers.len()
    }

    /// Attaches a new subscriber and returns its handle. Subscribers are
    /// notified in the order they subscribed. Fails only when the handle
    /// space is exhausted; the subject is unchanged then.
    pub fn subscribe(&mut self) -> (r: Option<u64>)
        requires
            old(self).wf(),
        ensures
            final(self).wf(),
            final(self).is_publishing() == old(self).is_publishing(),
            match r {
                Some(handle) => old(self).next_handle() < u64::MAX && handle == old(
                    self,
                ).next_handle() && final(self).subscribers() == old(self).subscribers().push(
                    handle,
                ) && !old(self).subscribers().contains(handle),
                None => old(self).next_handle() == u64::MAX && *final(self) == *old(self),
            },
    {
        if self.next_handle == u64::MAX {
            return None;
        }
        let handle = self.next_handle;
        self.next_handle = self.next_handle + 1;
        assert(!old(self).subscribers().contains(handle)) by {
            if old(self).subscribers().contains(handle) {
                let i = choose|i: int|
                    0 <= i < old(self).subscribers().len() && old(self).subscribers()[i] == handle;
                assert(old(self).subscribers()[i] < handle);
            }
        }
        self.subscribers.push(handle);
        Some(handle)
    }

    /// Detaches the subscriber with the given handle, if present, keeping the
    /// order of the remaining subscribers.
    pub fn unsubscribe(&mut self, handle: u64) -> (r: bool)
        requires
            old(self).wf(),
        ensures
            final(self).wf(),
            final(self).is_publishing() == old(self).is_publishing(),
            final(self).next_handle() == old(self).next_handle(),
            r == old(self).subscribers().contains(handle),
            !r ==> *final(self) == *old(self),
            r ==> exists|i: int|
                0 <= i < old(self).subscribers().len() && old(self).subscribers()[i] == handle
                    && final(self).subscribers() == old(self).subscribers().remove(i),
    {
        let ghost orig = *old(self);
        let n = self.subscribers.len();
        let mut i: usize = 0;
        while i < n
            invariant
                n == self.subscribers@.len(),
                0 <= i <= n,
                forall|j: int| 0 <= j < i ==> self.subscribers@[j] != handle,
                *self == orig,
                orig == *old(self),
                orig.wf(),
            decreases n - i,
        {
            if self.subscribers[i] == handle {
                let ghost before = self.subscribers@;
                self.subscribers.remove(i);
                proof {
                    assert(self.subscribers@ == before.remove(i as int));
                    before.remove_ensures(i as int);
                    assert forall|j: int| 0 <= j < self.subscribers@.len() implies #[trigger] self
                        .subscribers@[j] < self.next_handle by {
                        if j < i as int {
                            assert(self.subscribers@[j] == before[j]);
                        } else {
                            assert(self.subscribers@[j] == before[j + 1]);
                        }
                    }
                    let k = i as int;
                    assert(old(self).subscribers()[k] == handle);
                    assert(self.subscribers@ == old(self).subscribers().remove(k));
                }
                return true;
            }
            i = i + 1;
        }
        assert(!old(self).subscribers().contains(handle));
        false
    }

    /// Begins a publish of this subject. If no publish is in progress, marks
    /// one as in progress and returns the subscribers to deliver to, in
    /// subscription order; with zero subscribers that plan is simply empty.
    /// If a publish of this subject is already in progress, this is a
    /// re-entrant publish: it is reported as an error and the subject is left
    /// unchanged.
    pub fn begin_publish(&mut self) -> (r: Result<Vec<u64>, ReentrantPublish>)
        requires
            old(self).wf(),
        ensures
            final(self).wf(),
            final(self).subscribers() == old(self).subscribers(),
            final(self).next_handle() == old(self).next_handle(),
            match r {
                Ok(plan) => !old(self).is_publishing() && final(self).is_publishing() && plan@
                    == old(self).subscribers(),
                Err(_) => old(self).is_publishing() && *final(self) == *old(self),
            },
    {
        if self.publishing {
            return Err(ReentrantPublish);
        }
        self.publishing = true;
        let n = self.subscribers.len();
        let mut plan: Vec<u64> = Vec::new();
        let mut i: usize = 0;
        while i < n
            invariant
                n == self.subscribers@.len(),
                0 <= i <= n,
                plan@ == self.subscribers@.take(i as int),
            decreases n - i,
        {
            plan.push(self.subscribers[i]);
            assert(self.subscribers@.take(i + 1 as int) == self.subscribers@.take(i as int).push(
                self.subscribers@[i as int],
            ));
            i = i + 1;
        }
        assert(plan@ == self.subscribers@);
        Ok(plan)
    }

    /// Ends the publish begun by `begin_publish`.
    pub fn end_publish(&mut self)
        requires
            old(self).is_publishing(),
        ensures
            !final(self).is_publishing(),
            final(self).subscribers() == old(self).subscribers(),
            final(self).next_handle() == old(self).next_handle(),
            old(self).wf() ==> final(self).wf(),
    {
        self.publishing = false;
    }
}

/// A subject that was just created: no subscribers, no publish in progress,
/// and well-formed.
pub open spec fn subject_fresh(s: EventStreamSubject) -> bool {
    &&& s.subscribers() == Seq::<u64>::empty()
    &&& !s.is_publishing()
    &&& s.wf()
}

/// The fixed set of broadcast subjects, one per domain event kind, all pushed
/// to exclusively from the main thread.
pub struct MainSubjects {
    /// Notified when the current project changed.
    pub project_switched: EventStreamSubject,
    /// Notified when a track's volume changed.
    pub track_volume_changed: EventStreamSubject,
    /// Notified when a track's volume was touched by the user.
    pub track_volume_touched: EventStreamSubject,
    /// Notified when a track's pan changed.
    pub track_pan_changed: EventStreamSubject,
    /// Notified when a track's pan was touched by the user.
    pub track_pan_touched: EventStreamSubject,
    /// Notified when a track send's volume changed.
    pub track_send_volume_changed: EventStreamSubject,
    /// Notified when a track send's volume was touched by the user.
    pub track_send_volume_touched: EventStreamSubject,
    /// Notified when a track send's pan changed.
    pub track_send_pan_changed: EventStreamSubject,
    /// Notified when a track send's pan was touched by the user.
    pub track_send_pan_touched: EventStreamSubject,
    /// Notified when a track was added.
    pub track_added: EventStreamSubject,
    /// Notified when a track was removed.
    pub track_removed: EventStreamSubject,
    /// Notified when the tracks of a project were reordered.
    pub tracks_reordered: EventStreamSubject,
    /// Notified when a track's name changed.
    pub track_name_changed: EventStreamSubject,
    /// Notified when a track's recording input changed.
    pub track_input_changed: EventStreamSubject,
    /// Notified when a track's input monitoring mode changed.
    pub track_input_monitoring_changed: EventStreamSubject,
    /// Notified when a track's record-arm state changed.
    pub track_arm_changed: EventStreamSubject,
    /// Notified when a track's mute state changed.
    pub track_mute_changed: EventStreamSubject,
    /// Notified when a track's mute state was touched by the user.
    pub track_mute_touched: EventStreamSubject,
    /// Notified when a track's solo state changed.
    pub track_solo_changed: EventStreamSubject,
    /// Notified when a track's selection state changed.
    pub track_selected_changed: EventStreamSubject,
    /// Notified when an FX was added.
    pub fx_added: EventStreamSubject,
    /// Notified when an FX was removed.
    pub fx_removed: EventStreamSubject,
    /// Notified when an FX's enabled state changed.
    pub fx_enabled_changed: EventStreamSubject,
    /// Notified when an FX window was opened.
    pub fx_opened: EventStreamSubject,
    /// Notified when an FX window was closed.
    pub fx_closed: EventStreamSubject,
    /// Notified when the focused FX changed.
    pub fx_focused: EventStreamSubject,
    /// Notified when the FX of a track were reordered.
    pub fx_reordered: EventStreamSubject,
    /// Notified when an FX parameter's value changed.
    pub fx_parameter_value_changed: EventStreamSubject,
    /// Notified when an FX parameter was touched by the user.
    pub fx_parameter_touched: EventStreamSubject,
    /// Notified when the master tempo changed.
    pub master_tempo_changed: EventStreamSubject,
    /// Notified when the master tempo was touched by the user.
    pub master_tempo_touched: EventStreamSubject,
    /// Notified when the master play rate changed.
    pub master_playrate_changed: EventStreamSubject,
    /// Notified when the master play rate was touched by the user.
    pub master_playrate_touched: EventStreamSubject,
    /// Notified when the main thread went idle.
    pub main_thread_idle: EventStreamSubject,
    /// Notified when a project was closed.
    pub project_closed: EventStreamSubject,
    /// Notified when an action was invoked.
    pub action_invoked: EventStreamSubject,
}

impl MainSubjects {
    /// All subjects are well-formed.
    pub open spec fn wf(self) -> bool {
        &&& self.project_switched.wf()
        &&& self.track_volume_changed.wf()
        &&& self.track_volume_touched.wf()
        &&& self.track_pan_changed.wf()
        &&& self.track_pan_touched.wf()
        &&& self.track_send_volume_changed.wf()
        &&& self.track_send_volume_touched.wf()
        &&& self.track_send_pan_changed.wf()
        &&& self.track_send_pan_touched.wf()
        &&& self.track_added.wf()
        &&& self.track_removed.wf()
        &&& self.tracks_reordered.wf()
        &&& self.track_name_changed.wf()
        &&& self.track_input_changed.wf()
        &&& self.track_input_monitoring_changed.wf()
        &&& self.track_arm_changed.wf()
        &&& self.track_mute_changed.wf()
        &&& self.track_mute_touched.wf()
        &&& self.track_solo_changed.wf()
        &&& self.track_selected_changed.wf()
        &&& self.fx_added.wf()
        &&& self.fx_removed.wf()
        &&& self.fx_enabled_changed.wf()
        &&& self.fx_opened.wf()
        &&& self.fx_closed.wf()
        &&& self.fx_focused.wf()
        &&& self.fx_reordered.wf()
        &&& self.fx_parameter_value_changed.wf()
        &&& self.fx_parameter_touched.wf()
        &&& self.master_tempo_changed.wf()
        &&& self.master_tempo_touched.wf()
        &&& self.master_playrate_changed.wf()
        &&& self.master_playrate_touched.wf()
        &&& self.main_thread_idle.wf()
        &&& self.project_closed.wf()
        &&& self.action_invoked.wf()
    }

    /// All subjects are fresh: no subscribers and no publish in progress.
    pub open spec fn is_fresh(self) -> bool {
        &&& subject_fresh(self.project_switched)
        &&& subject_fresh(self.track_volume_changed)
        &&& subject_fresh(self.track_volume_touched)
        &&& subject_fresh(self.track_pan_changed)
        &&& subject_fresh(self.track_pan_touched)
        &&& subject_fresh(self.track_send_volume_changed)
        &&& subject_fresh(self.track_send_volume_touched)
        &&& subject_fresh(self.track_send_pan_changed)
        &&& subject_fresh(self.track_send_pan_touched)
        &&& subject_fresh(self.track_added)
        &&& subject_fresh(self.track_removed)
        &&& subject_fresh(self.tracks_reordered)
        &&& subject_fresh(self.track_name_changed)
        &&& subject_fresh(self.track_input_changed)
        &&& subject_fresh(self.track_input_monitoring_changed)
        &&& subject_fresh(self.track_arm_changed)
        &&& subject_fresh(self.track_mute_changed)
        &&& subject_fresh(self.track_mute_touched)
        &&& subject_fresh(self.track_solo_changed)
        &&& subject_fresh(self.track_selected_changed)
        &&& subject_fresh(self.fx_added)
        &&& subject_fresh(self.fx_removed)
        &&& subject_fresh(self.fx_enabled_changed)
        &&& subject_fresh(self.fx_opened)
        &&& subject_fresh(self.fx_closed)
        &&& subject_fresh(self.fx_focused)
        &&& subject_fresh(self.fx_reordered)
        &&& subject_fresh(self.fx_parameter_value_changed)
        &&& subject_fresh(self.fx_parameter_touched)
        &&& subject_fresh(self.master_tempo_changed)
        &&& subject_fresh(self.master_tempo_touched)
        &&& subject_fresh(self.master_playrate_changed)
        &&& subject_fresh(self.master_playrate_touched)
        &&& subject_fresh(self.main_thread_idle)
        &&& subject_fresh(self.project_closed)
        &&& subject_fresh(self.action_invoked)
    }

    /// Creates the full set of subjects, each fresh.
    pub fn new() -> (r: MainSubjects)
        ensures
            r.wf(),
            r.is_fresh(),
    {
        MainSubjects {
            project_switched: EventStreamSubject::new(),
            track_volume_changed: EventStreamSubject::new(),
            track_volume_touched: EventStreamSubject::new(),
            track_pan_changed: EventStreamSubject::new(),
            track_pan_touched: EventStreamSubject::new(),
            track_send_volume_changed: EventStreamSubject::new(),
            track_send_volume_touched: EventStreamSubject::new(),
            track_send_pan_changed: EventStreamSubject::new(),
            track_send_pan_touched: EventStreamSubject::new(),
            track_added: EventStreamSubject::new(),
            track_removed: EventStreamSubject::new(),
            tracks_reordered: EventStreamSubject::new(),
            track_name_changed: EventStreamSubject::new(),
            track_input_changed: EventStreamSubject::new(),
            track_input_monitoring_changed: EventStreamSubject::new(),
            track_arm_changed: EventStreamSubject::new(),
            track_mute_changed: EventStreamSubject::new(),
            track_mute_touched: EventStreamSubject::new(),
            track_solo_changed: EventStreamSubject::new(),
            track_selected_changed: EventStreamSubject::new(),
            fx_added: EventStreamSubject::new(),
            fx_removed: EventStreamSubject::new(),
            fx_enabled_changed: EventStreamSubject::new(),
            fx_opened: EventStreamSubject::new(),
            fx_closed: EventStreamSubject::new(),
            fx_focused: EventStreamSubject::new(),
            fx_reordered: EventStreamSubject::new(),
            fx_parameter_value_changed: EventStreamSubject::new(),
            fx_parameter_touched: EventStreamSubject::new(),
            master_tempo_changed: EventStreamSubject::new(),
            master_tempo_touched: EventStreamSubject::new(),
            master_playrate_changed: EventStreamSubject::new(),
            master_playrate_touched: EventStreamSubject::new(),
            main_thread_idle: EventStreamSubject::new(),
            project_closed: EventStreamSubject::new(),
            action_invoked: EventStreamSubject::new(),
        }
    }
}

/// Wraps a value published through a subject, so that payloads of different
/// event kinds stay distinguishable to subscribers.
pub struct Payload<T>(pub T);

/// Pairs every subscriber of a delivery plan with the published value, in
/// plan order: this is the complete fan-out of one published value.
pub fn fan_out<T: Copy>(plan: &Vec<u64>, value: T) -> (r: Vec<(u64, T)>)
    ensures
        r@.len() == plan@.len(),
        forall|i: int| 0 <= i < r@.len() ==> #[trigger] r@[i] == (plan@[i], value),
{
    let n = plan.len();
    let mut r: Vec<(u64, T)> = Vec::new();
    let mut i: usize = 0;
    while i < n
        invariant
            n == plan@.len(),
            0 <= i <= n,
            r@.len() == i,
            forall|j: int| 0 <= j < i ==> #[trigger] r@[j] == (plan@[j], value),
        decreases n - i,
    {
        r.push((plan[i], value));
        i = i + 1;
    }
    r
}

} // verus!
