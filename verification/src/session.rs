//! The session core: the command registry, the lifecycle/activation state
//! machine, the scheduling entry points for both task queues, and the
//! dispatch entry points the host calls back into.
//!
//! Operations themselves (closures in the surrounding application) are
//! carried as plain `u64` operation handles; the unverified driver resolves a
//! handle to the operation it stands for and invokes it. Dispatch looks a
//! handle up and returns it instead of invoking under the registry borrow, so
//! an operation may itself register or unregister commands.

use vstd::prelude::*;

use crate::audio_hook::RealTimeReaperSession;
use crate::channel::{
    audio_channel_cap, audio_channel_contents, main_channel_cap, main_channel_contents,
    AudioTaskChannel, MainTaskChannel, MainThreadTask,
};
use crate::events::{subject_fresh, EventStreamSubject, MainSubjects, ReentrantPublish};
use crate::misc_newtypes::CommandId;
use vstd::hash_map::HashMapWithView;

verus! {

/// Capacity of the queue which is used to schedule tasks for execution in
/// the main thread. Larger than the audio queue's capacity because producers
/// run more often there.
pub const MAX_MAIN_THREAD_TASKS: usize = 1000;

/// Capacity of the queue which is used to schedule tasks for execution in
/// the real-time audio thread.
pub const MAX_AUDIO_THREAD_TASKS: usize = 500;

/// Whether an action reports an on/off state. A toggleable action carries
/// the handle of a predicate that yields the current state when evaluated.
#[derive(Clone, Copy, PartialEq, Eq, Structural, Debug)]
pub enum ActionKind {
    NotToggleable,
    Toggleable(u64),
}

/// Creates the toggleable action kind from the handle of its state
/// predicate.
pub fn toggleable(is_on: u64) -> (r: ActionKind)
    ensures
        r == ActionKind::Toggleable(is_on),
{
    ActionKind::Toggleable(is_on)
}

/// A registered command: the handle of its repeatedly-callable operation
/// plus its toggle kind.
#[derive(Clone, Copy, PartialEq, Eq, Structural, Debug)]
pub struct Command {
    pub operation: u64,
    pub kind: ActionKind,
}

impl Command {
    /// Creates a command from an operation handle and a toggle kind.
    pub fn new(operation: u64, kind: ActionKind) -> (r: Command)
        ensures
            r == (Command { operation, kind }),
    {
        Command { operation, kind }
    }
}

/// The opaque host registration handles held while the session is active.
/// They exist only between activation and deactivation and are released in
/// reverse order of acquisition.
#[derive(Clone, Copy, PartialEq, Eq, Structural, Debug)]
pub struct ActiveData {
    pub csurf_inst_handle: u64,
    pub audio_hook_register_handle: u64,
}

/// The order in which the host registration handles were acquired during
/// activation: the control surface first, then the audio hook.
pub open spec fn acquisition_order(d: ActiveData) -> Seq<u64> {
    seq![d.csurf_inst_handle, d.audio_hook_register_handle]
}

/// The host's answer to a toggle-state query.
#[derive(Clone, Copy, PartialEq, Eq, Structural, Debug)]
pub enum ToggleActionResult {
    On,
    Off,
    NotRelevant,
}

/// What a toggle-state query resolves to before the state predicate is
/// evaluated: either the command id is not relevant, or the predicate with
/// the given handle must be asked for the current state.
#[derive(Clone, Copy, PartialEq, Eq, Structural, Debug)]
pub enum ToggleQuery {
    NotRelevant,
    AskPredicate(u64),
}

/// What dispatch of a command id resolves to, as a function of the registry.
pub open spec fn dispatch_spec(commands: Map<u32, Command>, id: u32) -> Option<u64> {
    if commands.contains_key(id) {
        Some(commands[id].operation)
    } else {
        None
    }
}

/// What a toggle-state query resolves to, as a function of the registry.
pub open spec fn toggle_query_spec(commands: Map<u32, Command>, id: u32) -> ToggleQuery {
    if commands.contains_key(id) {
        match commands[id].kind {
            ActionKind::Toggleable(is_on) => ToggleQuery::AskPredicate(is_on),
            ActionKind::NotToggleable => ToggleQuery::NotRelevant,
        }
    } else {
        ToggleQuery::NotRelevant
    }
}

/// The cross-thread task-scheduling and event-notification core: command
/// registry, event subjects, the two bounded task queues, and the
/// activation state machine.
pub struct ReaperSession {
    /// The registered commands, by the plain number of their command id.
    pub command_by_id: HashMapWithView<u32, Command>,
    /// The broadcast subjects for all main-thread domain events.
    pub subjects: MainSubjects,
    /// The session view available to the real-time audio thread.
    pub real_time_session: RealTimeReaperSession,
    /// Whether an undo block is currently open.
    pub undo_block_is_active: bool,
    /// The queue of tasks bound for the main thread.
    pub main_thread_task_channel: MainTaskChannel,
    /// The queue of operation handles bound for the real-time audio thread.
    pub audio_thread_task_channel: AudioTaskChannel,
    /// The host registration handles, present exactly while active.
    pub active_data: Option<ActiveData>,
}

impl ReaperSession {
    /// All event subjects of this session are well-formed.
    pub open spec fn wf(self) -> bool {
        &&& self.subjects.wf()
        &&& self.real_time_session.midi_message_received.wf()
    }

    /// Whether the session is currently active (registered with the host).
    pub open spec fn is_active(self) -> bool {
        self.active_data is Some
    }

    /// Creates an inactive session with empty registry, fresh subjects, and
    /// empty task queues of the fixed capacities.
    pub fn new() -> (r: ReaperSession)
        ensures
            r.wf(),
            !r.is_active(),
            !r.undo_block_is_active,
            r.command_by_id@ == Map::<u32, Command>::empty(),
            r.subjects.is_fresh(),
            subject_fresh(r.real_time_session.midi_message_received),
            main_channel_contents(r.main_thread_task_channel) == Seq::<(u64, Option<u64>)>::empty(),
            main_channel_cap(r.main_thread_task_channel) == MAX_MAIN_THREAD_TASKS,
            audio_channel_contents(r.audio_thread_task_channel) == Seq::<u64>::empty(),
            audio_channel_cap(r.audio_thread_task_channel) == MAX_AUDIO_THREAD_TASKS,
    {
        ReaperSession {
            command_by_id: HashMapWithView::new(),
            subjects: MainSubjects::new(),
            real_time_session: RealTimeReaperSession::new(),
            undo_block_is_active: false,
            main_thread_task_channel: MainTaskChannel::new(MAX_MAIN_THREAD_TASKS),
            audio_thread_task_channel: AudioTaskChannel::new(MAX_AUDIO_THREAD_TASKS),
            active_data: None,
        }
    }

    /// Schedules the operation with the given handle for execution in the
    /// main thread, not before `now + waiting_time`. Callable from any
    /// thread. Fails exactly when the queue is at capacity; a rejected task
    /// is never silently dropped, and the queue is unchanged then.
    pub fn execute_in_main_thread(&mut self, now: u64, waiting_time: u64, op: u64) -> (r: Result<
        (),
        (),
    >)
        requires
            now + waiting_time <= u64::MAX,
        ensures
            (*final(self) == ReaperSession {
                main_thread_task_channel: final(self).main_thread_task_channel,
                ..*old(self)
            }),
            main_channel_cap(final(self).main_thread_task_channel) == main_channel_cap(
                old(self).main_thread_task_channel,
            ),
            match r {
                Ok(_) => main_channel_contents(old(self).main_thread_task_channel).len()
                    < main_channel_cap(old(self).main_thread_task_channel) && main_channel_contents(
                    final(self).main_thread_task_channel,
                ) == main_channel_contents(old(self).main_thread_task_channel).push(
                    (op, Some((now + waiting_time) as u64)),
                ),
                Err(_) => main_channel_contents(old(self).main_thread_task_channel).len()
                    >= main_channel_cap(old(self).main_thread_task_channel)
                    && main_channel_contents(final(self).main_thread_task_channel)
                    == main_channel_contents(old(self).main_thread_task_channel),
            },
    {
        let task = MainThreadTask::new(op, Some(now + waiting_time));
        if self.main_thread_task_channel.try_send(task) {
            Ok(())
        } else {
            Err(())
        }
    }

    /// Schedules the operation with the given handle for execution in the
    /// main thread as soon as possible. Callable from any thread. Fails
    /// exactly when the queue is at capacity; the queue is unchanged then.
    pub fn execute_asap_in_main_thread(&mut self, op: u64) -> (r: Result<(), ()>)
        ensures
            (*final(self) == ReaperSession {
                main_thread_task_channel: final(self).main_thread_task_channel,
                ..*old(self)
            }),
            main_channel_cap(final(self).main_thread_task_channel) == main_channel_cap(
                old(self).main_thread_task_channel,
            ),
            match r {
                Ok(_) => main_channel_contents(old(self).main_thread_task_channel).len()
                    < main_channel_cap(old(self).main_thread_task_channel) && main_channel_contents(
                    final(self).main_thread_task_channel,
                ) == main_channel_contents(old(self).main_thread_task_channel).push(
                    (op, Option::<u64>::None),
                ),
                Err(_) => main_channel_contents(old(self).main_thread_task_channel).len()
                    >= main_channel_cap(old(self).main_thread_task_channel)
                    && main_channel_contents(final(self).main_thread_task_channel)
                    == main_channel_contents(old(self).main_thread_task_channel),
            },
    {
        let task = MainThreadTask::new(op, None);
        if self.main_thread_task_channel.try_send(task) {
            Ok(())
        } else {
            Err(())
        }
    }

    /// Schedules the operation with the given handle for execution in the
    /// real-time audio thread as soon as possible. Callable from any thread.
    /// Fails exactly when the queue is at capacity; the queue is unchanged
    /// then.
    pub fn execute_asap_in_audio_thread(&mut self, op: u64) -> (r: Result<(), ()>)
        ensures
            (*final(self) == ReaperSession {
                audio_thread_task_channel: final(self).audio_thread_task_channel,
                ..*old(self)
            }),
            audio_channel_cap(final(self).audio_thread_task_channel) == audio_channel_cap(
                old(self).audio_thread_task_channel,
            ),
            match r {
                Ok(_) => audio_channel_contents(old(self).audio_thread_task_channel).len()
                    < audio_channel_cap(old(self).audio_thread_task_channel)
                    && audio_channel_contents(final(self).audio_thread_task_channel)
                    == audio_channel_contents(old(self).audio_thread_task_channel).push(op),
                Err(_) => audio_channel_contents(old(self).audio_thread_task_channel).len()
                    >= audio_channel_cap(old(self).audio_thread_task_channel)
                    && audio_channel_contents(final(self).audio_thread_task_channel)
                    == audio_channel_contents(old(self).audio_thread_task_channel),
            },
    {
        if self.audio_thread_task_channel.try_send(op) {
            Ok(())
        } else {
            Err(())
        }
    }

    /// Drains and discards every task still queued for the main thread and
    /// returns how many were discarded. The discarded tasks are not
    /// executed.
    fn discard_main_thread_tasks(&mut self) -> (count: usize)
        ensures
            (*final(self) == ReaperSession {
                main_thread_task_channel: final(self).main_thread_task_channel,
                ..*old(self)
            }),
            main_channel_cap(final(self).main_thread_task_channel) == main_channel_cap(
                old(self).main_thread_task_channel,
            ),
            main_channel_contents(final(self).main_thread_task_channel) == Seq::<
                (u64, Option<u64>),
            >::empty(),
            count == main_channel_contents(old(self).main_thread_task_channel).len(),
    {
        let ghost orig = *old(self);
        let n = self.main_thread_task_channel.len();
        let mut i: usize = 0;
        while i < n
            invariant
                orig == *old(self),
                n == main_channel_contents(orig.main_thread_task_channel).len(),
                0 <= i <= n,
                (*self == ReaperSession {
                    main_thread_task_channel: self.main_thread_task_channel,
                    ..orig
                }),
                main_channel_cap(self.main_thread_task_channel) == main_channel_cap(
                    orig.main_thread_task_channel,
                ),
                main_channel_contents(self.main_thread_task_channel) == main_channel_contents(
                    orig.main_thread_task_channel,
                ).skip(i as int),
            decreases n - i,
        {
            let task = self.main_thread_task_channel.try_recv();
            proof {
                let before = main_channel_contents(orig.main_thread_task_channel).skip(i as int);
                assert(before.drop_first() == main_channel_contents(
                    orig.main_thread_task_channel,
                ).skip(i + 1));
            }
            i = i + 1;
        }
        assert(main_channel_contents(self.main_thread_task_channel) =~= Seq::<
            (u64, Option<u64>),
        >::empty());
        n
    }

    /// Drains and discards every task still queued for the audio thread and
    /// returns how many were discarded. The discarded tasks are not
    /// executed.
    fn discard_audio_thread_tasks(&mut self) -> (count: usize)
        ensures
            (*final(self) == ReaperSession {
                audio_thread_task_channel: final(self).audio_thread_task_channel,
                ..*old(self)
            }),
            audio_channel_cap(final(self).audio_thread_task_channel) == audio_channel_cap(
                old(self).audio_thread_task_channel,
            ),
            audio_channel_contents(final(self).audio_thread_task_channel) == Seq::<u64>::empty(),
            count == audio_channel_contents(old(self).audio_thread_task_channel).len(),
    {
        let ghost orig = *old(self);
        let n = self.audio_thread_task_channel.len();
        let mut i: usize = 0;
        while i < n
            invariant
                orig == *old(self),
                n == audio_channel_contents(orig.audio_thread_task_channel).len(),
                0 <= i <= n,
                (*self == ReaperSession {
                    audio_thread_task_channel: self.audio_thread_task_channel,
                    ..orig
                }),
                audio_channel_cap(self.audio_thread_task_channel) == audio_channel_cap(
                    orig.audio_thread_task_channel,
                ),
                audio_channel_contents(self.audio_thread_task_channel) == audio_channel_contents(
                    orig.audio_thread_task_channel,
                ).skip(i as int),
            decreases n - i,
        {
            let task = self.audio_thread_task_channel.try_recv();
            proof {
                let before = audio_channel_contents(orig.audio_thread_task_channel).skip(i as int);
                assert(before.drop_first() == audio_channel_contents(
                    orig.audio_thread_task_channel,
                ).skip(i + 1));
            }
            i = i + 1;
        }
        assert(audio_channel_contents(self.audio_thread_task_channel) =~= Seq::<u64>::empty());
        n
    }

    /// Drains and discards all tasks that accumulated in both queues and
    /// returns how many each queue held. Tasks queued during a period in
    /// which the session was inactive must not be executed later.
    fn discard_pending_tasks(&mut self) -> (counts: (usize, usize))
        ensures
            (*final(self) == ReaperSession {
                main_thread_task_channel: final(self).main_thread_task_channel,
                audio_thread_task_channel: final(self).audio_thread_task_channel,
                ..*old(self)
            }),
            main_channel_cap(final(self).main_thread_task_channel) == main_channel_cap(
                old(self).main_thread_task_channel,
            ),
            audio_channel_cap(final(self).audio_thread_task_channel) == audio_channel_cap(
                old(self).audio_thread_task_channel,
            ),
            main_channel_contents(final(self).main_thread_task_channel) == Seq::<
                (u64, Option<u64>),
            >::empty(),
            audio_channel_contents(final(self).audio_thread_task_channel) == Seq::<u64>::empty(),
            counts.0 == main_channel_contents(old(self).main_thread_task_channel).len(),
            counts.1 == audio_channel_contents(old(self).audio_thread_task_channel).len(),
    {
        let main_count = self.discard_main_thread_tasks();
        let audio_count = self.discard_audio_thread_tasks();
        (main_count, audio_count)
    }

    /// Activates the session: discards every task that piled up while the
    /// session was inactive (so none of them is ever executed) and stores
    /// the host registration handles the caller obtained by registering the
    /// control surface and the audio hook. Activation of an already active
    /// session is a programming error and is excluded by contract. Returns
    /// how many stale tasks each queue held, for reporting.
    pub fn activate(&mut self, csurf_inst_handle: u64, audio_hook_register_handle: u64) -> (r: (
        usize,
        usize,
    ))
        requires
            !old(self).is_active(),
        ensures
            (*final(self) == ReaperSession {
                main_thread_task_channel: final(self).main_thread_task_channel,
                audio_thread_task_channel: final(self).audio_thread_task_channel,
                active_data: Some(
                    ActiveData { csurf_inst_handle, audio_hook_register_handle },
                ),
                ..*old(self)
            }),
            main_channel_cap(final(self).main_thread_task_channel) == main_channel_cap(
                old(self).main_thread_task_channel,
            ),
            audio_channel_cap(final(self).audio_thread_task_channel) == audio_channel_cap(
                old(self).audio_thread_task_channel,
            ),
            main_channel_contents(final(self).main_thread_task_channel) == Seq::<
                (u64, Option<u64>),
            >::empty(),
            audio_channel_contents(final(self).audio_thread_task_channel) == Seq::<u64>::empty(),
            r.0 == main_channel_contents(old(self).main_thread_task_channel).len(),
            r.1 == audio_channel_contents(old(self).audio_thread_task_channel).len(),
            final(self).is_active(),
    {
        let counts = self.discard_pending_tasks();
        self.active_data = Some(ActiveData { csurf_inst_handle, audio_hook_register_handle });
        counts
    }

    /// Deactivates the session: drains and discards every task still queued
    /// in either queue (none of them is executed; how many each queue held
    /// is returned for reporting) and hands back the host registration
    /// handles in the order they must be released: the reverse of the order
    /// in which they were acquired (audio hook first, control surface
    /// second). Deactivation of an inactive session is a programming error
    /// and is excluded by contract.
    pub fn deactivate(&mut self) -> (r: (Vec<u64>, (usize, usize)))
        requires
            old(self).is_active(),
        ensures
            (*final(self) == ReaperSession {
                main_thread_task_channel: final(self).main_thread_task_channel,
                audio_thread_task_channel: final(self).audio_thread_task_channel,
                active_data: None,
                ..*old(self)
            }),
            main_channel_cap(final(self).main_thread_task_channel) == main_channel_cap(
                old(self).main_thread_task_channel,
            ),
            audio_channel_cap(final(self).audio_thread_task_channel) == audio_channel_cap(
                old(self).audio_thread_task_channel,
            ),
            main_channel_contents(final(self).main_thread_task_channel) == Seq::<
                (u64, Option<u64>),
            >::empty(),
            audio_channel_contents(final(self).audio_thread_task_channel) == Seq::<u64>::empty(),
            r.0@ == acquisition_order(old(self).active_data->Some_0).reverse(),
            r.1.0 == main_channel_contents(old(self).main_thread_task_channel).len(),
            r.1.1 == audio_channel_contents(old(self).audio_thread_task_channel).len(),
    {
        let ad = match &self.active_data {
            Some(ad) => *ad,
            None => {
                proof {
                    assert(false);
                }
                ActiveData { csurf_inst_handle: 0, audio_hook_register_handle: 0 }
            },
        };
        let counts = self.discard_pending_tasks();
        self.active_data = None;
        let mut handles: Vec<u64> = Vec::new();
        handles.push(ad.audio_hook_register_handle);
        handles.push(ad.csurf_inst_handle);
        proof {
            assert(handles@ =~= acquisition_order(ad).reverse());
        }
        (handles, counts)
    }

    /// Inserts a command for the host-assigned command id, unless an entry
    /// for that id already exists (a double registration leaves the first
    /// entry in place), and pairs the id with the host's action-registration
    /// handle into the returned capability.
    pub fn register_action(
        &mut self,
        command_id: CommandId,
        operation: u64,
        kind: ActionKind,
        gaccel_handle: u64,
    ) -> (r: RegisteredAction)
        ensures
            (*final(self) == ReaperSession {
                command_by_id: final(self).command_by_id,
                ..*old(self)
            }),
            old(self).command_by_id@.contains_key(command_id.number) ==> final(self).command_by_id@ == old(self).command_by_id@,
            !old(self).command_by_id@.contains_key(command_id.number) ==> final(self).command_by_id@ == old(self).command_by_id@.insert(
                command_id.number,
                Command { operation, kind },
            ),
            r == (RegisteredAction { command_id, gaccel_handle }),
    {
        let key = command_id.get();
        if !self.command_by_id.contains_key(&key) {
            self.command_by_id.insert(key, Command::new(operation, kind));
        }
        RegisteredAction { command_id, gaccel_handle }
    }

    /// Removes the registry entry for the given command id, if there is one.
    /// Returns whether an entry was removed; the caller must then also
    /// remove the host-visible action registration, so the host can no
    /// longer reach a command whose backing operation has been released.
    pub fn unregister_command(&mut self, command_id: CommandId) -> (r: bool)
        ensures
            (*final(self) == ReaperSession {
                command_by_id: final(self).command_by_id,
                ..*old(self)
            }),
            r == old(self).command_by_id@.contains_key(command_id.number),
            final(self).command_by_id@ == old(self).command_by_id@.remove(command_id.number),
    {
        let key = command_id.get();
        let removed = self.command_by_id.remove(&key);
        proof {
            if !old(self).command_by_id@.contains_key(command_id.number) {
                assert(final(self).command_by_id@ =~= old(self).command_by_id@.remove(
                    command_id.number,
                ));
            }
        }
        removed.is_some()
    }

    /// The command-dispatch entry point the host calls back synchronously:
    /// looks the command id up and returns a shared handle to its operation,
    /// or nothing when this registry does not own the id ("not handled", a
    /// normal outcome). The registry borrow is released before the caller
    /// invokes the operation, so the operation may itself register or
    /// unregister commands.
    pub fn hook_command(&self, command_id: CommandId) -> (r: Option<u64>)
        ensures
            r == dispatch_spec(self.command_by_id@, command_id.number),
    {
        let key = command_id.get();
        match self.command_by_id.get(&key) {
            Some(command) => Some(command.operation),
            None => None,
        }
    }

    /// The toggle-state entry point the host calls back synchronously:
    /// resolves the command id to the state predicate that must be asked
    /// now, or to "not relevant" for an unknown id or a non-toggleable
    /// command.
    pub fn toggle_action(&self, command_id: CommandId) -> (r: ToggleQuery)
        ensures
            r == toggle_query_spec(self.command_by_id@, command_id.number),
    {
        let key = command_id.get();
        match self.command_by_id.get(&key) {
            Some(command) => match command.kind {
                ActionKind::Toggleable(is_on) => ToggleQuery::AskPredicate(is_on),
                ActionKind::NotToggleable => ToggleQuery::NotRelevant,
            },
            None => ToggleQuery::NotRelevant,
        }
    }

    /// The post-command entry point the host calls back after an action ran:
    /// begins a publish of the action-invoked subject and returns the
    /// delivery plan; the caller delivers to the subscribers and then ends
    /// the publish. A re-entrant publish of the subject is reported as an
    /// error.
    pub fn hook_post_command(&mut self, command_id: CommandId) -> (r: Result<
        Vec<u64>,
        ReentrantPublish,
    >)
        requires
            old(self).wf(),
        ensures
            final(self).wf(),
            (*final(self) == ReaperSession {
                subjects: final(self).subjects,
                ..*old(self)
            }),
            (final(self).subjects == MainSubjects {
                action_invoked: final(self).subjects.action_invoked,
                ..old(self).subjects
            }),
            final(self).subjects.action_invoked.subscribers() == old(self).subjects.action_invoked.subscribers(),
            match r {
                Ok(plan) => !old(self).subjects.action_invoked.is_publishing() && final(self).subjects.action_invoked.is_publishing() && plan@ == old(self).subjects.action_invoked.subscribers(),
                Err(_) => old(self).subjects.action_invoked.is_publishing() && final(self).subjects.action_invoked == old(self).subjects.action_invoked,
            },
    {
        self.subjects.action_invoked.begin_publish()
    }

    /// The real-time audio callback's decision step, invoked twice per audio
    /// buffer. In the "post" phase nothing happens. In the "pre" phase,
    /// exactly one queued audio-thread task is taken (if any is queued, even
    /// if more are), and MIDI input is to be read and forwarded only if the
    /// MIDI subject has at least one subscriber.
    pub fn on_audio_buffer(&mut self, is_post: bool) -> (r: AudioCycleOutcome)
        ensures
            (*final(self) == ReaperSession {
                audio_thread_task_channel: final(self).audio_thread_task_channel,
                ..*old(self)
            }),
            audio_channel_cap(final(self).audio_thread_task_channel) == audio_channel_cap(
                old(self).audio_thread_task_channel,
            ),
            is_post ==> *final(self) == *old(self) && r.task is None && !r.read_midi,
            !is_post ==> match r.task {
                Some(op) => audio_channel_contents(old(self).audio_thread_task_channel).len() > 0
                    && op == audio_channel_contents(old(self).audio_thread_task_channel)[0]
                    && audio_channel_contents(final(self).audio_thread_task_channel)
                    == audio_channel_contents(old(self).audio_thread_task_channel).drop_first(),
                None => audio_channel_contents(old(self).audio_thread_task_channel).len() == 0
                    && audio_channel_contents(final(self).audio_thread_task_channel)
                    == audio_channel_contents(old(self).audio_thread_task_channel),
            },
            !is_post ==> r.read_midi == (
            old(self).real_time_session.midi_message_received.subscribers().len() > 0),
    {
        if is_post {
            return AudioCycleOutcome { task: None, read_midi: false };
        }
        let task = self.audio_thread_task_channel.try_recv();
        let read_midi = self.real_time_session.midi_message_received.subscribed_size() > 0;
        AudioCycleOutcome { task, read_midi }
    }

    /// The broadcast subject for this event kind, for subscribing and
    /// publishing; everything else in the session is untouched.
    pub fn project_switched(&mut self) -> (r: &mut EventStreamSubject)
        ensures
            *r == old(self).subjects.project_switched,
            (*final(self) == ReaperSession { subjects: final(self).subjects, ..*old(self) }),
            (final(self).subjects == MainSubjects { project_switched: *final(r), ..old(self).subjects }),
    {
        &mut self.subjects.project_switched
    }

    /// The broadcast subject for this event kind, for subscribing and
    /// publishing; everything else in the session is untouched.
    pub fn fx_opened(&mut self) -> (r: &mut EventStreamSubject)
        ensures
            *r == old(self).subjects.fx_opened,
            (*final(self) == ReaperSession { subjects: final(self).subjects, ..*old(self) }),
            (final(self).subjects == MainSubjects { fx_opened: *final(r), ..old(self).subjects }),
    {
        &mut self.subjects.fx_opened
    }

    /// The broadcast subject for this event kind, for subscribing and
    /// publishing; everything else in the session is untouched.
    pub fn fx_focused(&mut self) -> (r: &mut EventStreamSubject)
        ensures
            *r == old(self).subjects.fx_focused,
            (*final(self) == ReaperSession { subjects: final(self).subjects, ..*old(self) }),
            (final(self).subjects == MainSubjects { fx_focused: *final(r), ..old(self).subjects }),
    {
        &mut self.subjects.fx_focused
    }

    /// The broadcast subject for this event kind, for subscribing and
    /// publishing; everything else in the session is untouched.
    pub fn track_added(&mut self) -> (r: &mut EventStreamSubject)
        ensures
            *r == old(self).subjects.track_added,
            (*final(self) == ReaperSession { subjects: final(self).subjects, ..*old(self) }),
            (final(self).subjects == MainSubjects { track_added: *final(r), ..old(self).subjects }),
    {
        &mut self.subjects.track_added
    }

    /// The broadcast subject for this event kind, for subscribing and
    /// publishing; everything else in the session is untouched.
    pub fn track_removed(&mut self) -> (r: &mut EventStreamSubject)
        ensures
            *r == old(self).subjects.track_removed,
            (*final(self) == ReaperSession { subjects: final(self).subjects, ..*old(self) }),
            (final(self).subjects == MainSubjects { track_removed: *final(r), ..old(self).subjects }),
    {
        &mut self.subjects.track_removed
    }

    /// The broadcast subject for this event kind, for subscribing and
    /// publishing; everything else in the session is untouched.
    pub fn track_name_changed(&mut self) -> (r: &mut EventStreamSubject)
        ensures
            *r == old(self).subjects.track_name_changed,
            (*final(self) == ReaperSession { subjects: final(self).subjects, ..*old(self) }),
            (final(self).subjects == MainSubjects { track_name_changed: *final(r), ..old(self).subjects }),
    {
        &mut self.subjects.track_name_changed
    }

    /// The broadcast subject for this event kind, for subscribing and
    /// publishing; everything else in the session is untouched.
    pub fn master_tempo_changed(&mut self) -> (r: &mut EventStreamSubject)
        ensures
            *r == old(self).subjects.master_tempo_changed,
            (*final(self) == ReaperSession { subjects: final(self).subjects, ..*old(self) }),
            (final(self).subjects == MainSubjects { master_tempo_changed: *final(r), ..old(self).subjects }),
    {
        &mut self.subjects.master_tempo_changed
    }

    /// The broadcast subject for this event kind, for subscribing and
    /// publishing; everything else in the session is untouched.
    pub fn fx_added(&mut self) -> (r: &mut EventStreamSubject)
        ensures
            *r == old(self).subjects.fx_added,
            (*final(self) == ReaperSession { subjects: final(self).subjects, ..*old(self) }),
            (final(self).subjects == MainSubjects { fx_added: *final(r), ..old(self).subjects }),
    {
        &mut self.subjects.fx_added
    }

    /// The broadcast subject for this event kind, for subscribing and
    /// publishing; everything else in the session is untouched.
    pub fn fx_enabled_changed(&mut self) -> (r: &mut EventStreamSubject)
        ensures
            *r == old(self).subjects.fx_enabled_changed,
            (*final(self) == ReaperSession { subjects: final(self).subjects, ..*old(self) }),
            (final(self).subjects == MainSubjects { fx_enabled_changed: *final(r), ..old(self).subjects }),
    {
        &mut self.subjects.fx_enabled_changed
    }

    /// The broadcast subject for this event kind, for subscribing and
    /// publishing; everything else in the session is untouched.
    pub fn fx_reordered(&mut self) -> (r: &mut EventStreamSubject)
        ensures
            *r == old(self).subjects.fx_reordered,
            (*final(self) == ReaperSession { subjects: final(self).subjects, ..*old(self) }),
            (final(self).subjects == MainSubjects { fx_reordered: *final(r), ..old(self).subjects }),
    {
        &mut self.subjects.fx_reordered
    }

    /// The broadcast subject for this event kind, for subscribing and
    /// publishing; everything else in the session is untouched.
    pub fn fx_removed(&mut self) -> (r: &mut EventStreamSubject)
        ensures
            *r == old(self).subjects.fx_removed,
            (*final(self) == ReaperSession { subjects: final(self).subjects, ..*old(self) }),
            (final(self).subjects == MainSubjects { fx_removed: *final(r), ..old(self).subjects }),
    {
        &mut self.subjects.fx_removed
    }

    /// The broadcast subject for this event kind, for subscribing and
    /// publishing; everything else in the session is untouched.
    pub fn fx_parameter_value_changed(&mut self) -> (r: &mut EventStreamSubject)
        ensures
            *r == old(self).subjects.fx_parameter_value_changed,
            (*final(self) == ReaperSession { subjects: final(self).subjects, ..*old(self) }),
            (final(self).subjects == MainSubjects { fx_parameter_value_changed: *final(r), ..old(self).subjects }),
    {
        &mut self.subjects.fx_parameter_value_changed
    }

    /// The broadcast subject for this event kind, for subscribing and
    /// publishing; everything else in the session is untouched.
    pub fn track_input_monitoring_changed(&mut self) -> (r: &mut EventStreamSubject)
        ensures
            *r == old(self).subjects.track_input_monitoring_changed,
            (*final(self) == ReaperSession { subjects: final(self).subjects, ..*old(self) }),
            (final(self).subjects == MainSubjects { track_input_monitoring_changed: *final(r), ..old(self).subjects }),
    {
        &mut self.subjects.track_input_monitoring_changed
    }

    /// The broadcast subject for this event kind, for subscribing and
    /// publishing; everything else in the session is untouched.
    pub fn track_input_changed(&mut self) -> (r: &mut EventStreamSubject)
        ensures
            *r == old(self).subjects.track_input_changed,
            (*final(self) == ReaperSession { subjects: final(self).subjects, ..*old(self) }),
            (final(self).subjects == MainSubjects { track_input_changed: *final(r), ..old(self).subjects }),
    {
        &mut self.subjects.track_input_changed
    }

    /// The broadcast subject for this event kind, for subscribing and
    /// publishing; everything else in the session is untouched.
    pub fn track_volume_changed(&mut self) -> (r: &mut EventStreamSubject)
        ensures
            *r == old(self).subjects.track_volume_changed,
            (*final(self) == ReaperSession { subjects: final(self).subjects, ..*old(self) }),
            (final(self).subjects == MainSubjects { track_volume_changed: *final(r), ..old(self).subjects }),
    {
        &mut self.subjects.track_volume_changed
    }

    /// The broadcast subject for this event kind, for subscribing and
    /// publishing; everything else in the session is untouched.
    pub fn track_pan_changed(&mut self) -> (r: &mut EventStreamSubject)
        ensures
            *r == old(self).subjects.track_pan_changed,
            (*final(self) == ReaperSession { subjects: final(self).subjects, ..*old(self) }),
            (final(self).subjects == MainSubjects { track_pan_changed: *final(r), ..old(self).subjects }),
    {
        &mut self.subjects.track_pan_changed
    }

    /// The broadcast subject for this event kind, for subscribing and
    /// publishing; everything else in the session is untouched.
    pub fn track_selected_changed(&mut self) -> (r: &mut EventStreamSubject)
        ensures
            *r == old(self).subjects.track_selected_changed,
            (*final(self) == ReaperSession { subjects: final(self).subjects, ..*old(self) }),
            (final(self).subjects == MainSubjects { track_selected_changed: *final(r), ..old(self).subjects }),
    {
        &mut self.subjects.track_selected_changed
    }

    /// The broadcast subject for this event kind, for subscribing and
    /// publishing; everything else in the session is untouched.
    pub fn track_mute_changed(&mut self) -> (r: &mut EventStreamSubject)
        ensures
            *r == old(self).subjects.track_mute_changed,
            (*final(self) == ReaperSession { subjects: final(self).subjects, ..*old(self) }),
            (final(self).subjects == MainSubjects { track_mute_changed: *final(r), ..old(self).subjects }),
    {
        &mut self.subjects.track_mute_changed
    }

    /// The broadcast subject for this event kind, for subscribing and
    /// publishing; everything else in the session is untouched.
    pub fn track_solo_changed(&mut self) -> (r: &mut EventStreamSubject)
        ensures
            *r == old(self).subjects.track_solo_changed,
            (*final(self) == ReaperSession { subjects: final(self).subjects, ..*old(self) }),
            (final(self).subjects == MainSubjects { track_solo_changed: *final(r), ..old(self).subjects }),
    {
        &mut self.subjects.track_solo_changed
    }

    /// The broadcast subject for this event kind, for subscribing and
    /// publishing; everything else in the session is untouched.
    pub fn track_arm_changed(&mut self) -> (r: &mut EventStreamSubject)
        ensures
            *r == old(self).subjects.track_arm_changed,
            (*final(self) == ReaperSession { subjects: final(self).subjects, ..*old(self) }),
            (final(self).subjects == MainSubjects { track_arm_changed: *final(r), ..old(self).subjects }),
    {
        &mut self.subjects.track_arm_changed
    }

    /// The broadcast subject for this event kind, for subscribing and
    /// publishing; everything else in the session is untouched.
    pub fn track_send_volume_changed(&mut self) -> (r: &mut EventStreamSubject)
        ensures
            *r == old(self).subjects.track_send_volume_changed,
            (*final(self) == ReaperSession { subjects: final(self).subjects, ..*old(self) }),
            (final(self).subjects == MainSubjects { track_send_volume_changed: *final(r), ..old(self).subjects }),
    {
        &mut self.subjects.track_send_volume_changed
    }

    /// The broadcast subject for this event kind, for subscribing and
    /// publishing; everything else in the session is untouched.
    pub fn track_send_pan_changed(&mut self) -> (r: &mut EventStreamSubject)
        ensures
            *r == old(self).subjects.track_send_pan_changed,
            (*final(self) == ReaperSession { subjects: final(self).subjects, ..*old(self) }),
            (final(self).subjects == MainSubjects { track_send_pan_changed: *final(r), ..old(self).subjects }),
    {
        &mut self.subjects.track_send_pan_changed
    }

    /// The broadcast subject for this event kind, for subscribing and
    /// publishing; everything else in the session is untouched.
    pub fn action_invoked(&mut self) -> (r: &mut EventStreamSubject)
        ensures
            *r == old(self).subjects.action_invoked,
            (*final(self) == ReaperSession { subjects: final(self).subjects, ..*old(self) }),
            (final(self).subjects == MainSubjects { action_invoked: *final(r), ..old(self).subjects }),
    {
        &mut self.subjects.action_invoked
    }

    /// Whether an undo block is currently open.
    pub fn undoable_action_is_running(&self) -> (r: bool)
        ensures
            r == self.undo_block_is_active,
    {
        self.undo_block_is_active
    }

    /// Opens an undo block unless one is already open. Returns whether a new
    /// block was opened (the caller then tells the host to begin the undo
    /// block).
    pub fn enter_undo_block_internal(&mut self) -> (r: bool)
        ensures
            (*final(self) == ReaperSession { undo_block_is_active: true, ..*old(self) }),
            r == !old(self).undo_block_is_active,
    {
        if self.undo_block_is_active {
            return false;
        }
        self.undo_block_is_active = true;
        true
    }

    /// Closes the open undo block, if any. Returns whether a block was
    /// closed (the caller then tells the host to end the undo block).
    pub fn leave_undo_block_internal(&mut self) -> (r: bool)
        ensures
            (*final(self) == ReaperSession { undo_block_is_active: false, ..*old(self) }),
            r == old(self).undo_block_is_active,
    {
        if !self.undo_block_is_active {
            return false;
        }
        self.undo_block_is_active = false;
        true
    }
}

/// The outcome of one audio-buffer callback invocation: the at most one task
/// taken from the audio queue, and whether MIDI input is to be read and
/// forwarded this cycle.
#[derive(Clone, Copy, PartialEq, Eq, Structural, Debug)]
pub struct AudioCycleOutcome {
    pub task: Option<u64>,
    pub read_midi: bool,
}

/// Maps the evaluated toggle-state predicate to the host's answer: the query
/// reflects the predicate's value at query time, not at registration time.
pub fn toggle_action_result(query: ToggleQuery, is_on: bool) -> (r: ToggleActionResult)
    ensures
        query is NotRelevant ==> r == ToggleActionResult::NotRelevant,
        query is AskPredicate && is_on ==> r == ToggleActionResult::On,
        query is AskPredicate && !is_on ==> r == ToggleActionResult::Off,
{
    match query {
        ToggleQuery::NotRelevant => ToggleActionResult::NotRelevant,
        ToggleQuery::AskPredicate(_) => if is_on {
            ToggleActionResult::On
        } else {
            ToggleActionResult::Off
        },
    }
}

/// An opaque capability pairing a registered command's id with the host-side
/// action-registration handle; unregistration removes both the dispatch
/// capability and the user-visible action entry.
#[derive(Clone, Copy, PartialEq, Eq, Structural, Debug)]
pub struct RegisteredAction {
    pub command_id: CommandId,
    pub gaccel_handle: u64,
}

impl RegisteredAction {
    /// Creates the capability from a command id and the host's
    /// action-registration handle.
    pub fn new(command_id: CommandId, gaccel_handle: u64) -> (r: RegisteredAction)
        ensures
            r == (RegisteredAction { command_id, gaccel_handle }),
    {
        RegisteredAction { command_id, gaccel_handle }
    }

    /// Unregisters the command this capability stands for: removes the
    /// registry entry and hands back the host-side action-registration
    /// handle the caller must release, or nothing if the command was no
    /// longer registered.
    pub fn unregister(&self, session: &mut ReaperSession) -> (r: Option<u64>)
        ensures
            (*final(session) == ReaperSession {
                command_by_id: final(session).command_by_id,
                ..*old(session)
            }),
            final(session).command_by_id@ == old(session).command_by_id@.remove(
                self.command_id.number,
            ),
            r == if old(session).command_by_id@.contains_key(self.command_id.number) {
                Some(self.gaccel_handle)
            } else {
                Option::<u64>::None
            },
    {
        if session.unregister_command(self.command_id) {
            Some(self.gaccel_handle)
        } else {
            None
        }
    }
}


/// Registering a command and later unregistering it leaves the registry
/// without the id: dispatch for that id then resolves to "not handled" and
/// a toggle-state query to "not relevant".
pub proof fn lemma_unregistered_command_not_reachable(commands: Map<u32, Command>, id: u32)
    ensures
        dispatch_spec(commands.remove(id), id) is None,
        toggle_query_spec(commands.remove(id), id) == ToggleQuery::NotRelevant,
{
    assert(!commands.remove(id).contains_key(id));
}

} // verus!
