//! The two fixed-capacity, non-blocking task queues: one for work to run on
//! the main thread (optionally not before a deadline), one for work to run on
//! the real-time audio thread.
//!
//! Work items are carried as plain operation handles (`u64`); the caller that
//! drains a queue resolves a handle to the operation it stands for. The queues
//! themselves are `crossbeam_channel` bounded channels, held with both halves
//! together so they are never disconnected; what a queue holds is described by
//! the `main_channel_contents` and `audio_channel_contents` spec functions.

use vstd::prelude::*;

verus! {

/// A task to be executed in the main thread: an operation handle plus an
/// optional earliest-execution time (a caller-supplied timestamp; the task
/// must not run in a drain cycle whose current time is below it).
#[derive(Clone, Copy, PartialEq, Eq, Structural, Debug)]
pub struct MainThreadTask {
    pub op: u64,
    pub desired_execution_time: Option<u64>,
}

impl MainThreadTask {
    /// Creates a main-thread task from an operation handle and an optional
    /// earliest-execution time.
    pub fn new(op: u64, desired_execution_time: Option<u64>) -> (r: MainThreadTask)
        ensures
            r == (MainThreadTask { op, desired_execution_time }),
    {
        MainThreadTask { op, desired_execution_time }
    }

    /// The operation handle and the optional deadline, as one queue element.
    pub open spec fn as_pair(self) -> (u64, Option<u64>) {
        (self.op, self.desired_execution_time)
    }
}

/// The fixed-capacity queue of tasks bound for the main thread.
///
/// Holds both halves of one `crossbeam_channel` bounded channel, so the
/// channel can never be observed disconnected through this type.
#[verifier::external_body]
pub struct MainTaskChannel {
    sender: crossbeam_channel::Sender<(u64, Option<u64>)>,
    receiver: crossbeam_channel::Receiver<(u64, Option<u64>)>,
}

/// What the main-thread task queue currently holds, head first.
pub uninterp spec fn main_channel_contents(c: MainTaskChannel) -> Seq<(u64, Option<u64>)>;

/// The fixed capacity the main-thread task queue was created with.
pub uninterp spec fn main_channel_cap(c: MainTaskChannel) -> nat;

impl MainTaskChannel {
    /// Relies on crossbeam_channel::bounded: creates an empty queue with the
    /// given fixed capacity.
    #[verifier::external_body]
    pub fn new(cap: usize) -> (c: MainTaskChannel)
        ensures
            main_channel_contents(c) == Seq::<(u64, Option<u64>)>::empty(),
            main_channel_cap(c) == cap,
    {
        let (sender, receiver) = crossbeam_channel::bounded(cap);
        MainTaskChannel { sender, receiver }
    }

    /// Relies on crossbeam_channel::Sender::try_send: appends at the tail and
    /// succeeds exactly when the queue is below its capacity (both halves are
    /// owned here, so the channel is never disconnected; a bounded channel
    /// never holds more than the capacity it was created with).
    #[verifier::external_body]
    pub fn try_send(&mut self, task: MainThreadTask) -> (r: bool)
        ensures
            main_channel_cap(*final(self)) == main_channel_cap(*old(self)),
            main_channel_contents(*old(self)).len() <= main_channel_cap(*old(self)),
            r == (main_channel_contents(*old(self)).len() < main_channel_cap(*old(self))),
            r ==> main_channel_contents(*final(self)) == main_channel_contents(*old(self)).push(
                task.as_pair(),
            ),
            !r ==> main_channel_contents(*final(self)) == main_channel_contents(*old(self)),
    {
        self.sender.try_send((task.op, task.desired_execution_time)).is_ok()
    }

    /// Relies on crossbeam_channel::Receiver::try_recv: pops the head if the
    /// queue is not empty (a bounded channel never holds more than the
    /// capacity it was created with).
    #[verifier::external_body]
    pub fn try_recv(&mut self) -> (r: Option<MainThreadTask>)
        ensures
            main_channel_cap(*final(self)) == main_channel_cap(*old(self)),
            main_channel_contents(*old(self)).len() <= main_channel_cap(*old(self)),
            match r {
                Some(task) => main_channel_contents(*old(self)).len() > 0 && task.as_pair()
                    == main_channel_contents(*old(self))[0] && main_channel_contents(*final(self))
                    == main_channel_contents(*old(self)).drop_first(),
                None => main_channel_contents(*old(self)).len() == 0 && main_channel_contents(
                    *final(self),
                ) == main_channel_contents(*old(self)),
            },
    {
        match self.receiver.try_recv() {
            Ok((op, desired_execution_time)) => Some(
                MainThreadTask { op, desired_execution_time },
            ),
            Err(_) => None,
        }
    }

    /// Relies on crossbeam_channel::Receiver::len: the number of queued tasks.
    #[verifier::external_body]
    pub fn len(&self) -> (r: usize)
        ensures
            r == main_channel_contents(*self).len(),
            r <= main_channel_cap(*self),
    {
        self.receiver.len()
    }
}

/// The fixed-capacity queue of operation handles bound for the real-time
/// audio thread.
///
/// Holds both halves of one `crossbeam_channel` bounded channel, so the
/// channel can never be observed disconnected through this type.
#[verifier::external_body]
pub struct AudioTaskChannel {
    sender: crossbeam_channel::Sender<u64>,
    receiver: crossbeam_channel::Receiver<u64>,
}

/// What the audio-thread task queue currently holds, head first.
pub uninterp spec fn audio_channel_contents(c: AudioTaskChannel) -> Seq<u64>;

/// The fixed capacity the audio-thread task queue was created with.
pub uninterp spec fn audio_channel_cap(c: AudioTaskChannel) -> nat;

impl AudioTaskChannel {
    /// Relies on crossbeam_channel::bounded: creates an empty queue with the
    /// given fixed capacity.
    #[verifier::external_body]
    pub fn new(cap: usize) -> (c: AudioTaskChannel)
        ensures
            audio_channel_contents(c) == Seq::<u64>::empty(),
            audio_channel_cap(c) == cap,
    {
        let (sender, receiver) = crossbeam_channel::bounded(cap);
        AudioTaskChannel { sender, receiver }
    }

    /// Relies on crossbeam_channel::Sender::try_send: appends at the tail and
    /// succeeds exactly when the queue is below its capacity (both halves are
    /// owned here, so the channel is never disconnected; a bounded channel
    /// never holds more than the capacity it was created with).
    #[verifier::external_body]
    pub fn try_send(&mut self, op: u64) -> (r: bool)
        ensures
            audio_channel_cap(*final(self)) == audio_channel_cap(*old(self)),
            audio_channel_contents(*old(self)).len() <= audio_channel_cap(*old(self)),
            r == (audio_channel_contents(*old(self)).len() < audio_channel_cap(*old(self))),
            r ==> audio_channel_contents(*final(self)) == audio_channel_contents(*old(self)).push(
                op,
            ),
            !r ==> audio_channel_contents(*final(self)) == audio_channel_contents(*old(self)),
    {
        self.sender.try_send(op).is_ok()
    }

    /// Relies on crossbeam_channel::Receiver::try_recv: pops the head if the
    /// queue is not empty (a bounded channel never holds more than the
    /// capacity it was created with).
    #[verifier::external_body]
    pub fn try_recv(&mut self) -> (r: Option<u64>)
        ensures
            audio_channel_cap(*final(self)) == audio_channel_cap(*old(self)),
            audio_channel_contents(*old(self)).len() <= audio_channel_cap(*old(self)),
            match r {
                Some(op) => audio_channel_contents(*old(self)).len() > 0 && op
                    == audio_channel_contents(*old(self))[0] && audio_channel_contents(
                    *final(self),
                ) == audio_channel_contents(*old(self)).drop_first(),
                None => audio_channel_contents(*old(self)).len() == 0 && audio_channel_contents(
                    *final(self),
                ) == audio_channel_contents(*old(self)),
            },
    {
        self.receiver.try_recv().ok()
    }

    /// Relies on crossbeam_channel::Receiver::len: the number of queued tasks.
    #[verifier::external_body]
    pub fn len(&self) -> (r: usize)
        ensures
            r == audio_channel_contents(*self).len(),
            r <= audio_channel_cap(*self),
    {
        self.receiver.len()
    }
}

} // verus!
