//! The real-time audio path: the per-buffer callback's decision logic and the
//! forwarding of raw MIDI input into a broadcast subject.
//!
//! All work happens in the "pre" phase of each audio buffer: at most one
//! queued audio-thread task is taken per invocation, and buffered short MIDI
//! messages are forwarded to the `midi_message_received` subject only if it
//! has at least one subscriber, with active-sensing messages filtered out.

use vstd::prelude::*;

use crate::events::EventStreamSubject;
use helgoboss_midi::ShortMessage;
use helgoboss_midi::ShortMessageFactory;
use helgoboss_midi::StructuredShortMessage;

verus! {

/// A short MIDI message as three plain bytes: a status byte (which is always
/// at or above 0x80 for a complete message) and two 7-bit data bytes.
#[derive(Clone, Copy, PartialEq, Eq, Structural, Debug, Hash)]
pub struct MidiShortMsg {
    pub status: u8,
    pub data1: u8,
    pub data2: u8,
}

impl MidiShortMsg {
    /// A complete short message: status byte set, data bytes within 7 bits.
    pub open spec fn wf(self) -> bool {
        &&& self.status >= 0x80
        &&& self.data1 < 0x80
        &&& self.data2 < 0x80
    }
}

/// The status byte every active-sensing message carries.
pub const ACTIVE_SENSING_STATUS: u8 = 0xFE;

/// Relies on helgoboss_midi's `ShortMessage::to_structured`: for a status
/// byte at or above 0x80 the message type is the whole byte when its high
/// nibble is 0xF (system messages) and the high nibble otherwise (channel
/// messages), so the structured form is active sensing exactly for the
/// status byte 0xFE.
#[verifier::external_body]
fn short_msg_is_active_sensing(status: u8, data1: u8, data2: u8) -> (r: bool)
    requires
        status >= 0x80,
        data1 < 0x80,
        data2 < 0x80,
    ensures
        r == (status == 0xFE),
{
    let msg: helgoboss_midi::RawShortMessage = match ShortMessageFactory::from_bytes((
        status,
        helgoboss_midi::U7::new(data1),
        helgoboss_midi::U7::new(data2),
    )) {
        Ok(m) => m,
        Err(_) => return false,
    };
    matches!(msg.to_structured(), StructuredShortMessage::ActiveSensing)
}

/// A MIDI event: a message plus the frame offset at which it occurred within
/// the audio buffer.
#[derive(Clone, Copy, PartialEq, Eq, Structural, Debug, Hash)]
pub struct MidiEvent<M> {
    pub frame_offset: u32,
    pub msg: M,
}

impl<M> MidiEvent<M> {
    /// Creates a MIDI event from a frame offset and a message.
    pub fn new(frame_offset: u32, msg: M) -> (r: MidiEvent<M>)
        ensures
            r == (MidiEvent { frame_offset, msg }),
    {
        MidiEvent { frame_offset, msg }
    }
}

/// Whether a buffered MIDI event is forwarded to subscribers: everything but
/// active sensing is.
pub open spec fn midi_event_forwarded(e: MidiEvent<MidiShortMsg>) -> bool {
    e.msg.status != 0xFE
}

/// Keeps, in order, exactly the buffered MIDI events that are forwarded to
/// subscribers: all events except active-sensing messages.
pub fn filter_midi_events(events: &Vec<MidiEvent<MidiShortMsg>>) -> (r: Vec<
    MidiEvent<MidiShortMsg>,
>)
    requires
        forall|i: int| 0 <= i < events@.len() ==> (#[trigger] events@[i]).msg.wf(),
    ensures
        r@ == events@.filter(|e: MidiEvent<MidiShortMsg>| midi_event_forwarded(e)),
{
    let n = events.len();
    let mut r: Vec<MidiEvent<MidiShortMsg>> = Vec::new();
    let mut i: usize = 0;
    proof {
        assert(events@.take(0).filter(|e: MidiEvent<MidiShortMsg>| midi_event_forwarded(e))
            =~= Seq::<MidiEvent<MidiShortMsg>>::empty());
    }
    while i < n
        invariant
            n == events@.len(),
            0 <= i <= n,
            forall|j: int| 0 <= j < events@.len() ==> (#[trigger] events@[j]).msg.wf(),
            r@ == events@.take(i as int).filter(
                |e: MidiEvent<MidiShortMsg>| midi_event_forwarded(e),
            ),
        decreases n - i,
    {
        let e = events[i];
        let keep = !short_msg_is_active_sensing(e.msg.status, e.msg.data1, e.msg.data2);
        proof {
            let pred = |ev: MidiEvent<MidiShortMsg>| midi_event_forwarded(ev);
            let single = seq![events@[i as int]];
            assert(events@.take(i + 1) =~= events@.take(i as int) + single);
            Seq::filter_distributes_over_add(events@.take(i as int), single, pred);
            reveal_with_fuel(Seq::filter, 2);
            assert(single.drop_last() =~= Seq::<MidiEvent<MidiShortMsg>>::empty());
            assert(Seq::<MidiEvent<MidiShortMsg>>::empty().filter(pred) == Seq::<
                MidiEvent<MidiShortMsg>,
            >::empty());
            assert(single.len() == 1 && single.last() == events@[i as int]);
            assert(single.filter(pred) == if pred(events@[i as int]) {
                Seq::<MidiEvent<MidiShortMsg>>::empty().push(events@[i as int])
            } else {
                Seq::<MidiEvent<MidiShortMsg>>::empty()
            });
            if pred(events@[i as int]) {
                assert(events@.take(i + 1).filter(pred) =~= events@.take(i as int).filter(
                    pred,
                ).push(events@[i as int]));
            } else {
                assert(events@.take(i + 1).filter(pred) =~= events@.take(i as int).filter(pred));
            }
        }
        if keep {
            r.push(e);
        }
        i = i + 1;
    }
    proof {
        assert(events@.take(n as int) =~= events@);
    }
    r
}

/// The session view available to operations running on the real-time audio
/// thread: the broadcast subject for raw MIDI input.
pub struct RealTimeReaperSession {
    /// Notified with each forwarded short MIDI message read in the audio
    /// callback.
    pub midi_message_received: EventStreamSubject,
}

impl RealTimeReaperSession {
    /// Creates the real-time session view with a fresh MIDI subject.
    pub fn new() -> (r: RealTimeReaperSession)
        ensures
            crate::events::subject_fresh(r.midi_message_received),
    {
        RealTimeReaperSession { midi_message_received: EventStreamSubject::new() }
    }

    /// The subject notified with each forwarded short MIDI message, for
    /// subscribing and publishing.
    pub fn midi_message_received(&mut self) -> (r: &mut EventStreamSubject)
        ensures
            *r == old(self).midi_message_received,
            *final(self) == (RealTimeReaperSession { midi_message_received: *final(r) }),
    {
        &mut self.midi_message_received
    }
}

} // verus!
