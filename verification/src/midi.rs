//! Owned MIDI event types for exchanging messages with the host.

use vstd::prelude::*;

use vstd::slice::slice_subrange;

verus! {

/// The maximum number of message bytes a long MIDI event can hold.
pub const LONG_MIDI_EVENT_MAX_LENGTH: usize = 256;

/// A frame offset within an audio buffer at which a MIDI event occurred.
#[derive(Clone, Copy, PartialEq, Eq, Structural, Debug, Hash)]
pub struct MidiFrameOffset {
    pub offset: u32,
}

impl MidiFrameOffset {
    /// Creates the frame offset.
    pub fn new(offset: u32) -> (r: MidiFrameOffset)
        ensures
            r.offset == offset,
    {
        MidiFrameOffset { offset }
    }

    /// Returns the raw integer the host's API uses for this offset.
    pub fn to_raw(&self) -> (r: i32)
        requires
            self.offset <= i32::MAX,
        ensures
            r == self.offset,
    {
        self.offset as i32
    }

    /// Returns the plain offset.
    pub fn get(&self) -> (r: u32)
        ensures
            r == self.offset,
    {
        self.offset
    }
}

/// An owned MIDI event which can hold more than just the usual 3-byte short
/// MIDI message: up to 256 message bytes, of which the first `size` are the
/// message.
#[derive(Clone, Copy, Debug, Hash)]
pub struct LongMidiEvent {
    frame_offset: i32,
    size: i32,
    midi_message: [u8; 256],
}

impl LongMidiEvent {
    /// The message bytes of this event, as a sequence.
    pub closed spec fn message_bytes(self) -> Seq<u8> {
        self.midi_message@.take(self.size as int)
    }

    /// The frame offset of this event.
    pub closed spec fn spec_frame_offset(self) -> int {
        self.frame_offset as int
    }

    /// The size field never exceeds the fixed maximum.
    pub closed spec fn wf(self) -> bool {
        0 <= self.size <= 256
    }

    /// Creates a long MIDI event directly from an owned byte array. The size
    /// must be given because the actual message is usually shorter than the
    /// maximum; it must not exceed the maximum.
    pub fn new(frame_offset: MidiFrameOffset, midi_message: [u8; 256], size: u32) -> (r:
        LongMidiEvent)
        requires
            size <= 256,
            frame_offset.offset <= i32::MAX,
        ensures
            r.wf(),
            r.message_bytes() == midi_message@.take(size as int),
            r.spec_frame_offset() == frame_offset.offset,
    {
        LongMidiEvent { frame_offset: frame_offset.to_raw(), size: size as i32, midi_message }
    }

    /// Attempts to create a long MIDI event from the given slice, copying
    /// its bytes. Fails exactly when the slice is longer than the supported
    /// maximum.
    pub fn try_from_slice(frame_offset: MidiFrameOffset, midi_message: &[u8]) -> (r: Result<
        LongMidiEvent,
        &'static str,
    >)
        requires
            frame_offset.offset <= i32::MAX,
        ensures
            match r {
                Ok(event) => midi_message@.len() <= 256 && event.wf() && event.message_bytes()
                    == midi_message@ && event.spec_frame_offset() == frame_offset.offset,
                Err(_) => midi_message@.len() > 256,
            },
    {
        if midi_message.len() > LONG_MIDI_EVENT_MAX_LENGTH {
            return Err("given MIDI message too long");
        }
        let n = midi_message.len();
        let mut array: [u8; 256] = [0; 256];
        let mut i: usize = 0;
        while i < n
            invariant
                n == midi_message@.len(),
                n <= 256,
                0 <= i <= n,
                forall|j: int| 0 <= j < i ==> array@[j] == midi_message@[j],
            decreases n - i,
        {
            array[i] = midi_message[i];
            i = i + 1;
        }
        let event = LongMidiEvent::new(frame_offset, array, n as u32);
        proof {
            assert(event.message_bytes() =~= midi_message@);
        }
        Ok(event)
    }

    /// Returns the contained MIDI data as a byte slice: the first `size`
    /// bytes of the buffer.
    pub fn bytes(&self) -> (r: &[u8])
        requires
            self.wf(),
        ensures
            r@ == self.message_bytes(),
    {
        let r = slice_subrange(self.midi_message.as_slice(), 0, self.size as usize);
        proof {
            assert(r@ =~= self.message_bytes());
        }
        r
    }
}

/// A MIDI event handed out while walking an event list, together with the
/// byte position of the next event.
#[derive(Clone, Copy, PartialEq, Eq, Structural, Debug)]
pub struct EnumItemsResult<T> {
    /// The MIDI event.
    pub midi_event: T,
    /// Start position of the next event in bytes.
    pub next_bpos: u32,
}

/// A cursor for walking a MIDI event list from a byte position.
#[derive(Clone, Copy, PartialEq, Eq, Structural, Debug)]
pub struct EnumItems<T> {
    /// The list being walked.
    pub list: T,
    /// The current byte position.
    pub bpos: u32,
}

impl<T> EnumItems<T> {
    /// Creates a cursor over the given list, starting at the beginning.
    pub fn new(list: T) -> (r: EnumItems<T>)
        ensures
            r.list == list,
            r.bpos == 0,
    {
        EnumItems { list, bpos: 0 }
    }
}

} // verus!
