use reaper_session::audio_hook::{filter_midi_events, MidiEvent, MidiShortMsg};
use reaper_session::midi::{EnumItems, EnumItemsResult, LongMidiEvent, MidiFrameOffset};

#[test]
fn long_midi_event_new_keeps_the_first_size_bytes() {
    let mut buffer = [0u8; 256];
    buffer[0] = 0x90;
    buffer[1] = 60;
    buffer[2] = 100;
    let event = LongMidiEvent::new(MidiFrameOffset::new(5), buffer, 3);
    assert_eq!(event.bytes(), &[0x90, 60, 100]);
}

#[test]
fn long_midi_event_from_slice_copies() {
    let data = [0xF0u8, 1, 2, 3, 0xF7];
    let event = LongMidiEvent::try_from_slice(MidiFrameOffset::new(0), &data).unwrap();
    assert_eq!(event.bytes(), &data);
}

#[test]
fn long_midi_event_from_slice_rejects_overlong_messages() {
    let data = [0u8; 257];
    assert!(LongMidiEvent::try_from_slice(MidiFrameOffset::new(0), &data).is_err());
    let data = [0u8; 256];
    assert!(LongMidiEvent::try_from_slice(MidiFrameOffset::new(0), &data).is_ok());
}

#[test]
fn frame_offset_round_trip() {
    let offset = MidiFrameOffset::new(123);
    assert_eq!(offset.get(), 123);
    assert_eq!(offset.to_raw(), 123);
}

#[test]
fn active_sensing_is_filtered_out() {
    let note_on = MidiEvent::new(
        0,
        MidiShortMsg {
            status: 0x90,
            data1: 60,
            data2: 100,
        },
    );
    let active_sensing = MidiEvent::new(
        1,
        MidiShortMsg {
            status: 0xFE,
            data1: 0,
            data2: 0,
        },
    );
    let clock = MidiEvent::new(
        2,
        MidiShortMsg {
            status: 0xF8,
            data1: 0,
            data2: 0,
        },
    );
    let events = vec![note_on, active_sensing, clock];
    // Everything but active sensing is forwarded, in order. This goes
    // through the real MIDI message classification: if it misjudged the
    // status byte, either the note-on or the clock would be dropped, or the
    // active-sensing message kept.
    let forwarded = filter_midi_events(&events);
    assert_eq!(forwarded, vec![note_on, clock]);
}

#[test]
fn filter_keeps_all_channel_messages() {
    let events: Vec<MidiEvent<MidiShortMsg>> = (0..8)
        .map(|i| {
            MidiEvent::new(
                i,
                MidiShortMsg {
                    status: 0x80 + (i as u8) * 0x10,
                    data1: 1,
                    data2: 2,
                },
            )
        })
        .collect();
    let forwarded = filter_midi_events(&events);
    assert_eq!(forwarded, events);
}

#[test]
fn enum_items_cursor_starts_at_zero() {
    let cursor = EnumItems::new(7u32);
    assert_eq!(cursor.list, 7);
    assert_eq!(cursor.bpos, 0);
    let result = EnumItemsResult {
        midi_event: 1u8,
        next_bpos: 4,
    };
    assert_eq!(result.next_bpos, 4);
}
