use reaper_session::errors::{ReaperFunctionError, TryFromGreaterError};
use reaper_session::flags::{InsertMediaFlag, ProjectPart, UndoScope};
use reaper_session::midi_output_device::MidiOutputDevice;
use reaper_session::misc_newtypes::{
    CommandId, MidiInputDeviceId, MidiOutputDeviceId, SectionId,
};

#[test]
fn command_id_carries_its_number() {
    let id = CommandId::new(42);
    assert_eq!(id.get(), 42);
    assert_eq!(SectionId::new(0).get(), 0);
}

#[test]
fn midi_device_ids() {
    assert_eq!(MidiInputDeviceId::new(62).get(), 62);
    assert_eq!(MidiOutputDeviceId::new(200).get(), 200);
}

#[test]
fn midi_output_device_keeps_id() {
    let device = MidiOutputDevice::new(MidiOutputDeviceId::new(7));
    assert_eq!(device.id(), MidiOutputDeviceId::new(7));
}

#[test]
fn undo_scope_raw_values() {
    assert_eq!(UndoScope::All.to_raw(), -1);
    let bits = ProjectPart::Fx.to_raw() | ProjectPart::Items.to_raw();
    assert_eq!(UndoScope::Scoped(bits).to_raw(), 6);
}

#[test]
fn project_part_bits() {
    assert_eq!(ProjectPart::TrackCfg.to_raw(), 1);
    assert_eq!(ProjectPart::Fx.to_raw(), 2);
    assert_eq!(ProjectPart::Items.to_raw(), 4);
    assert_eq!(ProjectPart::MiscCfg.to_raw(), 8);
    assert_eq!(ProjectPart::Freeze.to_raw(), 16);
}

#[test]
fn insert_media_flag_bits() {
    assert_eq!(InsertMediaFlag::StretchLoopToFitTimeSelection.to_raw(), 4);
    assert_eq!(InsertMediaFlag::MoveSourceToPreferredPosition.to_raw(), 4096);
}

#[test]
fn reaper_function_error_keeps_message() {
    let error = ReaperFunctionError::new("host call failed");
    assert_eq!(error.message(), "host call failed");
}

#[test]
fn try_from_greater_error_keeps_value() {
    let error = TryFromGreaterError::new("value too large", 300u32);
    assert_eq!(error.value(), 300);
    assert_eq!(error.message(), "value too large");
}
