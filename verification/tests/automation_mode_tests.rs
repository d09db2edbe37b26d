use reaper_session::automation_mode::AutomationMode;

#[test]
fn to_int() {
    assert_eq!(3, AutomationMode::Write.to_raw());
}

#[test]
fn from_int() {
    assert_eq!(AutomationMode::try_from_raw(3), Ok(AutomationMode::Write));
    assert!(AutomationMode::try_from_raw(7).is_err());
}

#[test]
fn all_modes_round_trip() {
    let modes = [
        AutomationMode::TrimRead,
        AutomationMode::Read,
        AutomationMode::Touch,
        AutomationMode::Write,
        AutomationMode::Latch,
        AutomationMode::LatchPreview,
    ];
    for mode in modes {
        let raw = mode.to_raw();
        assert_eq!(AutomationMode::try_from_raw(raw), Ok(mode));
    }
}

#[test]
fn negative_raw_is_rejected() {
    assert!(AutomationMode::try_from_raw(-1).is_err());
}
