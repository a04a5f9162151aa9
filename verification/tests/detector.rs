use is_it_dark::GenericDetectDark;
use is_it_dark::IsItDark;
use is_it_dark::SmartTime;
use is_it_dark::ThemeError;

const H: i64 = 3600;

/// A primary that can never answer, as when no platform tool is reachable.
struct FailingPrimary;

impl IsItDark for FailingPrimary {
    type Error = ThemeError;

    fn is_dark(&self) -> Result<bool, ThemeError> {
        Err(ThemeError::IoFailure)
    }

    fn set_light(&mut self) -> Result<bool, ThemeError> {
        Err(ThemeError::IoFailure)
    }

    fn set_dark(&mut self) -> Result<bool, ThemeError> {
        Err(ThemeError::IoFailure)
    }
}

/// A primary holding a theme state of its own, as a real platform does.
struct TogglePrimary {
    dark: bool,
}

impl IsItDark for TogglePrimary {
    type Error = ThemeError;

    fn is_dark(&self) -> Result<bool, ThemeError> {
        Ok(self.dark)
    }

    fn set_light(&mut self) -> Result<bool, ThemeError> {
        self.dark = false;
        Ok(true)
    }

    fn set_dark(&mut self) -> Result<bool, ThemeError> {
        self.dark = true;
        Ok(true)
    }
}

fn pinned_dark() -> SmartTime {
    let mut st = SmartTime::set_time(7 * H, 19 * H);
    st.set_dark().unwrap();
    st
}

fn pinned_light() -> SmartTime {
    let mut st = SmartTime::set_time(7 * H, 19 * H);
    st.set_light().unwrap();
    st
}

#[test]
fn primary_is_authoritative_when_it_answers() {
    let d = GenericDetectDark::new(TogglePrimary { dark: true }, Some(pinned_light()));
    assert_eq!(d.is_dark(), Ok(true));
    assert_eq!(d.is_light(), Ok(false));
    let d = GenericDetectDark::new(TogglePrimary { dark: false }, Some(pinned_dark()));
    assert_eq!(d.is_dark(), Ok(false));
    assert_eq!(d.is_light(), Ok(true));
}

#[test]
fn failing_primary_defers_to_secondary() {
    let d = GenericDetectDark::with_default(FailingPrimary, Some(pinned_dark()), false);
    assert_eq!(d.is_dark(), Ok(true));
    let d = GenericDetectDark::with_default(FailingPrimary, Some(pinned_light()), true);
    assert_eq!(d.is_dark(), Ok(false));
}

#[test]
fn secondary_answer_beats_either_default() {
    let noon = 12 * H;
    let d1 = GenericDetectDark::with_default(FailingPrimary, Some(SmartTime::set_time(7 * H, 19 * H)), true);
    let d2 = GenericDetectDark::with_default(FailingPrimary, Some(SmartTime::set_time(7 * H, 19 * H)), false);
    assert_eq!(d1.resolve_dark(Err(ThemeError::IoFailure), noon), Ok(false));
    assert_eq!(d2.resolve_dark(Err(ThemeError::IoFailure), noon), Ok(false));
    let evening = 22 * H;
    assert_eq!(d1.resolve_dark(Err(ThemeError::IoFailure), evening), Ok(true));
    assert_eq!(d2.resolve_dark(Err(ThemeError::IoFailure), evening), Ok(true));
}

#[test]
fn secondary_failure_propagates() {
    let geo = SmartTime::new(13_400_000, 52_500_000, 34_000, 7 * H, 19 * H);
    let d = GenericDetectDark::new(FailingPrimary, Some(geo));
    assert_eq!(
        d.resolve_dark(Err(ThemeError::IoFailure), 22 * H),
        Err(ThemeError::UnsupportedOperation)
    );
}

#[test]
fn no_secondary_uses_configured_default() {
    let d = GenericDetectDark::new(FailingPrimary, None);
    assert_eq!(d.is_dark(), Ok(false));
    assert_eq!(d.is_light(), Ok(true));
    let d = GenericDetectDark::with_default(FailingPrimary, None, true);
    assert_eq!(d.is_dark(), Ok(true));
    assert_eq!(d.is_light(), Ok(false));
}

#[test]
fn no_secondary_default_is_deterministic() {
    let d = GenericDetectDark::with_default(FailingPrimary, None, true);
    let first = d.is_dark();
    for _ in 0..3 {
        assert_eq!(d.is_dark(), first);
    }
    assert_eq!(d.resolve_dark(Err(ThemeError::IoFailure), 3 * H), Ok(true));
    assert_eq!(d.resolve_dark(Err(ThemeError::DecodeFailure), 12 * H), Ok(true));
}

#[test]
fn primary_answer_is_returned_verbatim() {
    let d = GenericDetectDark::with_default(FailingPrimary, Some(pinned_light()), false);
    assert_eq!(d.resolve_dark(Ok(true), 12 * H), Ok(true));
    assert_eq!(d.resolve_dark(Ok(false), 22 * H), Ok(false));
}

#[test]
fn writes_go_to_primary_alone() {
    let mut d = GenericDetectDark::new(TogglePrimary { dark: false }, Some(pinned_light()));
    assert_eq!(d.set_dark(), Ok(true));
    assert!(d.sys.dark);
    assert_eq!(d.smart_time, Some(pinned_light()));
    assert_eq!(d.is_dark(), Ok(true));
    assert_eq!(d.set_light(), Ok(true));
    assert!(!d.sys.dark);
    assert_eq!(d.smart_time, Some(pinned_light()));
}

#[test]
fn write_failure_surfaces_verbatim() {
    let mut d = GenericDetectDark::new(FailingPrimary, Some(pinned_dark()));
    assert_eq!(d.set_dark(), Err(ThemeError::IoFailure));
    assert_eq!(d.set_light(), Err(ThemeError::IoFailure));
}

#[test]
fn constructors_record_their_configuration() {
    let d = GenericDetectDark::new(FailingPrimary, None);
    assert!(!d.default_dark);
    assert!(d.smart_time.is_none());
    let d = GenericDetectDark::with_default(FailingPrimary, Some(pinned_dark()), true);
    assert!(d.default_dark);
    assert!(d.smart_time.is_some());
}
