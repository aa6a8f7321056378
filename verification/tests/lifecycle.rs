use language_provider::locale::Language;
use language_provider::provider::LanguageProvider;
use language_provider::provider::LanguageProviderConfig;
use language_provider::provider::LoopEvent;
use language_provider::provider::MessageAction;
use language_provider::provider::StartError;
use language_provider::provider::WM_INPUTLANGCHANGE;
use language_provider::provider::check_window_handle;
use language_provider::provider::dispatch_message;

fn fresh() -> LanguageProvider {
    LanguageProvider::new(LanguageProviderConfig::new())
}

#[test]
fn double_start_is_rejected() {
    let mut p = fresh();
    assert_eq!(p.on_start(), Ok(()));
    assert_eq!(p.on_start(), Err(StartError::AlreadyRunning));
}

#[test]
fn start_after_stop_succeeds() {
    let mut p = fresh();
    assert_eq!(p.on_start(), Ok(()));
    assert!(p.on_stop());
    assert_eq!(p.on_start(), Ok(()));
}

#[test]
fn stop_when_idle_is_a_no_op() {
    let mut p = fresh();
    assert!(!p.on_stop());
    assert_eq!(p.on_start(), Ok(()));
}

#[test]
fn window_creation_failure_surfaces_and_leaves_idle() {
    let mut p = fresh();
    assert_eq!(p.on_start(), Ok(()));
    assert_eq!(
        p.on_loop_event(LoopEvent::WindowCreationFailed),
        Err(StartError::WindowCreation)
    );
    // Idle again: nothing may be published, and a new start is accepted.
    let name = p.language().resolve(0, &Vec::new());
    assert_eq!(p.publish(&name), None);
    assert_eq!(p.on_start(), Ok(()));
}

#[test]
fn device_registration_failure_surfaces() {
    let mut p = fresh();
    assert_eq!(p.on_start(), Ok(()));
    assert_eq!(
        p.on_loop_event(LoopEvent::DeviceRegistrationFailed),
        Err(StartError::DeviceRegistration)
    );
}

#[test]
fn orderly_loop_exit_is_no_error() {
    let mut p = fresh();
    assert_eq!(p.on_start(), Ok(()));
    assert_eq!(p.on_loop_event(LoopEvent::LoopExited), Ok(()));
}

#[test]
fn locale_change_notification_emits_resolved_tag() {
    let mut p = fresh();
    assert_eq!(p.on_start(), Ok(()));
    let action = dispatch_message(WM_INPUTLANGCHANGE, 0x0409);
    assert_eq!(action, MessageAction::ResolveLocale(0x0409));
    let units: Vec<u16> = vec![0x65, 0x6E, 0x2D, 0x55, 0x53];
    let name = p.language().resolve(5, &units);
    assert_eq!(p.publish(&name), Some(String::from("en-US")));
}

#[test]
fn unmapped_identifier_still_emits_unknown() {
    let mut p = fresh();
    assert_eq!(p.on_start(), Ok(()));
    let action = dispatch_message(WM_INPUTLANGCHANGE, 0x07FF);
    assert_eq!(action, MessageAction::ResolveLocale(0x07FF));
    let units: Vec<u16> = Vec::new();
    let name = p.language().resolve(0, &units);
    assert!(name.is_unknown());
    assert_eq!(p.publish(&name), Some(String::from("unknown")));
}

#[test]
fn other_notifications_pass_through() {
    let action = dispatch_message(0x0010, 0x0409);
    assert_eq!(action, MessageAction::PassThrough);
    let action = dispatch_message(0, 0);
    assert_eq!(action, MessageAction::PassThrough);
}

#[test]
fn dispatch_takes_low_word_of_lparam() {
    let action = dispatch_message(WM_INPUTLANGCHANGE, 0x7FFF0407);
    assert_eq!(action, MessageAction::ResolveLocale(0x0407));
}

#[test]
fn nothing_is_emitted_after_stop() {
    let mut p = fresh();
    assert_eq!(p.on_start(), Ok(()));
    let units: Vec<u16> = vec![0x64, 0x65];
    let name = p.language().resolve(2, &units);
    assert_eq!(p.publish(&name), Some(String::from("de")));
    assert!(p.on_stop());
    // A record that was in flight when the stop completed is dropped.
    let late = p.language().resolve(2, &units);
    assert_eq!(p.publish(&late), None);
}

#[test]
fn refresh_is_a_no_op_when_idle_and_when_running() {
    let mut p = fresh();
    assert_eq!(p.on_refresh(), None);
    assert_eq!(p.on_start(), Ok(()));
    assert_eq!(p.on_refresh(), None);
    // Still running: a second start is still rejected.
    assert_eq!(p.on_start(), Err(StartError::AlreadyRunning));
}

#[test]
fn no_minimum_refresh_interval() {
    let p = fresh();
    assert_eq!(p.min_refresh_interval(), None);
}

#[test]
fn null_window_handle_is_a_creation_failure() {
    assert_eq!(check_window_handle(0), Err(StartError::WindowCreation));
    assert_eq!(check_window_handle(0x1234), Ok(0x1234));
    assert_eq!(check_window_handle(-8), Ok(-8));
}

#[test]
fn notification_end_to_end_emits_tag() {
    let mut p = fresh();
    assert_eq!(p.on_start(), Ok(()));
    let units: Vec<u16> = vec![0x65, 0x6E, 0x2D, 0x55, 0x53];
    let out = p.handle_notification(WM_INPUTLANGCHANGE, 0x0409, 5, &units);
    assert_eq!(out, Some(String::from("en-US")));
}

#[test]
fn notification_end_to_end_unmapped_emits_unknown() {
    let mut p = fresh();
    assert_eq!(p.on_start(), Ok(()));
    let units: Vec<u16> = Vec::new();
    let out = p.handle_notification(WM_INPUTLANGCHANGE, 0x07FF, 0, &units);
    assert_eq!(out, Some(String::from("unknown")));
}

#[test]
fn other_notification_emits_nothing_even_while_running() {
    let mut p = fresh();
    assert_eq!(p.on_start(), Ok(()));
    let units: Vec<u16> = vec![0x65, 0x6E];
    let out = p.handle_notification(0x0010, 0x0409, 2, &units);
    assert_eq!(out, None);
}

#[test]
fn notification_after_stop_emits_nothing() {
    let mut p = fresh();
    assert_eq!(p.on_start(), Ok(()));
    assert!(p.on_stop());
    let units: Vec<u16> = vec![0x65, 0x6E, 0x2D, 0x55, 0x53];
    let out = p.handle_notification(WM_INPUTLANGCHANGE, 0x0409, 5, &units);
    assert_eq!(out, None);
}
