use fracture::shutdown::{
    begin_settings_shutdown, settings_shutdown_step, shutdown_must_abort, start_shutdown,
    RecvTimeoutError, SettingsGtkShutdownErr, ShutdownProgress, SHUTDOWN_POLL_LIMIT,
};
use fracture::state::State;

#[test]
fn start_shutdown_sets_flag() {
    let mut s = State { should_shutdown: false, last_reported_offsets: (4, 5) };
    start_shutdown(&mut s);
    assert!(s.should_shutdown);
    assert_eq!(s.last_reported_offsets, (4, 5));
}

#[test]
fn unsent_request_means_thread_gone() {
    assert_eq!(
        begin_settings_shutdown(false),
        ShutdownProgress::Finished(Err(SettingsGtkShutdownErr::ThreadAlreadyTerminated))
    );
    assert_eq!(begin_settings_shutdown(true), ShutdownProgress::Waiting(0));
}

#[test]
fn confirmation_finishes() {
    assert_eq!(settings_shutdown_step(7, Ok(())), ShutdownProgress::Finished(Ok(())));
}

#[test]
fn disconnect_fails() {
    assert_eq!(
        settings_shutdown_step(0, Err(RecvTimeoutError::Disconnected)),
        ShutdownProgress::Finished(Err(SettingsGtkShutdownErr::Disconnected(
            RecvTimeoutError::Disconnected
        )))
    );
}

#[test]
fn gives_up_after_poll_limit() {
    let mut p = begin_settings_shutdown(true);
    let mut polls = 0;
    while let ShutdownProgress::Waiting(n) = p {
        p = settings_shutdown_step(n, Err(RecvTimeoutError::Timeout));
        polls += 1;
    }
    assert_eq!(polls, SHUTDOWN_POLL_LIMIT + 1);
    assert_eq!(polls, 101);
    assert_eq!(
        p,
        ShutdownProgress::Finished(Err(SettingsGtkShutdownErr::FailedWithinTimeLimit))
    );
}

#[test]
fn abort_only_on_error() {
    assert!(!shutdown_must_abort(&Ok(())));
    assert!(shutdown_must_abort(&Err(SettingsGtkShutdownErr::FailedWithinTimeLimit)));
}
