use send_to_kindle::{Action, Config, Event, Outcome, Phase, Session};

fn config(num_files: usize, file_timeout: usize, daemon: bool, debugging: bool) -> Config {
    Config::new(num_files, file_timeout, daemon, debugging).unwrap()
}

/// Drive a freshly begun session through the sign-in script, the file
/// loading and the synthetic drop, up to the wait for the first uploaded
/// item, asserting each requested action on the way.
fn run_to_confirm(num_files: usize, file_timeout: usize, debugging: bool) -> Session {
    let (s, a) = Session::begin(config(num_files, file_timeout, true, debugging));
    assert_eq!(a, Action::SpawnDaemon);
    let (s, a) = s.step(Event::DaemonSpawned);
    assert_eq!(a, Action::OpenBrowser { headless: !debugging });
    let (s, a) = s.step(Event::BrowserOpened);
    assert_eq!(a, Action::Navigate);
    let (s, a) = s.step(Event::StepOk);
    assert_eq!(a, Action::ClickSignIn);
    let (s, a) = s.step(Event::StepOk);
    assert_eq!(a, Action::TypeEmail);
    let (s, a) = s.step(Event::StepOk);
    assert_eq!(a, Action::ClickContinue);
    let (s, a) = s.step(Event::StepOk);
    assert_eq!(a, Action::TypePassword);
    let (s, a) = s.step(Event::StepOk);
    assert_eq!(a, Action::SubmitSignIn);
    let (s, a) = s.step(Event::StepOk);
    assert_eq!(a, Action::InjectFileInput);
    let (mut s, mut a) = s.step(Event::StepOk);
    for i in 0..num_files {
        assert_eq!(a, Action::LoadFile { index: i });
        let next = s.step(Event::StepOk);
        s = next.0;
        a = next.1;
    }
    assert_eq!(a, Action::InjectDropHandler);
    let (s, a) = s.step(Event::StepOk);
    assert_eq!(a, Action::ProbeDndArea);
    let (s, a) = s.step(Event::DndVisible(true));
    assert_eq!(a, Action::FireDrop);
    let (s, a) = s.step(Event::StepOk);
    assert_eq!(a, Action::AwaitFirstItem);
    assert_eq!(s.files_loaded, num_files);
    s
}

/// Continue to the checkbox read: the first uploaded item appeared.
fn run_to_checkbox(num_files: usize, file_timeout: usize, debugging: bool) -> Session {
    let s = run_to_confirm(num_files, file_timeout, debugging);
    let (s, a) = s.step(Event::ItemFound);
    assert_eq!(a, Action::ReadCheckboxState);
    s
}

/// Continue from the checkbox read (unchecked) to the first poll.
fn run_to_poll(num_files: usize, file_timeout: usize) -> Session {
    let s = run_to_checkbox(num_files, file_timeout, false);
    let (s, a) = s.step(Event::CheckboxState(false));
    assert_eq!(a, Action::ClickCheckbox);
    let (s, a) = s.step(Event::StepOk);
    assert_eq!(a, Action::ClickSend);
    let (s, a) = s.step(Event::StepOk);
    assert_eq!(a, Action::PollDndArea);
    s
}

#[test]
fn full_run_success_cleans_up_once() {
    let s = run_to_poll(2, 5);
    let (s, a) = s.step(Event::PollObservation { displayed: true, elapsed_secs: 4 });
    assert_eq!(a, Action::Sleep { seconds: 3 });
    let (s, a) = s.step(Event::PollObservation { displayed: true, elapsed_secs: 10 });
    assert_eq!(a, Action::Sleep { seconds: 3 });
    let (s, a) = s.step(Event::PollObservation { displayed: false, elapsed_secs: 12 });
    assert_eq!(a, Action::CloseBrowser);
    let (s, a) = s.step(Event::Closed);
    assert_eq!(a, Action::KillDaemon);
    let (s, a) = s.step(Event::DaemonKilled);
    assert_eq!(a, Action::Finish(Outcome::Success));
    assert_eq!(s.phase, Phase::Done(Outcome::Success));
    assert_eq!(s.close_count, 1);
    assert_eq!(s.kill_count, 1);
    assert_eq!(s.checkbox_clicks, 1);
}

#[test]
fn poll_past_deadline_times_out() {
    let s = run_to_poll(2, 5);
    let (s, a) = s.step(Event::PollObservation { displayed: true, elapsed_secs: 11 });
    assert_eq!(a, Action::CloseBrowser);
    assert_eq!(s.phase, Phase::CloseBrowser(Outcome::TimedOut));
    let (s, _) = s.step(Event::Closed);
    let (s, a) = s.step(Event::DaemonKilled);
    assert_eq!(a, Action::Finish(Outcome::TimedOut));
    assert_eq!(s.phase, Phase::Done(Outcome::TimedOut));
    assert_eq!(s.close_count, 1);
    assert_eq!(s.kill_count, 1);
}

#[test]
fn poll_at_deadline_keeps_waiting() {
    let s = run_to_poll(2, 5);
    let (_, a) = s.step(Event::PollObservation { displayed: true, elapsed_secs: 10 });
    assert_eq!(a, Action::Sleep { seconds: 3 });
}

#[test]
fn checked_checkbox_is_not_clicked() {
    let s = run_to_checkbox(1, 60, false);
    let (s, a) = s.step(Event::CheckboxState(true));
    assert_eq!(a, Action::ClickSend);
    assert_eq!(s.checkbox_clicks, 0);
}

#[test]
fn unchecked_checkbox_is_clicked_exactly_once() {
    let s = run_to_checkbox(1, 60, false);
    let (s, a) = s.step(Event::CheckboxState(false));
    assert_eq!(a, Action::ClickCheckbox);
    assert_eq!(s.checkbox_clicks, 1);
    let (s, a) = s.step(Event::StepOk);
    assert_eq!(a, Action::ClickSend);
    assert_eq!(s.checkbox_clicks, 1);
}

#[test]
fn debugging_mode_skips_send_and_waits_for_operator() {
    let s = run_to_checkbox(1, 60, true);
    let (s, a) = s.step(Event::CheckboxState(true));
    assert_eq!(a, Action::PromptOperator);
    assert_eq!(s.phase, Phase::AwaitOperator);
    let (s, a) = s.step(Event::OperatorConfirmed);
    assert_eq!(a, Action::CloseBrowser);
    let (s, _) = s.step(Event::Closed);
    let (s, a) = s.step(Event::DaemonKilled);
    assert_eq!(a, Action::Finish(Outcome::Success));
    assert_eq!(s.close_count, 1);
    assert_eq!(s.kill_count, 1);
}

#[test]
fn daemon_spawn_failure_ends_without_cleanup() {
    let (s, a) = Session::begin(config(1, 60, true, false));
    assert_eq!(a, Action::SpawnDaemon);
    let (s, a) = s.step(Event::DaemonFailed);
    assert_eq!(a, Action::Finish(Outcome::DaemonSpawnFailed));
    assert_eq!(s.phase, Phase::Done(Outcome::DaemonSpawnFailed));
    assert_eq!(s.close_count, 0);
    assert_eq!(s.kill_count, 0);
}

#[test]
fn browser_failure_without_daemon_ends_directly() {
    let (s, a) = Session::begin(config(1, 60, false, false));
    assert_eq!(a, Action::OpenBrowser { headless: true });
    let (s, a) = s.step(Event::BrowserFailed);
    assert_eq!(a, Action::Finish(Outcome::AutomationFailure));
    assert_eq!(s.phase, Phase::Done(Outcome::AutomationFailure));
    assert_eq!(s.close_count, 0);
    assert_eq!(s.kill_count, 0);
}

#[test]
fn browser_failure_with_daemon_still_kills_it() {
    let (s, a) = Session::begin(config(1, 60, true, false));
    assert_eq!(a, Action::SpawnDaemon);
    let (s, _) = s.step(Event::DaemonSpawned);
    let (s, a) = s.step(Event::BrowserFailed);
    assert_eq!(a, Action::KillDaemon);
    let (s, a) = s.step(Event::DaemonKilled);
    assert_eq!(a, Action::Finish(Outcome::AutomationFailure));
    assert_eq!(s.close_count, 0);
    assert_eq!(s.kill_count, 1);
}

#[test]
fn step_failure_mid_script_reports_automation_failure() {
    let (s, _) = Session::begin(config(1, 60, true, false));
    let (s, _) = s.step(Event::DaemonSpawned);
    let (s, _) = s.step(Event::BrowserOpened);
    let (s, a) = s.step(Event::StepFailed);
    assert_eq!(a, Action::CloseBrowser);
    assert_eq!(s.phase, Phase::CloseBrowser(Outcome::AutomationFailure));
    let (s, _) = s.step(Event::Closed);
    let (s, a) = s.step(Event::DaemonKilled);
    assert_eq!(a, Action::Finish(Outcome::AutomationFailure));
    assert_eq!(s.close_count, 1);
    assert_eq!(s.kill_count, 1);
}

#[test]
fn missing_item_reports_upload_not_registered() {
    let s = run_to_confirm(1, 60, false);
    let (s, a) = s.step(Event::ItemMissing);
    assert_eq!(a, Action::CloseBrowser);
    assert_eq!(s.phase, Phase::CloseBrowser(Outcome::UploadNotRegistered));
    let (s, _) = s.step(Event::Closed);
    let (s, a) = s.step(Event::DaemonKilled);
    assert_eq!(a, Action::Finish(Outcome::UploadNotRegistered));
    assert_eq!(s.close_count, 1);
    assert_eq!(s.kill_count, 1);
}

#[test]
fn zero_files_skip_the_load_phase() {
    let s = run_to_checkbox(0, 60, false);
    assert_eq!(s.files_loaded, 0);
}

#[test]
fn accepts_guards_the_expected_events() {
    let (s, _) = Session::begin(config(1, 60, true, false));
    assert!(s.accepts(Event::DaemonSpawned));
    assert!(s.accepts(Event::DaemonFailed));
    assert!(!s.accepts(Event::StepOk));
    assert!(!s.accepts(Event::PollObservation { displayed: true, elapsed_secs: 0 }));
    let (s, _) = s.step(Event::DaemonSpawned);
    assert!(s.accepts(Event::BrowserOpened));
    assert!(!s.accepts(Event::DaemonSpawned));
}

#[test]
fn config_rejects_an_unrepresentable_deadline() {
    assert!(Config::new(usize::MAX, 2, true, false).is_none());
    assert!(Config::new(2, usize::MAX, true, false).is_none());
    assert!(Config::new(usize::MAX, 1, true, false).is_some());
    assert!(Config::new(usize::MAX, 0, true, false).is_some());
    assert!(Config::new(0, usize::MAX, true, false).is_some());
}

#[test]
fn args_new_sets_credentials_and_defaults() {
    let a = send_to_kindle::Args::new("user", "secret");
    assert_eq!(a.username, "user");
    assert_eq!(a.password, "secret");
    assert_eq!(a.file, "");
    assert_eq!(a.directory, "");
    assert_eq!(a.extension, "");
    assert_eq!(a.file_timeout, 60);
    assert!(a.geckodriver_daemon);
    assert!(!a.debugging_mode);
    assert_eq!(a.amazon_url, "https://www.amazon.com/sendtokindle");
}

#[test]
fn args_default_is_all_defaults() {
    let a = send_to_kindle::Args::default();
    assert_eq!(a.username, "");
    assert_eq!(a.password, "");
    assert_eq!(a.file_timeout, 60);
    assert!(a.geckodriver_daemon);
    assert!(!a.debugging_mode);
    assert_eq!(a.amazon_url, "https://www.amazon.com/sendtokindle");
}
