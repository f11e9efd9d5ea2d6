use vstd::prelude::*;

verus! {

// Identifiers and selectors of the driven page, and the fixed settings of
// the interaction script. They are configuration, not logic: the script
// itself advances through [`Session::step`].
/// Element id of the sign-in entry point.
pub const SIGN_IN_BUTTON_ID: &'static str = "s2k-dnd-sign-in-button";

/// Selector of the email input on the sign-in form.
pub const EMAIL_INPUT_CSS: &'static str = "input[type='email']";

/// Selector of the control that continues past the email form.
pub const CONTINUE_BUTTON_CSS: &'static str = "input[type='submit'][id='continue']";

/// Selector of the password input.
pub const PASSWORD_INPUT_CSS: &'static str = "input[type='password'][id='ap_password']";

/// Selector of the sign-in submit control.
pub const SIGN_IN_SUBMIT_CSS: &'static str = "input[type='submit'][id='signInSubmit']";

/// Element id of the file input that the script injects into the page.
pub const FILE_INPUT_ID: &'static str = "hacky-file-input";

/// Element id of the injected control whose click fires the synthetic drop.
pub const DROP_TRIGGER_ID: &'static str = "hacky-button-file-input";

/// Element id of the drop area; its visibility signals the upload state.
pub const DND_AREA_ID: &'static str = "s2k-dnd-area";

/// Selector of an uploaded item inside the drop area.
pub const FILE_ITEM_CSS: &'static str = ".s2k-r2s-file-item";

/// Element id of the "add to your library" label.
pub const ADD_TO_LIBRARY_ID: &'static str = "s2k-r2s-add2lib";

/// Selector of the checkbox inside that label.
pub const CHECKBOX_CSS: &'static str = "input[type='checkbox']";

/// Element id of the send control.
pub const SEND_BUTTON_ID: &'static str = "s2k-r2s-send-button";

/// User agent the browser session is configured with.
pub const USER_AGENT: &'static str = "Linux";

/// Address of the local webdriver endpoint.
pub const WEBDRIVER_URL: &'static str = "http://localhost:4444";

/// Command that runs the companion webdriver daemon.
pub const DAEMON_COMMAND: &'static str = "geckodriver";

/// Seconds between two polls of the drop area.
pub const POLL_INTERVAL_SECS: usize = 3;

/// Script that injects a hidden multi-file input into the page, so that
/// selected file paths can be carried into the browser's upload machinery.
pub const INJECT_FILE_INPUT_SCRIPT: &'static str = r#"
        let elem = document.getElementById("s2k-home-wrapper");

        var input = document.createElement("input");
        input.id = "hacky-file-input";
        input.type = "file";
        input.multiple = true;
        elem.appendChild(input);
    "#;

/// Script that builds a synthetic drop event reading the injected input's
/// files, and an invisible trigger control whose click dispatches that event
/// against the page's drop area.
pub const INJECT_DROP_SCRIPT: &'static str = r#"
        let elem = document.getElementById("s2k-home-wrapper");

        function CustomDataTransfer() {
          var f = document.getElementById("hacky-file-input").files;
          this.dropEffect = 'all';
          this.effectAllowed = 'all';
          this.items = [];
          this.types = ['Files'];
          this.files = f;
        };

        var customDropEvent = new DragEvent('drop');
        Object.defineProperty(customDropEvent, 'dataTransfer', {
          value: new CustomDataTransfer()
        });
        var button_input = document.createElement("button");
        button_input.id = "hacky-button-file-input";
        button_input.addEventListener('click', function(e) {
            e.preventDefault();
            document.getElementById("s2k-dnd-area").dispatchEvent(customDropEvent);
          });
        elem.appendChild(button_input);
    "#;

/// Terminal result of one upload attempt.
#[derive(Debug, Clone, Copy, PartialEq, Eq, Structural)]
pub enum Outcome {
    /// The drop area disappeared before the deadline.
    Success,
    /// The deadline passed while the drop area stayed visible.
    TimedOut,
    /// A step of the interaction script failed.
    AutomationFailure,
    /// No uploaded item ever appeared in the drop area.
    UploadNotRegistered,
    /// The companion daemon could not be spawned.
    DaemonSpawnFailed,
}

/// Where the interaction script stands. Every phase up to `Poll` or
/// `AwaitOperator` waits for the result of one browser call; the two
/// cleanup phases carry the outcome that will be reported once the session
/// is torn down.
#[derive(Debug, Clone, Copy, PartialEq, Eq, Structural)]
pub enum Phase {
    /// Spawning the companion daemon.
    SpawnDaemon,
    /// Opening the browser session.
    OpenBrowser,
    /// Navigating to the target page.
    Navigate,
    /// Locating and clicking the sign-in entry point.
    ClickSignIn,
    /// Locating the email input and entering the username.
    EnterEmail,
    /// Locating and clicking the continue control.
    ClickContinue,
    /// Locating the password input and entering the password.
    EnterPassword,
    /// Locating and clicking the sign-in submit control.
    SubmitSignIn,
    /// Injecting the hidden file input and locating it.
    InjectInput,
    /// Setting the next file path into the injected input.
    LoadFile,
    /// Injecting the synthetic drop event and its trigger control.
    InjectDrop,
    /// Probing whether the drop area is displayed (informational only).
    ProbeDndArea,
    /// Clicking the trigger control to fire the synthetic drop.
    FireDrop,
    /// Confirming that at least one uploaded item appeared.
    ConfirmItem,
    /// Reading the state of the "add to library" checkbox.
    ReadCheckbox,
    /// Clicking the checkbox that was read as unchecked.
    ToggleCheckbox,
    /// Locating and clicking the send control.
    ClickSend,
    /// Waiting for the next poll of the drop area.
    Poll,
    /// Debugging mode: waiting for a line of operator input.
    AwaitOperator,
    /// Closing the browser session; the outcome is already fixed.
    CloseBrowser(Outcome),
    /// Terminating the spawned daemon; the outcome is already fixed.
    KillDaemon(Outcome),
    /// The attempt is over.
    Done(Outcome),
}

/// What the caller observed after performing the requested action.
#[derive(Debug, Clone, Copy, PartialEq, Eq, Structural)]
pub enum Event {
    /// The daemon process was spawned.
    DaemonSpawned,
    /// The daemon process could not be spawned.
    DaemonFailed,
    /// The browser session was opened.
    BrowserOpened,
    /// The browser session could not be opened.
    BrowserFailed,
    /// The requested browser call succeeded.
    StepOk,
    /// The requested browser call failed.
    StepFailed,
    /// The probe of the drop area reported this visibility.
    DndVisible(bool),
    /// An uploaded item appeared in the drop area.
    ItemFound,
    /// No uploaded item appeared in the drop area.
    ItemMissing,
    /// The checkbox was read in this state.
    CheckboxState(bool),
    /// One poll of the drop area: its visibility, and the whole seconds
    /// elapsed since the send control was clicked.
    PollObservation { displayed: bool, elapsed_secs: usize },
    /// The operator pressed enter in debugging mode.
    OperatorConfirmed,
    /// The browser session was closed.
    Closed,
    /// The spawned daemon was terminated.
    DaemonKilled,
}

/// What the caller must do next. Selector-driven actions name their element
/// through the constants of this module.
#[derive(Debug, Clone, Copy, PartialEq, Eq, Structural)]
pub enum Action {
    /// Spawn the companion daemon.
    SpawnDaemon,
    /// Open a browser session with the fixed user agent, headless or not.
    OpenBrowser { headless: bool },
    /// Navigate to the target page.
    Navigate,
    /// Locate and click the sign-in entry point.
    ClickSignIn,
    /// Locate the email input and enter the username.
    TypeEmail,
    /// Locate and click the continue control.
    ClickContinue,
    /// Locate the password input and enter the password.
    TypePassword,
    /// Locate and click the sign-in submit control.
    SubmitSignIn,
    /// Inject the hidden file input and locate it.
    InjectFileInput,
    /// Set the file at this index into the injected input.
    LoadFile { index: usize },
    /// Inject the synthetic drop event and its trigger control.
    InjectDropHandler,
    /// Probe whether the drop area is displayed.
    ProbeDndArea,
    /// Click the trigger control to fire the synthetic drop.
    FireDrop,
    /// Wait for an uploaded item to appear in the drop area.
    AwaitFirstItem,
    /// Read whether the checkbox is checked.
    ReadCheckboxState,
    /// Click the unchecked checkbox.
    ClickCheckbox,
    /// Locate and click the send control, and start the clock.
    ClickSend,
    /// Check the drop area's visibility and the elapsed seconds.
    PollDndArea,
    /// Sleep this many seconds, then poll again.
    Sleep { seconds: usize },
    /// Prompt the operator and wait for a line of input.
    PromptOperator,
    /// Close the browser session.
    CloseBrowser,
    /// Terminate the spawned daemon.
    KillDaemon,
    /// Nothing is left to do; report this outcome.
    Finish(Outcome),
}

/// Fixed parameters of one upload attempt.
#[derive(Debug, Clone, Copy, PartialEq, Eq, Structural)]
pub struct Config {
    /// How many files are uploaded.
    pub num_files: usize,
    /// Seconds granted to each file before the wait gives up.
    pub file_timeout: usize,
    /// Whether this session spawns the companion daemon itself.
    pub spawn_daemon: bool,
    /// Debugging mode: visible browser, no send, wait for the operator.
    pub debugging: bool,
}

impl Config {
    /// The overall deadline must be representable, so that each poll can
    /// compare against it.
    pub open spec fn wf(self) -> bool {
        self.num_files * self.file_timeout <= usize::MAX
    }

    /// Seconds from the send click until the wait gives up.
    pub open spec fn deadline_secs(self) -> int {
        self.num_files * self.file_timeout
    }

    /// A configuration, provided the overall deadline `num_files *
    /// file_timeout` fits the machine; `None` exactly when it does not.
    pub fn new(num_files: usize, file_timeout: usize, spawn_daemon: bool, debugging: bool) -> (r:
        Option<Config>)
        ensures
            r is Some <==> num_files * file_timeout <= usize::MAX,
            r matches Some(c) ==> c == (Config { num_files, file_timeout, spawn_daemon, debugging })
                && c.wf(),
    {
        if file_timeout == 0 || num_files <= usize::MAX / file_timeout {
            proof {
                if file_timeout != 0 {
                    assert(num_files * file_timeout <= (usize::MAX as int / file_timeout as int)
                        * file_timeout) by (nonlinear_arith)
                        requires
                            num_files <= usize::MAX as int / file_timeout as int,
                            file_timeout > 0,
                    ;
                    assert((usize::MAX as int / file_timeout as int) * file_timeout <= usize::MAX) by (
                    nonlinear_arith)
                        requires
                            file_timeout > 0,
                    ;
                }
            }
            Some(Config { num_files, file_timeout, spawn_daemon, debugging })
        } else {
            proof {
                assert(num_files * file_timeout > usize::MAX) by (nonlinear_arith)
                    requires
                        file_timeout > 0,
                        num_files > usize::MAX as int / file_timeout as int,
                ;
            }
            None
        }
    }
}

/// One upload attempt: the fixed configuration, the current phase, and what
/// the attempt has done so far — whether the daemon was spawned and the
/// browser opened, how often each was torn down, how many files were loaded
/// into the injected input, and how often the checkbox was clicked.
#[derive(Debug, Clone, Copy, PartialEq, Eq, Structural)]
pub struct Session {
    /// Fixed parameters of the attempt.
    pub config: Config,
    /// Where the interaction script stands.
    pub phase: Phase,
    /// Whether this session spawned the daemon (and owes it a kill).
    pub daemon_spawned: bool,
    /// Whether the browser session was opened (and is owed a close).
    pub browser_opened: bool,
    /// How many times the browser session was closed.
    pub close_count: usize,
    /// How many times the spawned daemon was terminated.
    pub kill_count: usize,
    /// How many file paths were set into the injected input.
    pub files_loaded: usize,
    /// How many times the checkbox was clicked.
    pub checkbox_clicks: usize,
}

impl Session {
    /// True for the phases between a successful browser open and the close,
    /// in which nothing has been torn down yet.
    pub open spec fn live_counts(self) -> bool {
        &&& self.daemon_spawned == self.config.spawn_daemon
        &&& self.browser_opened
        &&& self.close_count == 0
        &&& self.kill_count == 0
    }

    /// The session invariant: what holds of every session that `begin` and
    /// `step` hand out. In particular, a finished session has closed the
    /// browser exactly once if it was opened, and terminated the daemon
    /// exactly once if it was spawned.
    pub open spec fn wf(self) -> bool {
        &&& self.config.wf()
        &&& self.checkbox_clicks <= 1
        &&& match self.phase {
            Phase::SpawnDaemon => {
                &&& self.config.spawn_daemon
                &&& !self.daemon_spawned
                &&& !self.browser_opened
                &&& self.close_count == 0
                &&& self.kill_count == 0
                &&& self.files_loaded == 0
                &&& self.checkbox_clicks == 0
            },
            Phase::OpenBrowser => {
                &&& self.daemon_spawned == self.config.spawn_daemon
                &&& !self.browser_opened
                &&& self.close_count == 0
                &&& self.kill_count == 0
                &&& self.files_loaded == 0
                &&& self.checkbox_clicks == 0
            },
            Phase::Navigate | Phase::ClickSignIn | Phase::EnterEmail | Phase::ClickContinue
                | Phase::EnterPassword | Phase::SubmitSignIn | Phase::InjectInput => {
                &&& self.live_counts()
                &&& self.files_loaded == 0
                &&& self.checkbox_clicks == 0
            },
            Phase::LoadFile => {
                &&& self.live_counts()
                &&& self.files_loaded < self.config.num_files
                &&& self.checkbox_clicks == 0
            },
            Phase::InjectDrop | Phase::ProbeDndArea | Phase::FireDrop | Phase::ConfirmItem => {
                &&& self.live_counts()
                &&& self.files_loaded == self.config.num_files
                &&& self.checkbox_clicks == 0
            },
            Phase::ReadCheckbox => {
                &&& self.live_counts()
                &&& self.files_loaded == self.config.num_files
                &&& self.checkbox_clicks == 0
            },
            Phase::ToggleCheckbox => {
                &&& self.live_counts()
                &&& self.files_loaded == self.config.num_files
                &&& self.checkbox_clicks == 1
            },
            Phase::ClickSend | Phase::Poll => {
                &&& self.live_counts()
                &&& self.files_loaded == self.config.num_files
                &&& !self.config.debugging
            },
            Phase::AwaitOperator => {
                &&& self.live_counts()
                &&& self.files_loaded == self.config.num_files
                &&& self.config.debugging
            },
            Phase::CloseBrowser(_) => {
                &&& self.daemon_spawned == self.config.spawn_daemon
                &&& self.browser_opened
                &&& self.close_count == 0
                &&& self.kill_count == 0
            },
            Phase::KillDaemon(_) => {
                &&& self.daemon_spawned
                &&& self.close_count == (if self.browser_opened {
                    1int
                } else {
                    0int
                })
                &&& self.kill_count == 0
            },
            Phase::Done(_) => {
                &&& self.close_count == (if self.browser_opened {
                    1int
                } else {
                    0int
                })
                &&& self.kill_count == (if self.daemon_spawned {
                    1int
                } else {
                    0int
                })
            },
        }
    }

    /// Which events the current phase can take.
    pub open spec fn expects(self, ev: Event) -> bool {
        match self.phase {
            Phase::SpawnDaemon => ev is DaemonSpawned || ev is DaemonFailed,
            Phase::OpenBrowser => ev is BrowserOpened || ev is BrowserFailed,
            Phase::Navigate | Phase::ClickSignIn | Phase::EnterEmail | Phase::ClickContinue
                | Phase::EnterPassword | Phase::SubmitSignIn | Phase::InjectInput | Phase::LoadFile
                | Phase::InjectDrop | Phase::FireDrop | Phase::ToggleCheckbox | Phase::ClickSend =>
                ev is StepOk || ev is StepFailed,
            Phase::ProbeDndArea => ev is DndVisible || ev is StepFailed,
            Phase::ConfirmItem => ev is ItemFound || ev is ItemMissing,
            Phase::ReadCheckbox => ev is CheckboxState || ev is StepFailed,
            Phase::Poll => ev is PollObservation || ev is StepFailed,
            Phase::AwaitOperator => ev is OperatorConfirmed,
            Phase::CloseBrowser(_) => ev is Closed,
            Phase::KillDaemon(_) => ev is DaemonKilled,
            Phase::Done(_) => false,
        }
    }

    /// The same session in another phase.
    pub open spec fn with_phase(self, phase: Phase) -> Session {
        Session { phase, ..self }
    }

    /// The cleanup transition once the outcome is fixed: close the browser
    /// first; the daemon, if this session spawned one, follows.
    pub open spec fn teardown_spec(self, o: Outcome) -> (Session, Action) {
        (self.with_phase(Phase::CloseBrowser(o)), Action::CloseBrowser)
    }

    /// What follows the checkbox step: send and poll, unless debugging mode
    /// skips the send and waits for the operator instead.
    pub open spec fn after_checkbox_spec(self) -> (Session, Action) {
        if self.config.debugging {
            (self.with_phase(Phase::AwaitOperator), Action::PromptOperator)
        } else {
            (self.with_phase(Phase::ClickSend), Action::ClickSend)
        }
    }

    /// The transition relation of the interaction script: from a session
    /// and the event it expects to the next session and the next action.
    pub open spec fn next_spec(self, ev: Event) -> (Session, Action) {
        match (self.phase, ev) {
            (Phase::SpawnDaemon, Event::DaemonSpawned) => (
                Session { phase: Phase::OpenBrowser, daemon_spawned: true, ..self },
                Action::OpenBrowser { headless: !self.config.debugging },
            ),
            (Phase::SpawnDaemon, Event::DaemonFailed) => (
                self.with_phase(Phase::Done(Outcome::DaemonSpawnFailed)),
                Action::Finish(Outcome::DaemonSpawnFailed),
            ),
            (Phase::OpenBrowser, Event::BrowserOpened) => (
                Session { phase: Phase::Navigate, browser_opened: true, ..self },
                Action::Navigate,
            ),
            (Phase::OpenBrowser, Event::BrowserFailed) => if self.daemon_spawned {
                (
                    self.with_phase(Phase::KillDaemon(Outcome::AutomationFailure)),
                    Action::KillDaemon,
                )
            } else {
                (
                    self.with_phase(Phase::Done(Outcome::AutomationFailure)),
                    Action::Finish(Outcome::AutomationFailure),
                )
            },
            (Phase::Navigate, Event::StepOk) => (
                self.with_phase(Phase::ClickSignIn),
                Action::ClickSignIn,
            ),
            (Phase::ClickSignIn, Event::StepOk) => (
                self.with_phase(Phase::EnterEmail),
                Action::TypeEmail,
            ),
            (Phase::EnterEmail, Event::StepOk) => (
                self.with_phase(Phase::ClickContinue),
                Action::ClickContinue,
            ),
            (Phase::ClickContinue, Event::StepOk) => (
                self.with_phase(Phase::EnterPassword),
                Action::TypePassword,
            ),
            (Phase::EnterPassword, Event::StepOk) => (
                self.with_phase(Phase::SubmitSignIn),
                Action::SubmitSignIn,
            ),
            (Phase::SubmitSignIn, Event::StepOk) => (
                self.with_phase(Phase::InjectInput),
                Action::InjectFileInput,
            ),
            (Phase::InjectInput, Event::StepOk) => if self.config.num_files > 0 {
                (self.with_phase(Phase::LoadFile), Action::LoadFile { index: 0 })
            } else {
                (self.with_phase(Phase::InjectDrop), Action::InjectDropHandler)
            },
            (Phase::LoadFile, Event::StepOk) => if self.files_loaded + 1 < self.config.num_files {
                (
                    Session { files_loaded: (self.files_loaded + 1) as usize, ..self },
                    Action::LoadFile { index: (self.files_loaded + 1) as usize },
                )
            } else {
                (
                    Session {
                        phase: Phase::InjectDrop,
                        files_loaded: (self.files_loaded + 1) as usize,
                        ..self
                    },
                    Action::InjectDropHandler,
                )
            },
            (Phase::InjectDrop, Event::StepOk) => (
                self.with_phase(Phase::ProbeDndArea),
                Action::ProbeDndArea,
            ),
            (Phase::ProbeDndArea, Event::DndVisible(_)) => (
                self.with_phase(Phase::FireDrop),
                Action::FireDrop,
            ),
            (Phase::FireDrop, Event::StepOk) => (
                self.with_phase(Phase::ConfirmItem),
                Action::AwaitFirstItem,
            ),
            (Phase::ConfirmItem, Event::ItemFound) => (
                self.with_phase(Phase::ReadCheckbox),
                Action::ReadCheckboxState,
            ),
            (Phase::ConfirmItem, Event::ItemMissing) => self.teardown_spec(
                Outcome::UploadNotRegistered,
            ),
            (Phase::ReadCheckbox, Event::CheckboxState(checked)) => if checked {
                self.after_checkbox_spec()
            } else {
                (
                    Session {
                        phase: Phase::ToggleCheckbox,
                        checkbox_clicks: (self.checkbox_clicks + 1) as usize,
                        ..self
                    },
                    Action::ClickCheckbox,
                )
            },
            (Phase::ToggleCheckbox, Event::StepOk) => self.after_checkbox_spec(),
            (Phase::ClickSend, Event::StepOk) => (self.with_phase(Phase::Poll), Action::PollDndArea),
            (Phase::Poll, Event::PollObservation { displayed, elapsed_secs }) => if !displayed {
                self.teardown_spec(Outcome::Success)
            } else if elapsed_secs > self.config.deadline_secs() {
                self.teardown_spec(Outcome::TimedOut)
            } else {
                (self, Action::Sleep { seconds: POLL_INTERVAL_SECS })
            },
            (Phase::AwaitOperator, Event::OperatorConfirmed) => self.teardown_spec(Outcome::Success),
            (Phase::CloseBrowser(o), Event::Closed) => if self.daemon_spawned {
                (
                    Session {
                        phase: Phase::KillDaemon(o),
                        close_count: (self.close_count + 1) as usize,
                        ..self
                    },
                    Action::KillDaemon,
                )
            } else {
                (
                    Session {
                        phase: Phase::Done(o),
                        close_count: (self.close_count + 1) as usize,
                        ..self
                    },
                    Action::Finish(o),
                )
            },
            (Phase::KillDaemon(o), Event::DaemonKilled) => (
                Session { phase: Phase::Done(o), kill_count: (self.kill_count + 1) as usize, ..self },
                Action::Finish(o),
            ),
            (_, Event::StepFailed) => self.teardown_spec(Outcome::AutomationFailure),
            _ => (self, Action::Finish(Outcome::AutomationFailure)),
        }
    }

    /// A fresh session for this configuration, with the first action to
    /// perform: spawn the daemon if this run owns one, else open the
    /// browser right away.
    pub fn begin(config: Config) -> (r: (Session, Action))
        requires
            config.wf(),
        ensures
            r.0.wf(),
            r.0.config == config,
            config.spawn_daemon ==> r.0.phase is SpawnDaemon && r.1 is SpawnDaemon,
            !config.spawn_daemon ==> r.0.phase is OpenBrowser && r.1 == (Action::OpenBrowser {
                headless: !config.debugging,
            }),
    {
        let session = Session {
            config,
            phase: if config.spawn_daemon {
                Phase::SpawnDaemon
            } else {
                Phase::OpenBrowser
            },
            daemon_spawned: false,
            browser_opened: false,
            close_count: 0,
            kill_count: 0,
            files_loaded: 0,
            checkbox_clicks: 0,
        };
        let action = if config.spawn_daemon {
            Action::SpawnDaemon
        } else {
            Action::OpenBrowser { headless: !config.debugging }
        };
        (session, action)
    }

    /// Whether the current phase can take this event. Callers that cannot
    /// see the phase may guard a `step` call with this.
    pub fn accepts(self, ev: Event) -> (r: bool)
        ensures
            r == self.expects(ev),
    {
        match (self.phase, ev) {
            (Phase::SpawnDaemon, Event::DaemonSpawned) => true,
            (Phase::SpawnDaemon, Event::DaemonFailed) => true,
            (Phase::OpenBrowser, Event::BrowserOpened) => true,
            (Phase::OpenBrowser, Event::BrowserFailed) => true,
            (Phase::Navigate, Event::StepOk) => true,
            (Phase::ClickSignIn, Event::StepOk) => true,
            (Phase::EnterEmail, Event::StepOk) => true,
            (Phase::ClickContinue, Event::StepOk) => true,
            (Phase::EnterPassword, Event::StepOk) => true,
            (Phase::SubmitSignIn, Event::StepOk) => true,
            (Phase::InjectInput, Event::StepOk) => true,
            (Phase::LoadFile, Event::StepOk) => true,
            (Phase::InjectDrop, Event::StepOk) => true,
            (Phase::FireDrop, Event::StepOk) => true,
            (Phase::ToggleCheckbox, Event::StepOk) => true,
            (Phase::ClickSend, Event::StepOk) => true,
            (Phase::ProbeDndArea, Event::DndVisible(_)) => true,
            (Phase::ConfirmItem, Event::ItemFound) => true,
            (Phase::ConfirmItem, Event::ItemMissing) => true,
            (Phase::ReadCheckbox, Event::CheckboxState(_)) => true,
            (Phase::Poll, Event::PollObservation { .. }) => true,
            (Phase::AwaitOperator, Event::OperatorConfirmed) => true,
            (Phase::CloseBrowser(_), Event::Closed) => true,
            (Phase::KillDaemon(_), Event::DaemonKilled) => true,
            (
                Phase::Navigate | Phase::ClickSignIn | Phase::EnterEmail | Phase::ClickContinue
                    | Phase::EnterPassword | Phase::SubmitSignIn | Phase::InjectInput
                    | Phase::LoadFile | Phase::InjectDrop | Phase::FireDrop | Phase::ToggleCheckbox
                    | Phase::ClickSend | Phase::ProbeDndArea | Phase::ReadCheckbox | Phase::Poll,
                Event::StepFailed,
            ) => true,
            _ => false,
        }
    }

    /// Advance the interaction script by one observed event: exactly the
    /// transition that `next_spec` gives, and the invariant is kept.
    #[verifier::rlimit(50)]
    pub fn step(self, ev: Event) -> (r: (Session, Action))
        requires
            self.wf(),
            self.expects(ev),
        ensures
            r == self.next_spec(ev),
            r.0.wf(),
            r.0.config == self.config,
    {
        match (self.phase, ev) {
            (Phase::SpawnDaemon, Event::DaemonSpawned) => (
                Session { phase: Phase::OpenBrowser, daemon_spawned: true, ..self },
                Action::OpenBrowser { headless: !self.config.debugging },
            ),
            (Phase::SpawnDaemon, Event::DaemonFailed) => (
                self.set_phase(Phase::Done(Outcome::DaemonSpawnFailed)),
                Action::Finish(Outcome::DaemonSpawnFailed),
            ),
            (Phase::OpenBrowser, Event::BrowserOpened) => (
                Session { phase: Phase::Navigate, browser_opened: true, ..self },
                Action::Navigate,
            ),
            (Phase::OpenBrowser, Event::BrowserFailed) => if self.daemon_spawned {
                (
                    self.set_phase(Phase::KillDaemon(Outcome::AutomationFailure)),
                    Action::KillDaemon,
                )
            } else {
                (
                    self.set_phase(Phase::Done(Outcome::AutomationFailure)),
                    Action::Finish(Outcome::AutomationFailure),
                )
            },
            (Phase::Navigate, Event::StepOk) => (
                self.set_phase(Phase::ClickSignIn),
                Action::ClickSignIn,
            ),
            (Phase::ClickSignIn, Event::StepOk) => (
                self.set_phase(Phase::EnterEmail),
                Action::TypeEmail,
            ),
            (Phase::EnterEmail, Event::StepOk) => (
                self.set_phase(Phase::ClickContinue),
                Action::ClickContinue,
            ),
            (Phase::ClickContinue, Event::StepOk) => (
                self.set_phase(Phase::EnterPassword),
                Action::TypePassword,
            ),
            (Phase::EnterPassword, Event::StepOk) => (
                self.set_phase(Phase::SubmitSignIn),
                Action::SubmitSignIn,
            ),
            (Phase::SubmitSignIn, Event::StepOk) => (
                self.set_phase(Phase::InjectInput),
                Action::InjectFileInput,
            ),
            (Phase::InjectInput, Event::StepOk) => if self.config.num_files > 0 {
                (self.set_phase(Phase::LoadFile), Action::LoadFile { index: 0 })
            } else {
                (self.set_phase(Phase::InjectDrop), Action::InjectDropHandler)
            },
            (Phase::LoadFile, Event::StepOk) => {
                let loaded = self.files_loaded + 1;
                if loaded < self.config.num_files {
                    (
                        Session { files_loaded: loaded, ..self },
                        Action::LoadFile { index: loaded },
                    )
                } else {
                    (
                        Session { phase: Phase::InjectDrop, files_loaded: loaded, ..self },
                        Action::InjectDropHandler,
                    )
                }
            },
            (Phase::InjectDrop, Event::StepOk) => (
                self.set_phase(Phase::ProbeDndArea),
                Action::ProbeDndArea,
            ),
            (Phase::ProbeDndArea, Event::DndVisible(_)) => (
                self.set_phase(Phase::FireDrop),
                Action::FireDrop,
            ),
            (Phase::FireDrop, Event::StepOk) => (
                self.set_phase(Phase::ConfirmItem),
                Action::AwaitFirstItem,
            ),
            (Phase::ConfirmItem, Event::ItemFound) => (
                self.set_phase(Phase::ReadCheckbox),
                Action::ReadCheckboxState,
            ),
            (Phase::ConfirmItem, Event::ItemMissing) => self.teardown(Outcome::UploadNotRegistered),
            (Phase::ReadCheckbox, Event::CheckboxState(checked)) => if checked {
                self.after_checkbox()
            } else {
                (
                    Session {
                        phase: Phase::ToggleCheckbox,
                        checkbox_clicks: self.checkbox_clicks + 1,
                        ..self
                    },
                    Action::ClickCheckbox,
                )
            },
            (Phase::ToggleCheckbox, Event::StepOk) => self.after_checkbox(),
            (Phase::ClickSend, Event::StepOk) => (
                self.set_phase(Phase::Poll),
                Action::PollDndArea,
            ),
            (Phase::Poll, Event::PollObservation { displayed, elapsed_secs }) => if !displayed {
                self.teardown(Outcome::Success)
            } else if elapsed_secs > self.config.num_files * self.config.file_timeout {
                self.teardown(Outcome::TimedOut)
            } else {
                (self, Action::Sleep { seconds: POLL_INTERVAL_SECS })
            },
            (Phase::AwaitOperator, Event::OperatorConfirmed) => self.teardown(Outcome::Success),
            (Phase::CloseBrowser(o), Event::Closed) => if self.daemon_spawned {
                (
                    Session {
                        phase: Phase::KillDaemon(o),
                        close_count: self.close_count + 1,
                        ..self
                    },
                    Action::KillDaemon,
                )
            } else {
                (
                    Session { phase: Phase::Done(o), close_count: self.close_count + 1, ..self },
                    Action::Finish(o),
                )
            },
            (Phase::KillDaemon(o), Event::DaemonKilled) => (
                Session { phase: Phase::Done(o), kill_count: self.kill_count + 1, ..self },
                Action::Finish(o),
            ),
            (_, Event::StepFailed) => self.teardown(Outcome::AutomationFailure),
            _ => {
                proof {
                    assert(false);
                }
                (self, Action::Finish(Outcome::AutomationFailure))
            },
        }
    }

    /// The same session in another phase.
    fn set_phase(self, phase: Phase) -> (r: Session)
        ensures
            r == self.with_phase(phase),
    {
        Session { phase, ..self }
    }

    /// Enter cleanup with the outcome fixed.
    fn teardown(self, o: Outcome) -> (r: (Session, Action))
        ensures
            r == self.teardown_spec(o),
    {
        (Session { phase: Phase::CloseBrowser(o), ..self }, Action::CloseBrowser)
    }

    /// Leave the checkbox step: send and poll, or wait for the operator in
    /// debugging mode.
    fn after_checkbox(self) -> (r: (Session, Action))
        ensures
            r == self.after_checkbox_spec(),
    {
        if self.config.debugging {
            (Session { phase: Phase::AwaitOperator, ..self }, Action::PromptOperator)
        } else {
            (Session { phase: Phase::ClickSend, ..self }, Action::ClickSend)
        }
    }
}

/// Law: on each poll after the send click, the script reports `Success`
/// the moment the drop area is no longer displayed; it abandons the wait
/// with `TimedOut` once the elapsed seconds exceed the overall deadline of
/// `num_files * file_timeout` seconds; otherwise it sleeps the fixed
/// interval and polls again, unchanged.
pub proof fn lemma_poll_deadline(s: Session, displayed: bool, elapsed_secs: usize)
    requires
        s.wf(),
        s.phase is Poll,
    ensures
        ({
            let (t, a) = s.next_spec(Event::PollObservation { displayed, elapsed_secs });
            &&& !displayed ==> t.phase == Phase::CloseBrowser(Outcome::Success) && a
                == Action::CloseBrowser
            &&& displayed && elapsed_secs > s.config.deadline_secs() ==> t.phase
                == Phase::CloseBrowser(Outcome::TimedOut) && a == Action::CloseBrowser
            &&& displayed && elapsed_secs <= s.config.deadline_secs() ==> t == s && a
                == (Action::Sleep { seconds: POLL_INTERVAL_SECS })
        }),
{
}

/// Law: every finished attempt, whatever its terminal outcome, has closed
/// the browser session exactly once if one was ever opened, and has
/// terminated the companion daemon exactly once if this session spawned
/// it. Together with `step`, which keeps the invariant, this holds at the
/// end of every run that `begin` starts.
pub proof fn lemma_cleanup(s: Session, o: Outcome)
    requires
        s.wf(),
        s.phase == Phase::Done(o),
    ensures
        s.close_count == (if s.browser_opened { 1int } else { 0int }),
        s.kill_count == (if s.daemon_spawned { 1int } else { 0int }),
{
}

/// Law: the "add to library" toggle is idempotent. A checkbox read as
/// checked is never clicked; one read as unchecked is clicked exactly
/// once. The invariant bounds the clicks of a whole run by one.
pub proof fn lemma_checkbox_idempotent(s: Session, checked: bool)
    requires
        s.wf(),
        s.phase is ReadCheckbox,
    ensures
        ({
            let (t, a) = s.next_spec(Event::CheckboxState(checked));
            &&& checked ==> a != Action::ClickCheckbox && t.checkbox_clicks == 0
            &&& !checked ==> a == Action::ClickCheckbox && t.checkbox_clicks == 1
        }),
{
}

} // verus!
