use soteria::dbus::{Action, Authentication, AuthenticationAgent, Awaited, Input, PolkitError};
use soteria::dbus::SystemConfig;
use soteria::events::{AuthenticationAgentEvent, AuthenticationUserEvent};
use soteria::ui::{App, AppMsg};
use soteria::users::{Identity, UidDetail};

fn s(text: &str) -> String {
    text.to_string()
}

fn agent() -> AuthenticationAgent {
    AuthenticationAgent::new(SystemConfig { helper_path: s("/helper"), socket_path: s("/socket") })
}

/// What an action does, in words.
fn told(action: &Action) -> String {
    match action {
        Action::Announce(event) => format!("announce {}", event.fmt(false)),
        Action::Notify(event) => format!("notify {}", event.fmt(false)),
        Action::ConnectSocket(path) => format!("connect {}", path),
        Action::SpawnHelper(command) => format!(
            "spawn {} {} {}={}",
            command.program, command.argument, command.variable, command.value
        ),
        Action::Write(text) => format!("write {:?}", text),
        Action::ReleaseHelper => s("release"),
        Action::Finish(Ok(())) => s("finish"),
        Action::Finish(Err(PolkitError::Failed(text))) => format!("failed {}", text),
        Action::Finish(Err(PolkitError::Cancelled(text))) => format!("cancelled {}", text),
    }
}

fn step(auth: Authentication, input: Input) -> (Authentication, Vec<String>) {
    assert!(auth.accepts(&input));
    let (next, actions) = auth.step_with(&input, s("It failed"));
    (next, actions.iter().map(told).collect())
}

fn line(text: &str) -> Input {
    Input::Line(s(text))
}

fn password(cookie: &str, username: &str, password: &str) -> Input {
    Input::User(AuthenticationUserEvent::ProvidedPassword {
        cookie: s(cookie),
        username: s(username),
        password: s(password),
    })
}

fn cancel(cookie: &str) -> Input {
    Input::User(AuthenticationUserEvent::Canceled { cookie: s(cookie) })
}

fn begin(names: &[&str]) -> Authentication {
    agent().begin_for("m", "c", names.iter().map(|name| s(name)).collect()).0
}

/// An authentication for a single user whose helper has been greeted over the socket.
fn eager() -> Authentication {
    let (auth, actions) = step(begin(&["alice"]), Input::Announced);
    assert_eq!(actions, vec!["connect /socket"]);
    let (auth, actions) = step(auth, Input::SocketConnected);
    assert_eq!(actions, vec!["write \"alice\\nc\\n\""]);
    auth
}

/// An authentication for which the user has submitted a password.
fn submitted() -> Authentication {
    let (auth, _) = step(begin(&["alice", "bob"]), Input::Announced);
    let (auth, actions) = step(auth, password("c", "bob", "hunter2"));
    assert_eq!(actions, vec!["connect /socket"]);
    step(auth, Input::SocketConnected).0
}

#[test]
fn the_window_is_told_first() {
    let (auth, actions) = agent().begin_for("m", "c", vec![s("alice"), s("bob")]);
    let actions: Vec<String> = actions.iter().map(told).collect();
    assert_eq!(
        actions,
        vec!["announce Started { cookie: \"c\", message: \"m\", names: [\"alice\", \"bob\"] }"]
    );
    assert_eq!(auth.awaits(), Awaited::Delivery);
    assert!(!auth.accepts(&Input::SocketConnected));
}

#[test]
fn an_undeliverable_request_fails() {
    let (auth, actions) = step(begin(&["alice"]), Input::AnnounceFailed);
    assert_eq!(actions, vec!["failed Failed to send data."]);
    assert_eq!(auth.awaits(), Awaited::Nothing);
}

#[test]
fn several_identities_wait_for_a_submission() {
    for names in vec![vec!["alice", "bob"], vec![]] {
        let (auth, actions) = step(begin(&names), Input::Announced);
        assert!(actions.is_empty());
        assert_eq!(auth.awaits(), Awaited::User);
        assert!(!auth.accepts(&line("SUCCESS")));
    }
}

#[test]
fn a_single_identity_starts_the_helper_at_once() {
    let (auth, actions) = step(begin(&["alice"]), Input::Announced);
    assert_eq!(actions, vec!["connect /socket"]);
    assert_eq!(auth.awaits(), Awaited::Socket);
}

#[test]
fn the_helper_is_spawned_where_there_is_no_socket() {
    let (auth, _) = step(begin(&["alice"]), Input::Announced);
    let (auth, actions) = step(auth, Input::SocketUnavailable);
    assert_eq!(actions, vec!["spawn /helper alice LC_ALL=C"]);
    assert_eq!(auth.awaits(), Awaited::Launch);
    let (auth, actions) = step(auth, Input::HelperSpawned);
    assert_eq!(actions, vec!["write \"c\\n\""]);
    assert_eq!(auth.awaits(), Awaited::HelperOrUser);
}

#[test]
fn a_helper_that_cannot_be_spawned_fails_the_request() {
    let cases = vec![
        (Input::SpawnFailed, "failed Failed to the spawn polkit authentication helper."),
        (Input::StdinMissing, "failed Child did not have stdin."),
        (Input::StdoutMissing, "failed Child did not have stdout."),
    ];
    for (input, expected) in cases {
        let (auth, _) = step(begin(&["alice"]), Input::Announced);
        let (auth, _) = step(auth, Input::SocketUnavailable);
        let (auth, actions) = step(auth, input);
        assert_eq!(actions, vec![expected]);
        assert_eq!(auth.awaits(), Awaited::Nothing);
    }
}

#[test]
fn a_submitted_password_answers_the_prompt() {
    let (auth, actions) = step(submitted(), line("PAM_PROMPT_ECHO_OFF Password: "));
    assert_eq!(actions, vec!["write \"hunter2\\n\""]);
    assert_eq!(auth.awaits(), Awaited::HelperOrUser);
    let (auth, actions) = step(auth, line("SUCCESS"));
    assert_eq!(
        actions,
        vec!["notify AuthorizationSucceeded { cookie: \"c\" }", "finish"]
    );
    assert_eq!(auth.awaits(), Awaited::Nothing);
}

#[test]
fn a_prompt_without_a_password_asks_the_user() {
    let (auth, actions) = step(eager(), line("PAM_PROMPT_ECHO_OFF Password: "));
    assert_eq!(
        actions,
        vec!["notify SecretRequested { cookie: \"c\", prompt: \"Password:\" }"]
    );
    assert_eq!(auth.awaits(), Awaited::User);
    assert!(!auth.accepts(&line("SUCCESS")));
    assert!(!auth.accepts(&Input::HelperClosed));
    let (auth, actions) = step(auth, password("c", "alice", "hunter2"));
    assert_eq!(actions, vec!["write \"hunter2\\n\""]);
    assert_eq!(auth.awaits(), Awaited::HelperOrUser);
    let (_, actions) = step(auth, line("PAM_PROMPT_ECHO_ON Code"));
    assert_eq!(actions, vec!["notify SecretRequested { cookie: \"c\", prompt: \"Code\" }"]);
}

#[test]
fn a_password_given_early_is_kept_for_the_prompt() {
    let (auth, actions) = step(eager(), password("c", "alice", "first"));
    assert!(actions.is_empty());
    let (auth, actions) = step(auth, password("c", "alice", "second"));
    assert!(actions.is_empty());
    let (auth, actions) = step(auth, line("PAM_PROMPT_ECHO_OFF"));
    assert_eq!(actions, vec!["write \"second\\n\""]);
    let (_, actions) = step(auth, line("PAM_PROMPT_ECHO_OFF"));
    assert_eq!(actions, vec!["notify SecretRequested { cookie: \"c\", prompt: \"\" }"]);
}

#[test]
fn notices_reach_the_window() {
    let (auth, actions) = step(eager(), line("PAM_TEXT_INFO Swipe your finger "));
    assert_eq!(actions, vec!["notify Info { cookie: \"c\", message: \"Swipe your finger\" }"]);
    let (auth, actions) = step(auth, line("PAM_ERROR_MSG No match"));
    assert_eq!(actions, vec!["notify Info { cookie: \"c\", message: \"No match\" }"]);
    let (auth, actions) = step(auth, line("something else"));
    assert!(actions.is_empty());
    assert_eq!(auth.awaits(), Awaited::HelperOrUser);
}

#[test]
fn a_failure_shows_the_last_notice_and_waits_for_the_user() {
    let (auth, _) = step(eager(), line("PAM_TEXT_INFO Swipe"));
    let (auth, _) = step(auth, line("PAM_ERROR_MSG No match"));
    let (auth, actions) = step(auth, line("FAILURE"));
    assert_eq!(
        actions,
        vec![
            "notify AuthorizationRetry { cookie: \"c\", retry_message: Some(\"No match\") }",
            "release",
        ]
    );
    assert_eq!(auth.awaits(), Awaited::User);
    assert!(!auth.accepts(&Input::HelperClosed));
}

#[test]
fn a_notice_of_an_earlier_attempt_is_not_shown_again() {
    let (auth, _) = step(eager(), line("PAM_TEXT_INFO Swipe"));
    let (auth, _) = step(auth, Input::HelperClosed);
    let (auth, actions) = step(auth, password("c", "alice", "p"));
    assert_eq!(actions, vec!["connect /socket"]);
    let (auth, _) = step(auth, Input::SocketConnected);
    let (_, actions) = step(auth, Input::HelperClosed);
    assert_eq!(
        actions,
        vec![
            "notify AuthorizationRetry { cookie: \"c\", retry_message: Some(\"It failed\") }",
            "release",
        ]
    );
}

#[test]
fn a_silent_failure_is_explained() {
    let (_, actions) = eager().step(&line("FAILURE"));
    let actions: Vec<String> = actions.iter().map(told).collect();
    assert_eq!(
        actions,
        vec![
            "notify AuthorizationRetry { cookie: \"c\", retry_message: Some(\"Authentication failed. Please try again.\") }",
            "release",
        ]
    );
}

#[test]
fn stepping_without_a_silent_failure_needs_no_text() {
    let (auth, actions) = eager().step(&line("PAM_TEXT_INFO Swipe"));
    assert_eq!(actions.iter().map(told).collect::<Vec<String>>().len(), 1);
    let (_, actions) = auth.step(&Input::HelperClosed);
    assert_eq!(
        told(&actions[0]),
        "notify AuthorizationRetry { cookie: \"c\", retry_message: Some(\"Swipe\") }"
    );
}

#[test]
fn the_user_can_cancel_wherever_they_are_waited_for() {
    let cancelled = vec!["cancelled User cancelled the authentication."];
    let (waiting, _) = step(begin(&[]), Input::Announced);
    let (owing, _) = step(eager(), line("PAM_PROMPT_ECHO_OFF"));
    for auth in vec![waiting, owing, eager(), submitted()] {
        let (auth, actions) = step(auth, cancel("c"));
        assert_eq!(actions, cancelled);
        assert_eq!(auth.awaits(), Awaited::Nothing);
        assert!(!auth.accepts(&cancel("c")));
    }
}

#[test]
fn a_closed_channel_fails_the_request() {
    let (waiting, _) = step(begin(&[]), Input::Announced);
    let (owing, _) = step(eager(), line("PAM_PROMPT_ECHO_OFF"));
    for auth in vec![waiting, owing, eager()] {
        let (_, actions) = step(auth, Input::UserChannelClosed);
        assert_eq!(actions, vec!["failed Failed to receive data. channel closed"]);
    }
}

#[test]
fn events_of_other_authentications_are_passed_over() {
    let (waiting, _) = step(begin(&[]), Input::Announced);
    let (auth, actions) = step(waiting, cancel("d"));
    assert!(actions.is_empty());
    let (auth, actions) = step(auth, password("d", "alice", "p"));
    assert!(actions.is_empty());
    assert_eq!(auth.awaits(), Awaited::User);
    let (owing, _) = step(eager(), line("PAM_PROMPT_ECHO_OFF"));
    let (owing, actions) = step(owing, password("d", "alice", "p"));
    assert!(actions.is_empty());
    assert_eq!(owing.awaits(), Awaited::User);
}

#[test]
fn polkit_cancels_by_cookie() {
    let event = agent().cancel_authentication("c");
    assert!(matches!(event, AuthenticationAgentEvent::Canceled { cookie } if cookie == "c"));
}

#[test]
fn identities_become_names() {
    let identities = vec![
        Identity { kind: s("unix-group"), uid: UidDetail::Missing },
        Identity { kind: s("unix-user"), uid: UidDetail::U32(0) },
    ];
    let (auth, actions) = agent().begin_authentication("m", "c", &identities);
    assert_eq!(
        told(&actions[0]),
        "announce Started { cookie: \"c\", message: \"m\", names: [\"root\"] }"
    );
    let (_, actions) = step(auth, Input::Announced);
    assert_eq!(actions, vec!["connect /socket"]);
}

#[test]
fn the_paths_are_those_of_the_configuration() {
    let agent = agent();
    assert_eq!(agent.config.get_helper_path(), "/helper");
    assert_eq!(agent.config.get_socket_path(), "/socket");
}

/// Tells the window what the agent did.
fn show(window: &mut App, actions: &Vec<Action>) {
    for action in actions {
        match action {
            Action::Announce(event) | Action::Notify(event) => {
                window.update(&AppMsg::AuthEvent(event.clone()));
            }
            _ => {}
        }
    }
}

#[test]
fn a_fingerprint_falls_through_to_a_password() {
    let mut window = App::init();
    let (auth, actions) = agent().begin_for("m", "c", vec![s("alice")]);
    show(&mut window, &actions);
    assert!(!window.show_password);
    let (auth, actions) = auth.step(&Input::Announced);
    show(&mut window, &actions);
    let (auth, actions) = auth.step(&Input::SocketConnected);
    show(&mut window, &actions);
    let (auth, actions) = auth.step(&line("PAM_TEXT_INFO Swipe"));
    show(&mut window, &actions);
    assert!(!window.show_password);
    assert_eq!(window.status(), "Swipe");
    let (auth, actions) = auth.step(&line("PAM_PROMPT_ECHO_OFF Password: "));
    show(&mut window, &actions);
    assert!(window.show_password);
    assert_eq!(window.prompt, "Password:");
    assert_eq!(window.status(), "");
    let sent = window.update(&AppMsg::Confirm { user: s("alice"), password: s("hunter2") });
    let (auth, actions) = auth.step(&Input::User(sent.unwrap()));
    assert_eq!(told(&actions[0]), "write \"hunter2\\n\"");
    show(&mut window, &actions);
    let (_, actions) = auth.step(&line("SUCCESS"));
    show(&mut window, &actions);
    assert!(!window.visible());
}

#[test]
fn a_written_password_is_not_used_again() {
    let (auth, actions) = step(submitted(), line("PAM_PROMPT_ECHO_OFF Password: "));
    assert_eq!(actions, vec!["write \"hunter2\\n\""]);
    let (auth, actions) = step(auth, line("PAM_PROMPT_ECHO_OFF Password: "));
    assert_eq!(
        actions,
        vec!["notify SecretRequested { cookie: \"c\", prompt: \"Password:\" }"]
    );
    let (auth, actions) = step(auth, password("c", "bob", "swordfish"));
    assert_eq!(actions, vec!["write \"swordfish\\n\""]);
    let (_, actions) = step(auth, line("PAM_PROMPT_ECHO_OFF Code: "));
    assert_eq!(actions, vec!["notify SecretRequested { cookie: \"c\", prompt: \"Code:\" }"]);
}

#[test]
fn no_password_is_carried_into_a_later_attempt() {
    let (auth, actions) = step(eager(), password("c", "alice", "early"));
    assert!(actions.is_empty());
    let (auth, _) = step(auth, line("FAILURE"));
    let (auth, actions) = step(auth, password("c", "alice", "late"));
    assert_eq!(actions, vec!["connect /socket"]);
    let (auth, _) = step(auth, Input::SocketConnected);
    let (auth, actions) = step(auth, line("PAM_PROMPT_ECHO_OFF"));
    assert_eq!(actions, vec!["write \"late\\n\""]);
    let (_, actions) = step(auth, line("PAM_PROMPT_ECHO_OFF"));
    assert_eq!(actions, vec!["notify SecretRequested { cookie: \"c\", prompt: \"\" }"]);
}

/// The events for the window that the actions send.
fn sent(actions: &Vec<Action>) -> Vec<AuthenticationAgentEvent> {
    let mut events = vec![];
    for action in actions {
        match action {
            Action::Announce(event) | Action::Notify(event) => events.push(event.clone()),
            _ => {}
        }
    }
    events
}

#[test]
fn a_window_that_lags_behind_still_shows_the_entry() {
    let mut window = App::init();
    let (auth, actions) = agent().begin_for("m", "c", vec![s("alice")]);
    let mut queue = vec![AuthenticationAgentEvent::Canceled { cookie: s("b") }];
    queue.append(&mut sent(&actions));
    let (auth, _) = auth.step(&Input::Announced);
    let (auth, _) = auth.step(&Input::SocketConnected);
    let (auth, actions) = auth.step(&line("PAM_TEXT_INFO Swipe"));
    queue.append(&mut sent(&actions));
    queue.push(AuthenticationAgentEvent::SecretRequested { cookie: s("b"), prompt: s("p") });
    let hidden = queue.len();
    let (auth, actions) = auth.step(&line("PAM_PROMPT_ECHO_OFF Password: "));
    queue.append(&mut sent(&actions));
    assert_eq!(auth.awaits(), Awaited::User);
    assert_eq!((hidden, queue.len()), (4, 5));
    for (i, event) in queue.into_iter().enumerate() {
        assert!(!window.show_password);
        window.update(&AppMsg::AuthEvent(event));
        assert_eq!(window.visible(), i >= 1);
    }
    assert!(window.show_password);
    assert!(window.editable());
}

#[test]
fn a_socket_that_fails_is_not_replaced_by_the_helper_program() {
    let (auth, actions) = step(eager(), Input::HelperFailed(s("Broken pipe")));
    assert_eq!(actions, vec!["failed Broken pipe"]);
    assert_eq!(auth.awaits(), Awaited::Nothing);
    assert!(!auth.accepts(&Input::SocketUnavailable));
    assert!(!auth.accepts(&Input::HelperFailed(s("again"))));
}

#[test]
fn a_helper_program_that_takes_no_cookie_fails_the_request() {
    let (auth, _) = step(begin(&["alice"]), Input::Announced);
    let (auth, _) = step(auth, Input::SocketUnavailable);
    let (auth, _) = step(auth, Input::HelperSpawned);
    let (auth, actions) = step(auth, Input::HelperFailed(s("Broken pipe")));
    assert_eq!(actions, vec!["failed Broken pipe"]);
    assert_eq!(auth.awaits(), Awaited::Nothing);
}

#[test]
fn a_secret_that_cannot_be_written_fails_the_request() {
    let (held, _) = step(submitted(), line("PAM_PROMPT_ECHO_OFF Password: "));
    let (owing, _) = step(eager(), line("PAM_PROMPT_ECHO_OFF Password: "));
    assert!(!owing.accepts(&Input::HelperFailed(s("nothing is read or written"))));
    let (owing, _) = step(owing, password("c", "alice", "hunter2"));
    for auth in vec![held, owing] {
        let (auth, actions) = step(auth, Input::HelperFailed(s("Broken pipe")));
        assert_eq!(actions, vec!["failed Broken pipe"]);
        assert_eq!(auth.awaits(), Awaited::Nothing);
    }
}

#[test]
fn a_failed_read_is_no_failed_attempt() {
    let (auth, _) = step(eager(), line("PAM_TEXT_INFO Swipe"));
    let (auth, actions) = auth.step(&Input::HelperFailed(s("stream did not contain valid UTF-8")));
    let actions: Vec<String> = actions.iter().map(told).collect();
    assert_eq!(actions, vec!["failed stream did not contain valid UTF-8"]);
    assert_eq!(auth.awaits(), Awaited::Nothing);
}
