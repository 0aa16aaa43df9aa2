use soteria::events::{AuthenticationAgentEvent, AuthenticationUserEvent};
use soteria::ui::{App, AppMsg};

fn s(text: &str) -> String {
    text.to_string()
}

fn started(cookie: &str, names: &[&str]) -> AppMsg {
    AppMsg::AuthEvent(AuthenticationAgentEvent::Started {
        cookie: s(cookie),
        message: s("Authentication is needed"),
        names: names.iter().map(|name| s(name)).collect(),
    })
}

fn open_for(cookie: &str, names: &[&str]) -> App {
    let mut app = App::init_with(s("Password"));
    assert!(app.update_with(&started(cookie, names), s("Kennwort")).is_none());
    app
}

#[test]
fn a_window_begins_closed() {
    let app = App::init();
    assert!(!app.visible());
    assert_eq!(app.message, "");
    assert!(app.identities.is_empty());
    assert!(app.editable());
    assert!(!app.show_password);
    assert!(!app.status_visible());
    assert_eq!(app.prompt, "Password");
}

#[test]
fn a_request_opens_the_window() {
    let app = open_for("c", &["alice", "bob"]);
    assert!(app.visible());
    assert_eq!(app.message, "Authentication is needed");
    assert_eq!(app.identities, vec![s("alice"), s("bob")]);
    assert_eq!(app.cookie, Some(s("c")));
    assert_eq!(app.prompt, "Kennwort");
    assert!(app.show_password);
}

#[test]
fn the_entry_is_hidden_with_a_single_identity() {
    assert!(!open_for("c", &["alice"]).show_password);
    assert!(open_for("c", &[]).show_password);
}

#[test]
fn a_second_request_is_ignored() {
    let mut app = open_for("c", &["alice"]);
    assert!(app.update(&started("d", &["bob", "carol"])).is_none());
    assert_eq!(app.cookie, Some(s("c")));
    assert_eq!(app.identities, vec![s("alice")]);
    assert_eq!(app.prompt, "Kennwort");
}

#[test]
fn confirming_sends_the_password() {
    let mut app = open_for("c", &["alice", "bob"]);
    let confirm = AppMsg::Confirm { user: s("bob"), password: s("hunter2") };
    match app.update_with(&confirm, s("Moment...")) {
        Some(AuthenticationUserEvent::ProvidedPassword { cookie, username, password }) => {
            assert_eq!((cookie, username, password), (s("c"), s("bob"), s("hunter2")));
        }
        _ => panic!("no password was sent"),
    }
    assert_eq!(app.status(), "Moment...");
    assert!(!app.editable());
    assert!(app.visible());
}

#[test]
fn confirming_shows_the_status_text() {
    let mut app = open_for("c", &["alice", "bob"]);
    app.update(&AppMsg::Confirm { user: s("bob"), password: s("x") });
    assert_eq!(app.status(), "Authenticating...");
}

#[test]
fn canceling_closes_the_window() {
    let mut app = open_for("c", &["alice", "bob"]);
    match app.update(&AppMsg::Cancel) {
        Some(AuthenticationUserEvent::Canceled { cookie }) => assert_eq!(cookie, "c"),
        _ => panic!("the agent was not told"),
    }
    assert!(!app.visible());
    assert_eq!(app.message, "");
    assert!(app.identities.is_empty());
    assert_eq!(app.retry_message, Some(String::new()));
    assert!(!app.show_password);
    assert_eq!(app.prompt, "Kennwort");
}

#[test]
fn a_closed_window_sends_nothing() {
    let mut app = App::init();
    assert!(app.update(&AppMsg::Cancel).is_none());
    assert!(app.update(&AppMsg::Confirm { user: s("u"), password: s("p") }).is_none());
    assert!(!app.status_visible());
    assert!(!app.authenticating);
}

#[test]
fn polkit_can_cancel() {
    let mut app = open_for("c", &["alice", "bob"]);
    app.update(&AppMsg::AuthEvent(AuthenticationAgentEvent::Canceled { cookie: s("d") }));
    assert!(app.visible());
    app.update(&AppMsg::AuthEvent(AuthenticationAgentEvent::Canceled { cookie: s("c") }));
    assert!(!app.visible());
    assert_eq!(app.retry_message, None);
    assert!(!app.show_password);
}

#[test]
fn success_closes_the_window() {
    let mut app = open_for("c", &["alice", "bob"]);
    let event = AuthenticationAgentEvent::AuthorizationSucceeded { cookie: s("c") };
    app.update(&AppMsg::AuthEvent(event));
    assert!(!app.visible());
    assert!(app.identities.is_empty());
    assert_eq!(app.message, "");
}

#[test]
fn a_retry_reveals_the_entry() {
    let mut app = open_for("c", &["alice"]);
    app.update(&AppMsg::Confirm { user: s("alice"), password: s("p") });
    let event = AuthenticationAgentEvent::AuthorizationRetry {
        cookie: s("c"),
        retry_message: Some(s("Try again")),
    };
    app.update(&AppMsg::AuthEvent(event));
    assert!(app.show_password);
    assert!(app.editable());
    assert_eq!(app.status(), "Try again");
}

#[test]
fn a_notice_is_shown_without_the_entry() {
    let mut app = open_for("c", &["alice"]);
    let event = AuthenticationAgentEvent::Info { cookie: s("c"), message: s("Swipe") };
    app.update(&AppMsg::AuthEvent(event));
    assert_eq!(app.status(), "Swipe");
    assert!(!app.show_password);
    let event = AuthenticationAgentEvent::Info { cookie: s("d"), message: s("Other") };
    app.update(&AppMsg::AuthEvent(event));
    assert_eq!(app.status(), "Swipe");
}

#[test]
fn a_requested_secret_reveals_the_entry_with_its_prompt() {
    let mut app = open_for("c", &["alice"]);
    let event = AuthenticationAgentEvent::Info { cookie: s("c"), message: s("Swipe") };
    app.update(&AppMsg::AuthEvent(event));
    let event = AuthenticationAgentEvent::SecretRequested { cookie: s("c"), prompt: s("PIN:") };
    app.update(&AppMsg::AuthEvent(event));
    assert!(app.show_password);
    assert_eq!(app.prompt, "PIN:");
    assert!(!app.status_visible());
    assert_eq!(app.status(), "");
}

#[test]
fn a_secret_without_a_prompt_is_a_password() {
    let mut app = open_for("c", &["alice"]);
    let event = AuthenticationAgentEvent::SecretRequested { cookie: s("c"), prompt: s("") };
    app.update(&AppMsg::AuthEvent(event));
    assert!(app.show_password);
    assert_eq!(app.prompt, "Password");
    let event = AuthenticationAgentEvent::SecretRequested { cookie: s("c"), prompt: s("") };
    app.update_with(&AppMsg::AuthEvent(event), s("Kennwort"));
    assert_eq!(app.prompt, "Kennwort");
}

#[test]
fn the_message_makes_room_for_the_status() {
    let mut app = open_for("c", &["alice"]);
    assert_eq!(app.message_margin_bottom(), 16);
    let event = AuthenticationAgentEvent::Info { cookie: s("c"), message: s("Swipe") };
    app.update(&AppMsg::AuthEvent(event));
    assert_eq!(app.message_margin_bottom(), 8);
}

#[test]
fn the_given_user_is_preselected() {
    let app = open_for("c", &["alice", "bob", "bob"]);
    assert_eq!(app.preselected_for(&Some(s("bob"))), 1);
    assert_eq!(app.preselected_for(&Some(s("alice"))), 0);
    assert_eq!(app.preselected_for(&Some(s("carol"))), 0);
    assert_eq!(app.preselected_for(&None), 0);
}

#[test]
fn some_identity_is_preselected() {
    let app = open_for("c", &["alice", "root", "bob"]);
    assert!(app.preselected() < 3);
}

#[test]
fn wiping_a_message_empties_its_strings() {
    let mut message = AppMsg::Confirm { user: s("alice"), password: s("hunter2") };
    message.zeroize();
    assert!(
        matches!(&message, AppMsg::Confirm { user, password } if user.is_empty() && password.is_empty())
    );
    let mut message = started("c", &["alice"]);
    message.zeroize();
    match &message {
        AppMsg::AuthEvent(event) => {
            assert_eq!(event.fmt(false), "Started { cookie: \"\", message: \"\", names: [] }");
        }
        _ => panic!("another kind of message"),
    }
    let mut message = AppMsg::Cancel;
    message.zeroize();
    assert!(matches!(message, AppMsg::Cancel));
}
