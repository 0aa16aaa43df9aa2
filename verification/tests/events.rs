use soteria::debug::struct_text;
use soteria::events::{AuthenticationAgentEvent, AuthenticationUserEvent};

/// The same shapes with the debug form of the standard library.
#[allow(dead_code)]
#[derive(Debug)]
enum Shape {
    Canceled { cookie: String },
    ProvidedPassword { cookie: String, username: String },
    Started { cookie: String, message: String, names: Vec<String> },
    AuthorizationSucceeded { cookie: String },
    AuthorizationRetry { cookie: String, retry_message: Option<String> },
    Info { cookie: String, message: String },
    SecretRequested { cookie: String, prompt: String },
}

/// A struct without fields.
#[derive(Debug)]
struct Bare {}

fn s(text: &str) -> String {
    text.to_string()
}

fn same_agent(event: AuthenticationAgentEvent, shape: Shape) {
    assert_eq!(event.fmt(false), format!("{:?}", shape));
    assert_eq!(event.fmt(true), format!("{:#?}", shape));
}

fn same_user(event: AuthenticationUserEvent, shape: Shape) {
    assert_eq!(event.fmt(false), format!("{:?}", shape));
    assert_eq!(event.fmt(true), format!("{:#?}", shape));
}

#[test]
fn user_events_have_the_standard_debug_form() {
    same_user(
        AuthenticationUserEvent::Canceled { cookie: s("c\"1\n") },
        Shape::Canceled { cookie: s("c\"1\n") },
    );
    same_user(
        AuthenticationUserEvent::ProvidedPassword {
            cookie: s("c"),
            username: s("\u{e9}lise\t"),
            password: s("hunter2"),
        },
        Shape::ProvidedPassword { cookie: s("c"), username: s("\u{e9}lise\t") },
    );
}

#[test]
fn the_password_is_not_in_the_debug_form() {
    let one = AuthenticationUserEvent::ProvidedPassword {
        cookie: s("c"),
        username: s("alice"),
        password: s("hunter2"),
    };
    let other = AuthenticationUserEvent::ProvidedPassword {
        cookie: s("c"),
        username: s("alice"),
        password: s("swordfish"),
    };
    assert_eq!(one.fmt(false), "ProvidedPassword { cookie: \"c\", username: \"alice\" }");
    assert_eq!(one.fmt(false), other.fmt(false));
    assert_eq!(one.fmt(true), other.fmt(true));
}

#[test]
fn agent_events_have_the_standard_debug_form() {
    let lists = vec![vec![], vec![s("alice")], vec![s("alice"), s("b\\ob"), s("")]];
    for names in lists {
        same_agent(
            AuthenticationAgentEvent::Started {
                cookie: s("c"),
                message: s("m"),
                names: names.clone(),
            },
            Shape::Started { cookie: s("c"), message: s("m"), names },
        );
    }
    same_agent(
        AuthenticationAgentEvent::Canceled { cookie: s("c") },
        Shape::Canceled { cookie: s("c") },
    );
    same_agent(
        AuthenticationAgentEvent::AuthorizationSucceeded { cookie: s("c") },
        Shape::AuthorizationSucceeded { cookie: s("c") },
    );
    for retry_message in vec![None, Some(s("again\n"))] {
        same_agent(
            AuthenticationAgentEvent::AuthorizationRetry {
                cookie: s("c"),
                retry_message: retry_message.clone(),
            },
            Shape::AuthorizationRetry { cookie: s("c"), retry_message },
        );
    }
    same_agent(
        AuthenticationAgentEvent::Info { cookie: s("c"), message: s("swipe") },
        Shape::Info { cookie: s("c"), message: s("swipe") },
    );
    same_agent(
        AuthenticationAgentEvent::SecretRequested { cookie: s("c"), prompt: s("PIN:") },
        Shape::SecretRequested { cookie: s("c"), prompt: s("PIN:") },
    );
}

#[test]
fn struct_text_on_one_line_on_many_and_without_fields() {
    let fields = vec![("a", s("1")), ("b", s("2"))];
    assert_eq!(struct_text("S", &fields, false), "S { a: 1, b: 2 }");
    assert_eq!(struct_text("S", &fields, true), "S {\n    a: 1,\n    b: 2,\n}");
    let none = vec![];
    assert_eq!(struct_text("Bare", &none, false), format!("{:?}", Bare {}));
    assert_eq!(struct_text("Bare", &none, true), format!("{:#?}", Bare {}));
    assert_eq!(struct_text("Bare", &none, false), "Bare");
}

#[test]
fn wiping_a_user_event_empties_its_strings() {
    let mut event = AuthenticationUserEvent::ProvidedPassword {
        cookie: s("c"),
        username: s("alice"),
        password: s("hunter2"),
    };
    event.zeroize();
    match &event {
        AuthenticationUserEvent::ProvidedPassword { cookie, username, password } => {
            assert_eq!((cookie.as_str(), username.as_str(), password.as_str()), ("", "", ""));
        }
        _ => panic!("another kind of event"),
    }
    let mut event = AuthenticationUserEvent::Canceled { cookie: s("c") };
    event.zeroize();
    assert!(matches!(&event, AuthenticationUserEvent::Canceled { cookie } if cookie.is_empty()));
}

#[test]
fn wiping_an_agent_event_empties_its_strings() {
    let mut event = AuthenticationAgentEvent::Started {
        cookie: s("c"),
        message: s("m"),
        names: vec![s("alice"), s("bob")],
    };
    event.zeroize();
    assert_eq!(event.fmt(false), "Started { cookie: \"\", message: \"\", names: [] }");
    let mut event = AuthenticationAgentEvent::AuthorizationRetry {
        cookie: s("c"),
        retry_message: Some(s("again")),
    };
    event.zeroize();
    assert_eq!(event.fmt(false), "AuthorizationRetry { cookie: \"\", retry_message: None }");
    let mut event = AuthenticationAgentEvent::SecretRequested { cookie: s("c"), prompt: s("p") };
    event.zeroize();
    assert_eq!(event.fmt(false), "SecretRequested { cookie: \"\", prompt: \"\" }");
    let mut event = AuthenticationAgentEvent::Info { cookie: s("c"), message: s("p") };
    event.zeroize();
    assert_eq!(event.fmt(false), "Info { cookie: \"\", message: \"\" }");
    let mut event = AuthenticationAgentEvent::AuthorizationSucceeded { cookie: s("c") };
    event.zeroize();
    assert_eq!(event.fmt(false), "AuthorizationSucceeded { cookie: \"\" }");
    let mut event = AuthenticationAgentEvent::Canceled { cookie: s("c") };
    event.zeroize();
    assert_eq!(event.fmt(false), "Canceled { cookie: \"\" }");
}

#[test]
fn debug_forms_tell_agent_events_apart() {
    let mut events = vec![];
    for cookie in vec!["", "c", "c\"", "c\", message: \"m", "\\", "\\\"", "\n"] {
        events.push(AuthenticationAgentEvent::Canceled { cookie: s(cookie) });
        events.push(AuthenticationAgentEvent::AuthorizationSucceeded { cookie: s(cookie) });
        for text in vec!["", "m", "None", "], names: [", "m\", \"n", "m\",\n        \"n"] {
            events.push(AuthenticationAgentEvent::Info { cookie: s(cookie), message: s(text) });
            events.push(AuthenticationAgentEvent::SecretRequested {
                cookie: s(cookie),
                prompt: s(text),
            });
            events.push(AuthenticationAgentEvent::AuthorizationRetry {
                cookie: s(cookie),
                retry_message: Some(s(text)),
            });
            for names in vec![vec![], vec![s("")], vec![s("m"), s("n")], vec![s("m\", \"n")]] {
                events.push(AuthenticationAgentEvent::Started {
                    cookie: s(cookie),
                    message: s(text),
                    names,
                });
            }
        }
        events.push(AuthenticationAgentEvent::AuthorizationRetry {
            cookie: s(cookie),
            retry_message: None,
        });
    }
    for pretty in vec![false, true] {
        let mut texts: Vec<String> = events.iter().map(|event| event.fmt(pretty)).collect();
        for event in &events {
            assert!(texts.contains(&event.clone().fmt(pretty)));
        }
        texts.sort();
        texts.dedup();
        assert_eq!(texts.len(), events.len());
    }
}

#[test]
fn debug_forms_tell_user_events_apart() {
    let mut texts = vec![];
    for cookie in vec!["", "c", "c\", username: \"u"] {
        texts.push(AuthenticationUserEvent::Canceled { cookie: s(cookie) }.fmt(false));
        for username in vec!["", "u", "u\" }"] {
            let event = AuthenticationUserEvent::ProvidedPassword {
                cookie: s(cookie),
                username: s(username),
                password: s("hunter2"),
            };
            texts.push(event.fmt(false));
        }
    }
    texts.sort();
    texts.dedup();
    assert_eq!(texts.len(), 12);
}
