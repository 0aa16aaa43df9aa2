//! The events that the agent and its user interface exchange.

use vstd::prelude::*;

use crate::debug::{list_text, option_text, quote, struct_text};
use crate::wipe::{wipe_optional_string, wipe_string, wipe_strings};

verus! {

/// What the user does.
#[derive(Clone)]
pub enum AuthenticationUserEvent {
    /// The user canceled the authentication.
    Canceled { cookie: String },
    /// The user provided their password.
    ProvidedPassword { cookie: String, username: String, password: String },
}

/// What the agent reports.
#[derive(Clone)]
pub enum AuthenticationAgentEvent {
    /// Agent has begun authentication.
    Started { cookie: String, message: String, names: Vec<String> },
    /// Polkit sent a request for the authentication to be canceled.
    Canceled { cookie: String },
    /// The user has successfully authenticated.
    AuthorizationSucceeded { cookie: String },
    /// The user provided a password, but it was incorrect.
    AuthorizationRetry { cookie: String, retry_message: Option<String> },
    /// The PAM stack emitted an info or error message, e.g. a fingerprint reader
    /// prompt. Surfaced to the user so non-password methods are usable.
    Info { cookie: String, message: String },
    /// The PAM stack is asking for a secret. The UI keeps its entry hidden during
    /// an eager non-password flow until this arrives, so methods like fingerprint
    /// don't show a confusing password box. `prompt` is the helper's prompt text.
    SecretRequested { cookie: String, prompt: String },
}

/// A user event with its strings as sequences of characters.
pub enum UserEventView {
    Canceled { cookie: Seq<char> },
    ProvidedPassword { cookie: Seq<char>, username: Seq<char>, password: Seq<char> },
}

/// An agent event with its strings as sequences of characters.
pub enum AgentEventView {
    Started { cookie: Seq<char>, message: Seq<char>, names: Seq<Seq<char>> },
    Canceled { cookie: Seq<char> },
    AuthorizationSucceeded { cookie: Seq<char> },
    AuthorizationRetry { cookie: Seq<char>, retry_message: Option<Seq<char>> },
    Info { cookie: Seq<char>, message: Seq<char> },
    SecretRequested { cookie: Seq<char>, prompt: Seq<char> },
}

impl View for AuthenticationUserEvent {
    type V = UserEventView;

    open spec fn view(&self) -> UserEventView {
        match self {
            AuthenticationUserEvent::Canceled { cookie } => UserEventView::Canceled {
                cookie: cookie@,
            },
            AuthenticationUserEvent::ProvidedPassword { cookie, username, password } => {
                UserEventView::ProvidedPassword {
                    cookie: cookie@,
                    username: username@,
                    password: password@,
                }
            },
        }
    }
}

impl View for AuthenticationAgentEvent {
    type V = AgentEventView;

    open spec fn view(&self) -> AgentEventView {
        match self {
            AuthenticationAgentEvent::Started { cookie, message, names } => {
                AgentEventView::Started {
                    cookie: cookie@,
                    message: message@,
                    names: names.deep_view(),
                }
            },
            AuthenticationAgentEvent::Canceled { cookie } => AgentEventView::Canceled {
                cookie: cookie@,
            },
            AuthenticationAgentEvent::AuthorizationSucceeded { cookie } => {
                AgentEventView::AuthorizationSucceeded { cookie: cookie@ }
            },
            AuthenticationAgentEvent::AuthorizationRetry { cookie, retry_message } => {
                AgentEventView::AuthorizationRetry {
                    cookie: cookie@,
                    retry_message: retry_message.deep_view(),
                }
            },
            AuthenticationAgentEvent::Info { cookie, message } => AgentEventView::Info {
                cookie: cookie@,
                message: message@,
            },
            AuthenticationAgentEvent::SecretRequested { cookie, prompt } => {
                AgentEventView::SecretRequested { cookie: cookie@, prompt: prompt@ }
            },
        }
    }
}

impl UserEventView {
    /// The authentication that the event belongs to.
    pub open spec fn cookie(self) -> Seq<char> {
        match self {
            UserEventView::Canceled { cookie } => cookie,
            UserEventView::ProvidedPassword { cookie, .. } => cookie,
        }
    }

    /// The same kind of event, with every string emptied.
    pub open spec fn wiped(self) -> UserEventView {
        match self {
            UserEventView::Canceled { .. } => UserEventView::Canceled { cookie: Seq::empty() },
            UserEventView::ProvidedPassword { .. } => UserEventView::ProvidedPassword {
                cookie: Seq::empty(),
                username: Seq::empty(),
                password: Seq::empty(),
            },
        }
    }

    /// The name of the event and its fields as the debug form shows them. The password is not
    /// among them.
    pub open spec fn debug_fields(self) -> (Seq<char>, Seq<(Seq<char>, Seq<char>)>) {
        match self {
            UserEventView::Canceled { cookie } => (
                "Canceled"@,
                seq![("cookie"@, crate::debug::quoted(cookie))],
            ),
            UserEventView::ProvidedPassword { cookie, username, .. } => (
                "ProvidedPassword"@,
                seq![
                    ("cookie"@, crate::debug::quoted(cookie)),
                    ("username"@, crate::debug::quoted(username)),
                ],
            ),
        }
    }

    /// The debug form, on one line or on one line per field.
    pub open spec fn debug_text(self, pretty: bool) -> Seq<char> {
        crate::debug::struct_text_of(self.debug_fields().0, self.debug_fields().1, pretty)
    }
}

impl AgentEventView {
    /// The authentication that the event belongs to.
    pub open spec fn cookie(self) -> Seq<char> {
        match self {
            AgentEventView::Started { cookie, .. } => cookie,
            AgentEventView::Canceled { cookie } => cookie,
            AgentEventView::AuthorizationSucceeded { cookie } => cookie,
            AgentEventView::AuthorizationRetry { cookie, .. } => cookie,
            AgentEventView::Info { cookie, .. } => cookie,
            AgentEventView::SecretRequested { cookie, .. } => cookie,
        }
    }

    /// The same kind of event, with every string emptied and every list and option cleared.
    pub open spec fn wiped(self) -> AgentEventView {
        match self {
            AgentEventView::Started { .. } => AgentEventView::Started {
                cookie: Seq::empty(),
                message: Seq::empty(),
                names: Seq::empty(),
            },
            AgentEventView::Canceled { .. } => AgentEventView::Canceled { cookie: Seq::empty() },
            AgentEventView::AuthorizationSucceeded { .. } => {
                AgentEventView::AuthorizationSucceeded { cookie: Seq::empty() }
            },
            AgentEventView::AuthorizationRetry { .. } => AgentEventView::AuthorizationRetry {
                cookie: Seq::empty(),
                retry_message: None,
            },
            AgentEventView::Info { .. } => AgentEventView::Info {
                cookie: Seq::empty(),
                message: Seq::empty(),
            },
            AgentEventView::SecretRequested { .. } => AgentEventView::SecretRequested {
                cookie: Seq::empty(),
                prompt: Seq::empty(),
            },
        }
    }

    /// The name of the event and its fields as the debug form shows them.
    pub open spec fn debug_fields(self, pretty: bool) -> (
        Seq<char>,
        Seq<(Seq<char>, Seq<char>)>,
    ) {
        match self {
            AgentEventView::Started { cookie, message, names } => (
                "Started"@,
                seq![
                    ("cookie"@, crate::debug::quoted(cookie)),
                    ("message"@, crate::debug::quoted(message)),
                    ("names"@, crate::debug::list_text_of(names, pretty)),
                ],
            ),
            AgentEventView::Canceled { cookie } => (
                "Canceled"@,
                seq![("cookie"@, crate::debug::quoted(cookie))],
            ),
            AgentEventView::AuthorizationSucceeded { cookie } => (
                "AuthorizationSucceeded"@,
                seq![("cookie"@, crate::debug::quoted(cookie))],
            ),
            AgentEventView::AuthorizationRetry { cookie, retry_message } => (
                "AuthorizationRetry"@,
                seq![
                    ("cookie"@, crate::debug::quoted(cookie)),
                    ("retry_message"@, crate::debug::option_text_of(retry_message, pretty)),
                ],
            ),
            AgentEventView::Info { cookie, message } => (
                "Info"@,
                seq![
                    ("cookie"@, crate::debug::quoted(cookie)),
                    ("message"@, crate::debug::quoted(message)),
                ],
            ),
            AgentEventView::SecretRequested { cookie, prompt } => (
                "SecretRequested"@,
                seq![
                    ("cookie"@, crate::debug::quoted(cookie)),
                    ("prompt"@, crate::debug::quoted(prompt)),
                ],
            ),
        }
    }

    /// The debug form, on one line or on one line per field.
    pub open spec fn debug_text(self, pretty: bool) -> Seq<char> {
        crate::debug::struct_text_of(
            self.debug_fields(pretty).0,
            self.debug_fields(pretty).1,
            pretty,
        )
    }
}

impl AuthenticationUserEvent {
    /// The debug form of the event, without the password; with `pretty`, one line per field.
    pub fn fmt(&self, pretty: bool) -> (r: String)
        ensures
            r@ == self@.debug_text(pretty),
    {
        let ghost (name, expected) = self@.debug_fields();
        match self {
            AuthenticationUserEvent::Canceled { cookie } => {
                let fields = vec![("cookie", quote(cookie))];
                assert(crate::debug::field_views(fields@) == expected);
                struct_text("Canceled", &fields, pretty)
            },
            AuthenticationUserEvent::ProvidedPassword { cookie, username, .. } => {
                let fields = vec![
                    ("cookie", quote(cookie)),
                    ("username", quote(username)),
                ];
                assert(crate::debug::field_views(fields@) == expected);
                struct_text("ProvidedPassword", &fields, pretty)
            },
        }
    }

    /// Erases every string of the event from memory, the password among them.
    pub fn zeroize(&mut self)
        ensures
            final(self)@ == old(self)@.wiped(),
    {
        match self {
            AuthenticationUserEvent::Canceled { cookie } => {
                wipe_string(cookie);
            },
            AuthenticationUserEvent::ProvidedPassword { cookie, username, password } => {
                wipe_string(cookie);
                wipe_string(username);
                wipe_string(password);
            },
        }
    }
}

impl AuthenticationAgentEvent {
    /// The debug form of the event; with `pretty`, one line per field.
    pub fn fmt(&self, pretty: bool) -> (r: String)
        ensures
            r@ == self@.debug_text(pretty),
    {
        let ghost (name, expected) = self@.debug_fields(pretty);
        match self {
            AuthenticationAgentEvent::Started { cookie, message, names } => {
                let fields = vec![
                    ("cookie", quote(cookie)),
                    ("message", quote(message)),
                    ("names", list_text(names, pretty)),
                ];
                assert(crate::debug::field_views(fields@) == expected);
                struct_text("Started", &fields, pretty)
            },
            AuthenticationAgentEvent::Canceled { cookie } => {
                let fields = vec![("cookie", quote(cookie))];
                assert(crate::debug::field_views(fields@) == expected);
                struct_text("Canceled", &fields, pretty)
            },
            AuthenticationAgentEvent::AuthorizationSucceeded { cookie } => {
                let fields = vec![("cookie", quote(cookie))];
                assert(crate::debug::field_views(fields@) == expected);
                struct_text("AuthorizationSucceeded", &fields, pretty)
            },
            AuthenticationAgentEvent::AuthorizationRetry { cookie, retry_message } => {
                let fields = vec![
                    ("cookie", quote(cookie)),
                    ("retry_message", option_text(retry_message, pretty)),
                ];
                assert(crate::debug::field_views(fields@) == expected);
                struct_text("AuthorizationRetry", &fields, pretty)
            },
            AuthenticationAgentEvent::Info { cookie, message } => {
                let fields = vec![
                    ("cookie", quote(cookie)),
                    ("message", quote(message)),
                ];
                assert(crate::debug::field_views(fields@) == expected);
                struct_text("Info", &fields, pretty)
            },
            AuthenticationAgentEvent::SecretRequested { cookie, prompt } => {
                let fields = vec![
                    ("cookie", quote(cookie)),
                    ("prompt", quote(prompt)),
                ];
                assert(crate::debug::field_views(fields@) == expected);
                struct_text("SecretRequested", &fields, pretty)
            },
        }
    }

    /// Erases every string of the event from memory.
    pub fn zeroize(&mut self)
        ensures
            final(self)@ == old(self)@.wiped(),
    {
        match self {
            AuthenticationAgentEvent::Started { cookie, message, names } => {
                wipe_string(cookie);
                wipe_string(message);
                wipe_strings(names);
                assert(names.deep_view() == Seq::<Seq<char>>::empty());
            },
            AuthenticationAgentEvent::Canceled { cookie } => {
                wipe_string(cookie);
            },
            AuthenticationAgentEvent::AuthorizationSucceeded { cookie } => {
                wipe_string(cookie);
            },
            AuthenticationAgentEvent::AuthorizationRetry { cookie, retry_message } => {
                wipe_string(cookie);
                wipe_optional_string(retry_message);
            },
            AuthenticationAgentEvent::Info { cookie, message } => {
                wipe_string(cookie);
                wipe_string(message);
            },
            AuthenticationAgentEvent::SecretRequested { cookie, prompt } => {
                wipe_string(cookie);
                wipe_string(prompt);
            },
        }
    }
}

/// The debug form of a user event says nothing of the password: two events that differ in the
/// password alone have the same debug form.
pub proof fn debug_form_is_independent_of_the_password(
    cookie: Seq<char>,
    username: Seq<char>,
    one: Seq<char>,
    other: Seq<char>,
    pretty: bool,
)
    ensures
        (UserEventView::ProvidedPassword { cookie, username, password: one }).debug_text(pretty)
            == (UserEventView::ProvidedPassword { cookie, username, password: other }).debug_text(
            pretty,
        ),
{
}

/// An event belongs to the authentication whose cookie it carries.
pub proof fn an_event_belongs_to_its_cookie(user: UserEventView, agent: AgentEventView)
    ensures
        user matches UserEventView::Canceled { cookie } ==> user.cookie() == cookie,
        user matches UserEventView::ProvidedPassword { cookie, .. } ==> user.cookie() == cookie,
        agent matches AgentEventView::Started { cookie, .. } ==> agent.cookie() == cookie,
        agent matches AgentEventView::Canceled { cookie } ==> agent.cookie() == cookie,
        agent matches AgentEventView::AuthorizationSucceeded { cookie } ==> agent.cookie()
            == cookie,
        agent matches AgentEventView::AuthorizationRetry { cookie, .. } ==> agent.cookie()
            == cookie,
        agent matches AgentEventView::Info { cookie, .. } ==> agent.cookie() == cookie,
        agent matches AgentEventView::SecretRequested { cookie, .. } ==> agent.cookie() == cookie,
{
}

/// Wiping an event leaves its kind and nothing of what it said: two events of one kind cannot be
/// told apart afterwards, and each of their strings is empty.
pub proof fn a_wiped_event_says_nothing(user: UserEventView, agent: AgentEventView)
    ensures
        match (user, user.wiped()) {
            (UserEventView::Canceled { .. }, UserEventView::Canceled { cookie }) => cookie.len()
                == 0,
            (
                UserEventView::ProvidedPassword { .. },
                UserEventView::ProvidedPassword { cookie, username, password },
            ) => cookie.len() == 0 && username.len() == 0 && password.len() == 0,
            _ => false,
        },
        match (agent, agent.wiped()) {
            (
                AgentEventView::Started { .. },
                AgentEventView::Started { cookie, message, names },
            ) => cookie.len() == 0 && message.len() == 0 && names.len() == 0,
            (AgentEventView::Canceled { .. }, AgentEventView::Canceled { cookie }) => cookie.len()
                == 0,
            (
                AgentEventView::AuthorizationSucceeded { .. },
                AgentEventView::AuthorizationSucceeded { cookie },
            ) => cookie.len() == 0,
            (
                AgentEventView::AuthorizationRetry { .. },
                AgentEventView::AuthorizationRetry { cookie, retry_message },
            ) => cookie.len() == 0 && retry_message is None,
            (AgentEventView::Info { .. }, AgentEventView::Info { cookie, message }) => cookie.len()
                == 0 && message.len() == 0,
            (
                AgentEventView::SecretRequested { .. },
                AgentEventView::SecretRequested { cookie, prompt },
            ) => cookie.len() == 0 && prompt.len() == 0,
            _ => false,
        },
{
}

/// The debug form of an agent event has all its fields, whole, under their names.
pub proof fn an_agent_event_is_printed_whole(
    cookie: Seq<char>,
    words: Seq<char>,
    names: Seq<Seq<char>>,
    reason: Option<Seq<char>>,
    pretty: bool,
)
    ensures
        ({
            let own = ("cookie"@, crate::debug::quoted(cookie));
            let said = ("message"@, crate::debug::quoted(words));
            &&& (AgentEventView::Started { cookie, message: words, names }).debug_text(pretty)
                == crate::debug::struct_text_of(
                "Started"@,
                seq![own, said, ("names"@, crate::debug::list_text_of(names, pretty))],
                pretty,
            )
            &&& (AgentEventView::Canceled { cookie }).debug_text(pretty)
                == crate::debug::struct_text_of("Canceled"@, seq![own], pretty)
            &&& (AgentEventView::AuthorizationSucceeded { cookie }).debug_text(pretty)
                == crate::debug::struct_text_of("AuthorizationSucceeded"@, seq![own], pretty)
            &&& (AgentEventView::AuthorizationRetry { cookie, retry_message: reason }).debug_text(
                pretty,
            ) == crate::debug::struct_text_of(
                "AuthorizationRetry"@,
                seq![own, ("retry_message"@, crate::debug::option_text_of(reason, pretty))],
                pretty,
            )
            &&& (AgentEventView::Info { cookie, message: words }).debug_text(pretty)
                == crate::debug::struct_text_of("Info"@, seq![own, said], pretty)
            &&& (AgentEventView::SecretRequested { cookie, prompt: words }).debug_text(pretty)
                == crate::debug::struct_text_of(
                "SecretRequested"@,
                seq![own, ("prompt"@, crate::debug::quoted(words))],
                pretty,
            )
        }),
{
}

/// The debug form of a user event has the cookie and the user, whole, under their names, and no
/// other field.
pub proof fn a_user_event_is_printed_without_the_password(
    cookie: Seq<char>,
    username: Seq<char>,
    password: Seq<char>,
    pretty: bool,
)
    ensures
        ({
            let own = ("cookie"@, crate::debug::quoted(cookie));
            &&& (UserEventView::Canceled { cookie }).debug_text(pretty)
                == crate::debug::struct_text_of("Canceled"@, seq![own], pretty)
            &&& (UserEventView::ProvidedPassword { cookie, username, password }).debug_text(pretty)
                == crate::debug::struct_text_of(
                "ProvidedPassword"@,
                seq![own, ("username"@, crate::debug::quoted(username))],
                pretty,
            )
        }),
{
}

} // verus!
