//! The authentication agent: what it does on each request of polkit, and in which order.
//!
//! One authentication is a state machine. `AuthenticationAgent::begin_authentication` gives its
//! first state and the first thing to do; `Authentication::step` takes what happened next and
//! gives the next state and the things to do then. Whoever drives it does them in order, and then
//! waits for what `Authentication::awaits` says. Where writing to the helper or reading from it
//! fails, that is what happened next.

use vstd::prelude::*;

use crate::events::{AuthenticationAgentEvent, AuthenticationUserEvent};
use crate::events::{AgentEventView, UserEventView};
use crate::helper::{helper_command, parse_line, socket_greeting, HelperCommand, HelperMessage};
use crate::helper::{HelperCommandView, HelperMessageView};
use crate::locale::translate;
use crate::text::terminated;
use crate::users::{user_names, Identity, IdentityView};

verus! {

/// The errors that polkit is answered with.
pub enum PolkitError {
    Failed(String),
    Cancelled(String),
}

/// An error with its text as a sequence of characters.
pub enum PolkitErrorView {
    Failed(Seq<char>),
    Cancelled(Seq<char>),
}

impl View for PolkitError {
    type V = PolkitErrorView;

    open spec fn view(&self) -> PolkitErrorView {
        match self {
            PolkitError::Failed(text) => PolkitErrorView::Failed(text@),
            PolkitError::Cancelled(text) => PolkitErrorView::Cancelled(text@),
        }
    }
}

/// Where the authentication helper is found.
pub struct SystemConfig {
    pub helper_path: String,
    pub socket_path: String,
}

/// A configuration with its paths as sequences of characters.
pub struct SystemConfigView {
    pub helper_path: Seq<char>,
    pub socket_path: Seq<char>,
}

impl View for SystemConfig {
    type V = SystemConfigView;

    open spec fn view(&self) -> SystemConfigView {
        SystemConfigView { helper_path: self.helper_path@, socket_path: self.socket_path@ }
    }
}

impl SystemConfig {
    /// The path of the helper program.
    pub fn get_helper_path(&self) -> (r: &str)
        ensures
            r@ == self@.helper_path,
    {
        self.helper_path.as_str()
    }

    /// The path of the agent socket.
    pub fn get_socket_path(&self) -> (r: &str)
        ensures
            r@ == self@.socket_path,
    {
        self.socket_path.as_str()
    }
}

/// The secret that is to be handed to the helper.
pub enum Secret {
    /// There is none: the helper waits for none, and what the user has given, if anything, has been
    /// handed over.
    Missing,
    /// The user has given one, and the helper has not asked for it.
    Held(String),
    /// The helper has asked for one and waits for it; the user has given none.
    Owed,
}

/// A secret as a sequence of characters.
pub enum SecretView {
    Missing,
    Held(Seq<char>),
    Owed,
}

impl View for Secret {
    type V = SecretView;

    open spec fn view(&self) -> SecretView {
        match self {
            Secret::Missing => SecretView::Missing,
            Secret::Held(secret) => SecretView::Held(secret@),
            Secret::Owed => SecretView::Owed,
        }
    }
}

/// How far an authentication has come.
pub enum Phase {
    /// The user interface is being told of the request. With a single identity the helper is then
    /// started for it at once, so that a method without a password can prompt right away.
    Announcing { eager_user: Option<String> },
    /// The user is to choose an identity and submit a password.
    AwaitingSubmission,
    /// The agent socket is being tried.
    Connecting { username: String, password: Option<String> },
    /// The helper program is being started, since the agent socket could not be reached.
    Spawning { username: String, password: Option<String> },
    /// The helper runs the PAM stack.
    Conversing { secret: Secret, last_info: Option<String> },
    /// Polkit has its answer.
    Finished,
}

/// A phase with its strings as sequences of characters.
pub enum PhaseView {
    Announcing { eager_user: Option<Seq<char>> },
    AwaitingSubmission,
    Connecting { username: Seq<char>, password: Option<Seq<char>> },
    Spawning { username: Seq<char>, password: Option<Seq<char>> },
    Conversing { secret: SecretView, last_info: Option<Seq<char>> },
    Finished,
}

impl View for Phase {
    type V = PhaseView;

    open spec fn view(&self) -> PhaseView {
        match self {
            Phase::Announcing { eager_user } => PhaseView::Announcing {
                eager_user: eager_user.deep_view(),
            },
            Phase::AwaitingSubmission => PhaseView::AwaitingSubmission,
            Phase::Connecting { username, password } => PhaseView::Connecting {
                username: username@,
                password: password.deep_view(),
            },
            Phase::Spawning { username, password } => PhaseView::Spawning {
                username: username@,
                password: password.deep_view(),
            },
            Phase::Conversing { secret, last_info } => PhaseView::Conversing {
                secret: secret@,
                last_info: last_info.deep_view(),
            },
            Phase::Finished => PhaseView::Finished,
        }
    }
}

/// What happened, of the things that an authentication waits for.
pub enum Input {
    /// The user interface was told of the request.
    Announced,
    /// The user interface could not be told of the request.
    AnnounceFailed,
    /// The user did something.
    User(AuthenticationUserEvent),
    /// No more user events can come.
    UserChannelClosed,
    /// The agent socket was reached.
    SocketConnected,
    /// The agent socket could not be reached.
    SocketUnavailable,
    /// The helper program runs.
    HelperSpawned,
    /// The helper program could not be started.
    SpawnFailed,
    /// The helper program was started without a standard input.
    StdinMissing,
    /// The helper program was started without a standard output.
    StdoutMissing,
    /// The helper wrote a line, given without its line feed.
    Line(String),
    /// The helper closed its output.
    HelperClosed,
    /// What was to be written to the helper could not be, or its next line could not be read; with
    /// the error's text.
    HelperFailed(String),
}

/// An input with its strings as sequences of characters.
pub enum InputView {
    Announced,
    AnnounceFailed,
    User(UserEventView),
    UserChannelClosed,
    SocketConnected,
    SocketUnavailable,
    HelperSpawned,
    SpawnFailed,
    StdinMissing,
    StdoutMissing,
    Line(Seq<char>),
    HelperClosed,
    HelperFailed(Seq<char>),
}

impl View for Input {
    type V = InputView;

    open spec fn view(&self) -> InputView {
        match self {
            Input::Announced => InputView::Announced,
            Input::AnnounceFailed => InputView::AnnounceFailed,
            Input::User(event) => InputView::User(event@),
            Input::UserChannelClosed => InputView::UserChannelClosed,
            Input::SocketConnected => InputView::SocketConnected,
            Input::SocketUnavailable => InputView::SocketUnavailable,
            Input::HelperSpawned => InputView::HelperSpawned,
            Input::SpawnFailed => InputView::SpawnFailed,
            Input::StdinMissing => InputView::StdinMissing,
            Input::StdoutMissing => InputView::StdoutMissing,
            Input::Line(text) => InputView::Line(text@),
            Input::HelperClosed => InputView::HelperClosed,
            Input::HelperFailed(text) => InputView::HelperFailed(text@),
        }
    }
}

/// Something to do.
pub enum Action {
    /// Tell the user interface, and report whether that went well.
    Announce(AuthenticationAgentEvent),
    /// Tell the user interface, and go on if that fails.
    Notify(AuthenticationAgentEvent),
    /// Try the agent socket at this path, and report whether it was reached.
    ConnectSocket(String),
    /// Start the helper program, and report whether it runs.
    SpawnHelper(HelperCommand),
    /// Write this text to the helper, and report it if that fails.
    Write(String),
    /// Let go of the helper's input and output.
    ReleaseHelper,
    /// Answer polkit.
    Finish(Result<(), PolkitError>),
}

/// An action with its strings as sequences of characters.
pub enum ActionView {
    Announce(AgentEventView),
    Notify(AgentEventView),
    ConnectSocket(Seq<char>),
    SpawnHelper(HelperCommandView),
    Write(Seq<char>),
    ReleaseHelper,
    Finish(Result<(), PolkitErrorView>),
}

impl View for Action {
    type V = ActionView;

    open spec fn view(&self) -> ActionView {
        match self {
            Action::Announce(event) => ActionView::Announce(event@),
            Action::Notify(event) => ActionView::Notify(event@),
            Action::ConnectSocket(path) => ActionView::ConnectSocket(path@),
            Action::SpawnHelper(command) => ActionView::SpawnHelper(command@),
            Action::Write(text) => ActionView::Write(text@),
            Action::ReleaseHelper => ActionView::ReleaseHelper,
            Action::Finish(Ok(_)) => ActionView::Finish(Ok(())),
            Action::Finish(Err(error)) => ActionView::Finish(Err(error@)),
        }
    }
}

impl DeepView for Action {
    type V = ActionView;

    open spec fn deep_view(&self) -> ActionView {
        self@
    }
}

/// What an authentication waits for.
#[derive(Clone, Copy, Debug, PartialEq, Eq, Structural)]
pub enum Awaited {
    /// Whether the user interface was told of the request.
    Delivery,
    /// The user. The helper is not to be read: there is none, or it waits for a secret.
    User,
    /// Whether the agent socket was reached.
    Socket,
    /// Whether the helper program runs.
    Launch,
    /// The user or the helper's next line, whichever comes first.
    HelperOrUser,
    /// Nothing: polkit has its answer.
    Nothing,
}

/// One authentication that polkit asked for.
pub struct Authentication {
    pub config: SystemConfig,
    /// Polkit's name for the authentication.
    pub cookie: String,
    pub phase: Phase,
}

/// The state of an authentication, with its strings as sequences of characters.
pub struct AuthenticationView {
    pub config: SystemConfigView,
    pub cookie: Seq<char>,
    pub phase: PhaseView,
}

impl View for Authentication {
    type V = AuthenticationView;

    open spec fn view(&self) -> AuthenticationView {
        AuthenticationView { config: self.config@, cookie: self.cookie@, phase: self.phase@ }
    }
}

/// The message for a failed attempt of which the helper has said nothing.
pub open spec fn failure_msgid() -> Seq<char> {
    "Authentication failed. Please try again."@
}

impl AuthenticationView {
    /// The same authentication in another phase.
    pub open spec fn at(self, phase: PhaseView) -> AuthenticationView {
        AuthenticationView { phase, ..self }
    }

    /// What the authentication waits for.
    pub open spec fn awaits(self) -> Awaited {
        match self.phase {
            PhaseView::Announcing { .. } => Awaited::Delivery,
            PhaseView::AwaitingSubmission => Awaited::User,
            PhaseView::Connecting { .. } => Awaited::Socket,
            PhaseView::Spawning { .. } => Awaited::Launch,
            PhaseView::Conversing { secret: SecretView::Owed, .. } => Awaited::User,
            PhaseView::Conversing { .. } => Awaited::HelperOrUser,
            PhaseView::Finished => Awaited::Nothing,
        }
    }

    /// Whether the input is of the kind that the authentication waits for.
    pub open spec fn accepts(self, input: InputView) -> bool {
        match input {
            InputView::Announced | InputView::AnnounceFailed => self.awaits() == Awaited::Delivery,
            InputView::User(_) | InputView::UserChannelClosed => {
                self.awaits() == Awaited::User || self.awaits() == Awaited::HelperOrUser
            },
            InputView::SocketConnected | InputView::SocketUnavailable => {
                self.awaits() == Awaited::Socket
            },
            InputView::HelperSpawned
            | InputView::SpawnFailed
            | InputView::StdinMissing
            | InputView::StdoutMissing => self.awaits() == Awaited::Launch,
            InputView::Line(_) | InputView::HelperClosed | InputView::HelperFailed(_) => {
                self.awaits() == Awaited::HelperOrUser
            },
        }
    }

    /// Polkit is answered with an error.
    pub open spec fn refused(self, error: PolkitErrorView) -> (AuthenticationView, Seq<ActionView>) {
        (self.at(PhaseView::Finished), seq![ActionView::Finish(Err(error))])
    }

    /// An attempt for a user begins, with the agent socket.
    pub open spec fn attempt(self, username: Seq<char>, password: Option<Seq<char>>) -> (
        AuthenticationView,
        Seq<ActionView>,
    ) {
        (
            self.at(PhaseView::Connecting { username, password }),
            seq![ActionView::ConnectSocket(self.config.socket_path)],
        )
    }

    /// The helper runs and is greeted.
    pub open spec fn greeted(self, greeting: Seq<char>, password: Option<Seq<char>>) -> (
        AuthenticationView,
        Seq<ActionView>,
    ) {
        let secret = match password {
            Some(password) => SecretView::Held(password),
            None => SecretView::Missing,
        };
        (
            self.at(PhaseView::Conversing { secret, last_info: None }),
            seq![ActionView::Write(greeting)],
        )
    }

    /// The attempt failed: the user is asked to retry, with the last thing that the helper said
    /// or else with `fallback`. The next attempt begins with a submission of the user, so that a
    /// module that fails at once cannot make the agent spin.
    pub open spec fn failed_attempt(self, last_info: Option<Seq<char>>, fallback: Seq<char>) -> (
        AuthenticationView,
        Seq<ActionView>,
    ) {
        let retry_message = match last_info {
            Some(info) => info,
            None => fallback,
        };
        (
            self.at(PhaseView::AwaitingSubmission),
            seq![
                ActionView::Notify(
                    AgentEventView::AuthorizationRetry {
                        cookie: self.cookie,
                        retry_message: Some(retry_message),
                    },
                ),
                ActionView::ReleaseHelper,
            ],
        )
    }

    /// The user did something. What belongs to another authentication is passed over.
    pub open spec fn on_user(self, event: UserEventView) -> (AuthenticationView, Seq<ActionView>) {
        if event.cookie() != self.cookie {
            (self, Seq::empty())
        } else {
            match event {
                UserEventView::Canceled { .. } => self.refused(
                    PolkitErrorView::Cancelled("User cancelled the authentication."@),
                ),
                UserEventView::ProvidedPassword { username, password, .. } => match self.phase {
                    PhaseView::AwaitingSubmission => self.attempt(username, Some(password)),
                    PhaseView::Conversing { secret: SecretView::Owed, last_info } => (
                        self.at(
                            PhaseView::Conversing { secret: SecretView::Missing, last_info },
                        ),
                        seq![ActionView::Write(crate::text::line_of(password))],
                    ),
                    PhaseView::Conversing { last_info, .. } => (
                        self.at(
                            PhaseView::Conversing { secret: SecretView::Held(password), last_info },
                        ),
                        Seq::empty(),
                    ),
                    _ => (self, Seq::empty()),
                },
            }
        }
    }

    /// The helper said something, while it is not owed a secret.
    pub open spec fn on_message(
        self,
        secret: SecretView,
        last_info: Option<Seq<char>>,
        message: HelperMessageView,
        fallback: Seq<char>,
    ) -> (AuthenticationView, Seq<ActionView>) {
        match message {
            HelperMessageView::Prompt(prompt) => match secret {
                SecretView::Held(password) => (
                    self.at(PhaseView::Conversing { secret: SecretView::Missing, last_info }),
                    seq![ActionView::Write(crate::text::line_of(password))],
                ),
                _ => (
                    self.at(PhaseView::Conversing { secret: SecretView::Owed, last_info }),
                    seq![
                        ActionView::Notify(
                            AgentEventView::SecretRequested { cookie: self.cookie, prompt },
                        ),
                    ],
                ),
            },
            HelperMessageView::Notice(text) => (
                self.at(PhaseView::Conversing { secret, last_info: Some(text) }),
                seq![
                    ActionView::Notify(AgentEventView::Info { cookie: self.cookie, message: text }),
                ],
            ),
            HelperMessageView::Success => (
                self.at(PhaseView::Finished),
                seq![
                    ActionView::Notify(
                        AgentEventView::AuthorizationSucceeded { cookie: self.cookie },
                    ),
                    ActionView::Finish(Ok(())),
                ],
            ),
            HelperMessageView::Failure => self.failed_attempt(last_info, fallback),
            HelperMessageView::Other => (
                self.at(PhaseView::Conversing { secret, last_info }),
                Seq::empty(),
            ),
        }
    }

    /// The next state, and what is to be done, on an input that the authentication waits for.
    pub open spec fn next(self, input: InputView, fallback: Seq<char>) -> (
        AuthenticationView,
        Seq<ActionView>,
    ) {
        match (self.phase, input) {
            (PhaseView::Announcing { eager_user }, InputView::Announced) => match eager_user {
                Some(username) => self.attempt(username, None),
                None => (self.at(PhaseView::AwaitingSubmission), Seq::empty()),
            },
            (PhaseView::Announcing { .. }, InputView::AnnounceFailed) => self.refused(
                PolkitErrorView::Failed("Failed to send data."@),
            ),
            (PhaseView::AwaitingSubmission, InputView::User(event)) => self.on_user(event),
            (PhaseView::Conversing { .. }, InputView::User(event)) => self.on_user(event),
            (PhaseView::AwaitingSubmission, InputView::UserChannelClosed) => self.refused(
                PolkitErrorView::Failed("Failed to receive data. channel closed"@),
            ),
            (PhaseView::Conversing { .. }, InputView::UserChannelClosed) => self.refused(
                PolkitErrorView::Failed("Failed to receive data. channel closed"@),
            ),
            (PhaseView::Connecting { username, password }, InputView::SocketConnected) => {
                self.greeted(crate::helper::socket_greeting_of(username, self.cookie), password)
            },
            (PhaseView::Connecting { username, password }, InputView::SocketUnavailable) => (
                self.at(PhaseView::Spawning { username, password }),
                seq![
                    ActionView::SpawnHelper(
                        crate::helper::command_of(self.config.helper_path, username),
                    ),
                ],
            ),
            (PhaseView::Spawning { password, .. }, InputView::HelperSpawned) => self.greeted(
                crate::text::line_of(self.cookie),
                password,
            ),
            (PhaseView::Spawning { .. }, InputView::SpawnFailed) => self.refused(
                PolkitErrorView::Failed("Failed to the spawn polkit authentication helper."@),
            ),
            (PhaseView::Spawning { .. }, InputView::StdinMissing) => self.refused(
                PolkitErrorView::Failed("Child did not have stdin."@),
            ),
            (PhaseView::Spawning { .. }, InputView::StdoutMissing) => self.refused(
                PolkitErrorView::Failed("Child did not have stdout."@),
            ),
            (PhaseView::Conversing { secret, last_info }, InputView::Line(line)) => if secret
                is Owed {
                (self, Seq::empty())
            } else {
                self.on_message(secret, last_info, crate::helper::message_of(line), fallback)
            },
            (PhaseView::Conversing { secret, last_info }, InputView::HelperClosed) => if secret
                is Owed {
                (self, Seq::empty())
            } else {
                self.failed_attempt(last_info, fallback)
            },
            (PhaseView::Conversing { .. }, InputView::HelperFailed(text)) => self.refused(
                PolkitErrorView::Failed(text),
            ),
            _ => (self, Seq::empty()),
        }
    }

    /// In some language, this is the next state, and what is to be done, on the input.
    pub open spec fn may_follow(
        self,
        input: InputView,
        then: AuthenticationView,
        actions: Seq<ActionView>,
    ) -> bool {
        exists|fallback: Seq<char>|
            {
                &&& self.uses_fallback(input) ==> crate::locale::is_translation(
                    failure_msgid(),
                    fallback,
                )
                &&& (then, actions) == #[trigger] self.next(input, fallback)
            }
    }

    /// Whether the step on this input asks the user to retry after an attempt of which the helper
    /// has said nothing.
    pub open spec fn uses_fallback(self, input: InputView) -> bool {
        &&& self.phase matches PhaseView::Conversing { secret, last_info }
        &&& !(secret is Owed)
        &&& last_info is None
        &&& match input {
            InputView::Line(line) => crate::helper::message_of(line) is Failure,
            InputView::HelperClosed => true,
            _ => false,
        }
    }
}

/// The first state of an authentication, and what is to be done first. With a single name the
/// helper will be started for it without waiting for the user.
pub open spec fn begun(
    config: SystemConfigView,
    message: Seq<char>,
    cookie: Seq<char>,
    names: Seq<Seq<char>>,
) -> (AuthenticationView, Seq<ActionView>) {
    (
        AuthenticationView {
            config,
            cookie,
            phase: PhaseView::Announcing {
                eager_user: if names.len() == 1 {
                    Some(names[0])
                } else {
                    None
                },
            },
        },
        seq![ActionView::Announce(AgentEventView::Started { cookie, message, names })],
    )
}

/// With some contents of the user database, this is the first state of an authentication for which
/// one of the identities is to answer, and what is to be done first.
pub open spec fn may_begin(
    config: SystemConfigView,
    message: Seq<char>,
    cookie: Seq<char>,
    identities: Seq<IdentityView>,
    first: AuthenticationView,
    actions: Seq<ActionView>,
) -> bool {
    exists|names: Seq<Seq<char>>|
        {
            &&& crate::users::may_answer(identities, names)
            &&& (first, actions) == #[trigger] begun(config, message, cookie, names)
        }
}

/// What the user interface is told when polkit cancels the authentication `cookie`.
pub open spec fn canceled(cookie: Seq<char>) -> AgentEventView {
    AgentEventView::Canceled { cookie }
}

impl Authentication {
    /// What the authentication waits for.
    pub fn awaits(&self) -> (r: Awaited)
        ensures
            r == self@.awaits(),
    {
        match &self.phase {
            Phase::Announcing { .. } => Awaited::Delivery,
            Phase::AwaitingSubmission => Awaited::User,
            Phase::Connecting { .. } => Awaited::Socket,
            Phase::Spawning { .. } => Awaited::Launch,
            Phase::Conversing { secret: Secret::Owed, .. } => Awaited::User,
            Phase::Conversing { .. } => Awaited::HelperOrUser,
            Phase::Finished => Awaited::Nothing,
        }
    }

    /// Whether the input is of the kind that the authentication waits for.
    pub fn accepts(&self, input: &Input) -> (r: bool)
        ensures
            r == self@.accepts(input@),
    {
        let awaited = self.awaits();
        match input {
            Input::Announced | Input::AnnounceFailed => awaited == Awaited::Delivery,
            Input::User(_) | Input::UserChannelClosed => {
                awaited == Awaited::User || awaited == Awaited::HelperOrUser
            },
            Input::SocketConnected | Input::SocketUnavailable => awaited == Awaited::Socket,
            Input::HelperSpawned
            | Input::SpawnFailed
            | Input::StdinMissing
            | Input::StdoutMissing => awaited == Awaited::Launch,
            Input::Line(_) | Input::HelperClosed | Input::HelperFailed(_) => {
                awaited == Awaited::HelperOrUser
            },
        }
    }

    fn at(self, phase: Phase) -> (r: Authentication)
        ensures
            r@ == self@.at(phase@),
    {
        Authentication { config: self.config, cookie: self.cookie, phase }
    }

    fn refuse(self, error: PolkitError) -> (r: (Authentication, Vec<Action>))
        ensures
            r.0@ == self@.refused(error@).0,
            r.1.deep_view() == self@.refused(error@).1,
    {
        (self.at(Phase::Finished), vec![Action::Finish(Err(error))])
    }

    fn attempt(self, username: String, password: Option<String>) -> (r: (
        Authentication,
        Vec<Action>,
    ))
        ensures
            r.0@ == self@.attempt(username@, password.deep_view()).0,
            r.1.deep_view() == self@.attempt(username@, password.deep_view()).1,
    {
        let path = self.config.get_socket_path().to_owned();
        (self.at(Phase::Connecting { username, password }), vec![Action::ConnectSocket(path)])
    }

    fn greet(self, greeting: String, password: Option<String>) -> (r: (
        Authentication,
        Vec<Action>,
    ))
        ensures
            r.0@ == self@.greeted(greeting@, password.deep_view()).0,
            r.1.deep_view() == self@.greeted(greeting@, password.deep_view()).1,
    {
        let secret = match password {
            Some(password) => Secret::Held(password),
            None => Secret::Missing,
        };
        (self.at(Phase::Conversing { secret, last_info: None }), vec![Action::Write(greeting)])
    }

    fn fail_attempt(self, last_info: Option<String>, fallback: String) -> (r: (
        Authentication,
        Vec<Action>,
    ))
        ensures
            r.0@ == self@.failed_attempt(last_info.deep_view(), fallback@).0,
            r.1.deep_view() == self@.failed_attempt(last_info.deep_view(), fallback@).1,
    {
        let retry_message = match last_info {
            Some(info) => info,
            None => fallback,
        };
        let event = AuthenticationAgentEvent::AuthorizationRetry {
            cookie: self.cookie.clone(),
            retry_message: Some(retry_message),
        };
        (self.at(Phase::AwaitingSubmission), vec![Action::Notify(event), Action::ReleaseHelper])
    }

    fn user_acted(self, event: &AuthenticationUserEvent) -> (r: (Authentication, Vec<Action>))
        ensures
            r.0@ == self@.on_user(event@).0,
            r.1.deep_view() == self@.on_user(event@).1,
    {
        match event {
            AuthenticationUserEvent::Canceled { cookie } => {
                if *cookie != self.cookie {
                    return (self, vec![]);
                }
                self.refuse(PolkitError::Cancelled("User cancelled the authentication.".to_owned()))
            },
            AuthenticationUserEvent::ProvidedPassword { cookie, username, password } => {
                if *cookie != self.cookie {
                    return (self, vec![]);
                }
                let Authentication { config, cookie, phase } = self;
                let (phase, actions) = match phase {
                    Phase::AwaitingSubmission => {
                        let waiting = Authentication { config, cookie, phase };
                        return waiting.attempt(username.clone(), Some(password.clone()));
                    },
                    Phase::Conversing { secret: Secret::Owed, last_info } => (
                        Phase::Conversing { secret: Secret::Missing, last_info },
                        vec![Action::Write(terminated(password))],
                    ),
                    Phase::Conversing { last_info, .. } => (
                        Phase::Conversing { secret: Secret::Held(password.clone()), last_info },
                        vec![],
                    ),
                    phase => (phase, vec![]),
                };
                (Authentication { config, cookie, phase }, actions)
            },
        }
    }

    /// The helper said something, while `secret` is held for it or missing.
    fn helper_said(
        self,
        secret: Secret,
        last_info: Option<String>,
        message: HelperMessage,
        fallback: String,
    ) -> (r: (Authentication, Vec<Action>))
        ensures
            r.0@ == self@.on_message(
                secret@,
                last_info.deep_view(),
                message@,
                fallback@,
            ).0,
            r.1.deep_view() == self@.on_message(
                secret@,
                last_info.deep_view(),
                message@,
                fallback@,
            ).1,
    {
        let cookie = self.cookie.clone();
        match message {
            HelperMessage::Prompt(prompt) => match secret {
                Secret::Held(password) => (
                    self.at(Phase::Conversing { secret: Secret::Missing, last_info }),
                    vec![Action::Write(terminated(&password))],
                ),
                _ => (
                    self.at(Phase::Conversing { secret: Secret::Owed, last_info }),
                    vec![
                        Action::Notify(AuthenticationAgentEvent::SecretRequested { cookie, prompt }),
                    ],
                ),
            },
            HelperMessage::Notice(text) => (
                self.at(Phase::Conversing { secret, last_info: Some(text.clone()) }),
                vec![Action::Notify(AuthenticationAgentEvent::Info { cookie, message: text })],
            ),
            HelperMessage::Success => (
                self.at(Phase::Finished),
                vec![
                    Action::Notify(AuthenticationAgentEvent::AuthorizationSucceeded { cookie }),
                    Action::Finish(Ok(())),
                ],
            ),
            HelperMessage::Failure => self.fail_attempt(last_info, fallback),
            HelperMessage::Other => (self.at(Phase::Conversing { secret, last_info }), vec![]),
        }
    }

    /// Whether the step on this input asks the user to retry after an attempt of which the helper
    /// has said nothing.
    fn needs_fallback(&self, input: &Input) -> (r: bool)
        ensures
            r == self@.uses_fallback(input@),
    {
        match &self.phase {
            Phase::Conversing { secret, last_info } => {
                if let Secret::Owed = secret {
                    return false;
                }
                if last_info.is_some() {
                    return false;
                }
                match input {
                    Input::Line(text) => match parse_line(text) {
                        HelperMessage::Failure => true,
                        _ => false,
                    },
                    Input::HelperClosed => true,
                    _ => false,
                }
            },
            _ => false,
        }
    }

    /// The next state, and what is to be done, on an input that the authentication waits for.
    /// After a failed attempt of which the helper has said nothing, the user is told `fallback`.
    pub fn step_with(self, input: &Input, fallback: String) -> (r: (Authentication, Vec<Action>))
        requires
            self@.accepts(input@),
        ensures
            r.0@ == self@.next(input@, fallback@).0,
            r.1.deep_view() == self@.next(input@, fallback@).1,
    {
        if let Input::User(event) = input {
            return self.user_acted(event);
        }
        let Authentication { config, cookie, phase } = self;
        match phase {
            Phase::Announcing { eager_user } => {
                let base = Authentication { config, cookie, phase: Phase::AwaitingSubmission };
                match input {
                    Input::Announced => match eager_user {
                        Some(username) => base.attempt(username, None),
                        None => (base, vec![]),
                    },
                    _ => base.refuse(PolkitError::Failed("Failed to send data.".to_owned())),
                }
            },
            Phase::AwaitingSubmission => {
                let base = Authentication { config, cookie, phase: Phase::AwaitingSubmission };
                base.refuse(
                    PolkitError::Failed("Failed to receive data. channel closed".to_owned()),
                )
            },
            Phase::Connecting { username, password } => {
                let greeting = socket_greeting(&username, &cookie);
                let command = helper_command(config.get_helper_path(), &username);
                let base = Authentication { config, cookie, phase: Phase::AwaitingSubmission };
                match input {
                    Input::SocketConnected => base.greet(greeting, password),
                    _ => (
                        base.at(Phase::Spawning { username, password }),
                        vec![Action::SpawnHelper(command)],
                    ),
                }
            },
            Phase::Spawning { password, .. } => {
                let greeting = terminated(&cookie);
                let base = Authentication { config, cookie, phase: Phase::AwaitingSubmission };
                match input {
                    Input::HelperSpawned => base.greet(greeting, password),
                    Input::SpawnFailed => base.refuse(
                        PolkitError::Failed(
                            "Failed to the spawn polkit authentication helper.".to_owned(),
                        ),
                    ),
                    Input::StdinMissing => base.refuse(
                        PolkitError::Failed("Child did not have stdin.".to_owned()),
                    ),
                    _ => base.refuse(
                        PolkitError::Failed("Child did not have stdout.".to_owned()),
                    ),
                }
            },
            Phase::Conversing { secret, last_info } => {
                let base = Authentication { config, cookie, phase: Phase::AwaitingSubmission };
                match input {
                    Input::Line(text) => base.helper_said(
                        secret,
                        last_info,
                        parse_line(text),
                        fallback,
                    ),
                    Input::HelperClosed => base.fail_attempt(last_info, fallback),
                    Input::HelperFailed(text) => base.refuse(PolkitError::Failed(text.clone())),
                    _ => base.refuse(
                        PolkitError::Failed("Failed to receive data. channel closed".to_owned()),
                    ),
                }
            },
            Phase::Finished => (Authentication { config, cookie, phase: Phase::Finished }, vec![]),
        }
    }

    /// The next state, and what is to be done, on an input that the authentication waits for.
    /// After a failed attempt of which the helper has said nothing, the user is told so in their
    /// language.
    pub fn step(self, input: &Input) -> (r: (Authentication, Vec<Action>))
        requires
            self@.accepts(input@),
        ensures
            exists|fallback: Seq<char>|
                {
                    &&& self@.uses_fallback(input@) ==> crate::locale::is_translation(
                        failure_msgid(),
                        fallback,
                    )
                    &&& r.0@ == (#[trigger] self@.next(input@, fallback)).0
                    &&& r.1.deep_view() == self@.next(input@, fallback).1
                },
            self@.may_follow(input@, r.0@, r.1.deep_view()),
    {
        let fallback = if self.needs_fallback(input) {
            proof {
                reveal_strlit("Authentication failed. Please try again.");
            }
            translate("Authentication failed. Please try again.")
        } else {
            String::new()
        };
        let ghost text = fallback@;
        let r = self.step_with(input, fallback);
        assert((r.0@, r.1.deep_view()) == self@.next(input@, text));
        r
    }
}

/// The agent that polkit asks to authenticate users.
pub struct AuthenticationAgent {
    pub config: SystemConfig,
}

impl AuthenticationAgent {
    /// An agent that finds the helper as `config` says.
    pub fn new(config: SystemConfig) -> (r: AuthenticationAgent)
        ensures
            r.config == config,
    {
        AuthenticationAgent { config }
    }

    /// What the user interface is told when polkit cancels an authentication.
    pub fn cancel_authentication(&self, cookie: &str) -> (r: AuthenticationAgentEvent)
        ensures
            r@ == (AgentEventView::Canceled { cookie: cookie@ }),
            r@ == canceled(cookie@),
    {
        AuthenticationAgentEvent::Canceled { cookie: cookie.to_owned() }
    }

    /// Begins an authentication for which one of the users with these names is to answer.
    pub fn begin_for(&self, message: &str, cookie: &str, names: Vec<String>) -> (r: (
        Authentication,
        Vec<Action>,
    ))
        ensures
            r.0@ == begun(self.config@, message@, cookie@, names.deep_view()).0,
            r.1.deep_view() == begun(self.config@, message@, cookie@, names.deep_view()).1,
    {
        let config = SystemConfig {
            helper_path: self.config.get_helper_path().to_owned(),
            socket_path: self.config.get_socket_path().to_owned(),
        };
        let eager_user = if names.len() == 1 {
            Some(names[0].clone())
        } else {
            None
        };
        (
            Authentication {
                config,
                cookie: cookie.to_owned(),
                phase: Phase::Announcing { eager_user },
            },
            vec![
                Action::Announce(
                    AuthenticationAgentEvent::Started {
                        cookie: cookie.to_owned(),
                        message: message.to_owned(),
                        names,
                    },
                ),
            ],
        )
    }

    /// Begins an authentication for which one of the identities is to answer. Those that stand
    /// for no known user are passed over.
    pub fn begin_authentication(&self, message: &str, cookie: &str, identities: &Vec<Identity>) -> (
        r: (Authentication, Vec<Action>))
        requires
            crate::users::all_well_formed(identities.deep_view()),
        ensures
            exists|answers: Seq<Option<Seq<char>>>|
                {
                    &&& crate::users::are_user_names(
                        crate::users::uids_of(identities.deep_view()),
                        answers,
                    )
                    &&& r.0@ == begun(
                        self.config@,
                        message@,
                        cookie@,
                        #[trigger] crate::users::names_of(answers),
                    ).0
                    &&& r.1.deep_view() == begun(
                        self.config@,
                        message@,
                        cookie@,
                        crate::users::names_of(answers),
                    ).1
                },
            may_begin(
                self.config@,
                message@,
                cookie@,
                identities.deep_view(),
                r.0@,
                r.1.deep_view(),
            ),
    {
        let names = user_names(identities);
        let ghost found = names.deep_view();
        let r = self.begin_for(message, cookie, names);
        assert((r.0@, r.1.deep_view()) == begun(self.config@, message@, cookie@, found));
        r
    }
}

} // verus!
