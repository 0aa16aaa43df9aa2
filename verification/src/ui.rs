//! What the authentication window shows, and how it changes.

use vstd::prelude::*;

use crate::events::{AgentEventView, UserEventView};
use crate::events::{AuthenticationAgentEvent, AuthenticationUserEvent};
use crate::locale::translate;
use crate::users::current_user_name;
use crate::wipe::wipe_string;

verus! {

/// What the window is told.
pub enum AppMsg {
    /// The user submits a password for one of the identities.
    Confirm { user: String, password: String },
    /// The user closes the window.
    Cancel,
    /// The agent reports something.
    AuthEvent(AuthenticationAgentEvent),
}

/// A message with its strings as sequences of characters.
pub enum AppMsgView {
    Confirm { user: Seq<char>, password: Seq<char> },
    Cancel,
    AuthEvent(AgentEventView),
}

impl View for AppMsg {
    type V = AppMsgView;

    open spec fn view(&self) -> AppMsgView {
        match self {
            AppMsg::Confirm { user, password } => AppMsgView::Confirm {
                user: user@,
                password: password@,
            },
            AppMsg::Cancel => AppMsgView::Cancel,
            AppMsg::AuthEvent(event) => AppMsgView::AuthEvent(event@),
        }
    }
}

impl AppMsgView {
    /// The same kind of message, with every string emptied.
    pub open spec fn wiped(self) -> AppMsgView {
        match self {
            AppMsgView::Confirm { .. } => AppMsgView::Confirm {
                user: Seq::empty(),
                password: Seq::empty(),
            },
            AppMsgView::Cancel => AppMsgView::Cancel,
            AppMsgView::AuthEvent(event) => AppMsgView::AuthEvent(event.wiped()),
        }
    }
}

impl AppMsg {
    /// Erases every string of the message from memory, the password among them.
    pub fn zeroize(&mut self)
        ensures
            final(self)@ == old(self)@.wiped(),
    {
        match self {
            AppMsg::Confirm { user, password } => {
                wipe_string(user);
                wipe_string(password);
            },
            AppMsg::Cancel => {},
            AppMsg::AuthEvent(event) => {
                event.zeroize();
            },
        }
    }
}

/// The state of the authentication window.
pub struct App {
    pub message: String,
    pub identities: Vec<String>,
    /// The authentication that the window is open for.
    pub cookie: Option<String>,
    pub retry_message: Option<String>,
    pub authenticating: bool,
    /// Whether to show the password entry and its controls. Hidden during an
    /// eager non-password flow until the PAM stack asks for a secret, so the
    /// user isn't shown a password box they can't use.
    pub show_password: bool,
    /// Placeholder for the password entry, set from the helper's prompt text.
    pub prompt: String,
}

/// The state of the window with its strings as sequences of characters.
pub struct AppView {
    pub message: Seq<char>,
    pub identities: Seq<Seq<char>>,
    pub cookie: Option<Seq<char>>,
    pub retry_message: Option<Seq<char>>,
    pub authenticating: bool,
    pub show_password: bool,
    pub prompt: Seq<char>,
}

impl View for App {
    type V = AppView;

    open spec fn view(&self) -> AppView {
        AppView {
            message: self.message@,
            identities: self.identities.deep_view(),
            cookie: self.cookie.deep_view(),
            retry_message: self.retry_message.deep_view(),
            authenticating: self.authenticating,
            show_password: self.show_password,
            prompt: self.prompt@,
        }
    }
}

/// The placeholder of a password entry for which the helper gives no prompt.
pub open spec fn password_msgid() -> Seq<char> {
    "Password"@
}

/// The status while a submitted password is tried.
pub open spec fn authenticating_msgid() -> Seq<char> {
    "Authenticating..."@
}

/// A window that is open for no authentication.
pub open spec fn initial(prompt: Seq<char>) -> AppView {
    AppView {
        message: Seq::empty(),
        identities: Seq::empty(),
        cookie: None,
        retry_message: None,
        authenticating: false,
        show_password: false,
        prompt,
    }
}

impl AppView {
    /// The window closed. Only the prompt is kept.
    pub open spec fn closed(self, retry_message: Option<Seq<char>>) -> AppView {
        AppView { retry_message, ..initial(self.prompt) }
    }

    /// Whether the window is open for the authentication `cookie`.
    pub open spec fn is_open_for(self, cookie: Seq<char>) -> bool {
        self.cookie == Some(cookie)
    }

    /// The message whose translation the change on `message` shows, if it shows one.
    pub open spec fn shown_msgid(self, message: AppMsgView) -> Option<Seq<char>> {
        match message {
            AppMsgView::Confirm { .. } if self.cookie is Some => Some(authenticating_msgid()),
            AppMsgView::AuthEvent(AgentEventView::Started { .. }) if self.cookie is None => Some(
                password_msgid(),
            ),
            AppMsgView::AuthEvent(
                AgentEventView::SecretRequested { cookie, prompt },
            ) if self.is_open_for(cookie) && prompt.len() == 0 => Some(password_msgid()),
            _ => None,
        }
    }

    /// The state after an event of the agent. A window that is open for one authentication takes
    /// no notice of another; a new one is taken up only while the window is closed.
    pub open spec fn on_agent(self, event: AgentEventView, text: Seq<char>) -> AppView {
        match event {
            AgentEventView::Started { cookie, message, names } => if self.cookie is None {
                self.opened(cookie, message, names, text)
            } else {
                self
            },
            _ if !self.is_open_for(event.cookie()) => self,
            AgentEventView::Canceled { .. } => self.closed(None),
            AgentEventView::AuthorizationSucceeded { .. } => self.closed(None),
            AgentEventView::AuthorizationRetry { retry_message, .. } => AppView {
                retry_message,
                authenticating: false,
                show_password: true,
                ..self
            },
            AgentEventView::Info { message, .. } => AppView {
                retry_message: Some(message),
                ..self
            },
            AgentEventView::SecretRequested { prompt, .. } => AppView {
                show_password: true,
                authenticating: false,
                retry_message: None,
                prompt: if prompt.len() == 0 {
                    text
                } else {
                    prompt
                },
                ..self
            },
        }
    }

    /// The window opened for an authentication. With a single identity the helper is started at
    /// once, and the password entry stays hidden until it is asked for.
    pub open spec fn opened(
        self,
        cookie: Seq<char>,
        message: Seq<char>,
        names: Seq<Seq<char>>,
        prompt: Seq<char>,
    ) -> AppView {
        AppView {
            message,
            identities: names,
            cookie: Some(cookie),
            retry_message: None,
            authenticating: false,
            show_password: names.len() != 1,
            prompt,
        }
    }

    /// The state after a message, and what the agent is told. `text` is the translation that is
    /// shown, where one is.
    pub open spec fn updated(self, message: AppMsgView, text: Seq<char>) -> (
        AppView,
        Option<UserEventView>,
    ) {
        match message {
            AppMsgView::Confirm { user, password } => match self.cookie {
                Some(cookie) => (
                    AppView { retry_message: Some(text), authenticating: true, ..self },
                    Some(UserEventView::ProvidedPassword { cookie, username: user, password }),
                ),
                None => (self, None),
            },
            AppMsgView::Cancel => match self.cookie {
                Some(cookie) => (
                    self.closed(Some(Seq::empty())),
                    Some(UserEventView::Canceled { cookie }),
                ),
                None => (self, None),
            },
            AppMsgView::AuthEvent(event) => (self.on_agent(event, text), None),
        }
    }

    /// In some language, this is the state after a message, and what the agent is told.
    pub open spec fn may_become(
        self,
        message: AppMsgView,
        next: AppView,
        sent: Option<UserEventView>,
    ) -> bool {
        exists|text: Seq<char>|
            {
                &&& self.shown_msgid(message) matches Some(msgid) ==> crate::locale::is_translation(
                    msgid,
                    text,
                )
                &&& (next, sent) == #[trigger] self.updated(message, text)
            }
    }

    /// In some language, this is a window that is open for no authentication.
    pub open spec fn is_initial(self) -> bool {
        exists|prompt: Seq<char>|
            {
                &&& crate::locale::is_translation(password_msgid(), prompt)
                &&& self == #[trigger] initial(prompt)
            }
    }

    /// For some current user, the position of the identity that is chosen to begin with.
    pub open spec fn is_choice_of_current_user(self, position: int) -> bool {
        exists|user: Option<Seq<char>>|
            {
                &&& crate::users::is_current_user_name(user)
                &&& #[trigger] self.is_preselected_position(position, user)
            }
    }

    /// Whether the window is shown.
    pub open spec fn is_visible(self) -> bool {
        self.cookie is Some
    }

    /// Whether the password entry can be edited.
    pub open spec fn is_editable(self) -> bool {
        !self.authenticating
    }

    /// Whether the status line is shown.
    pub open spec fn has_status(self) -> bool {
        self.retry_message is Some
    }

    /// The status line: the last thing to be told to the user, or nothing.
    pub open spec fn status_text(self) -> Seq<char> {
        match self.retry_message {
            Some(message) => message,
            None => Seq::empty(),
        }
    }

    /// The margin below the message.
    pub open spec fn margin_below_message(self) -> int {
        if self.has_status() {
            8
        } else {
            16
        }
    }

    /// A place in the list, cut to the 32 bits of a list position, at which the identity that is
    /// chosen to begin with stands.
    pub open spec fn is_preselected_position(self, position: int, user: Option<Seq<char>>) -> bool {
        exists|place: int|
            #[trigger] self.is_preselected(place, user) && position == place % 0x1_0000_0000
    }

    /// The identity that is chosen to begin with: the first place at which `user` stands among
    /// the identities, or the first place of all.
    pub open spec fn is_preselected(self, place: int, user: Option<Seq<char>>) -> bool {
        match user {
            Some(name) if self.identities.contains(name) => {
                &&& 0 <= place < self.identities.len()
                &&& self.identities[place] == name
                &&& forall|i: int| 0 <= i < place ==> self.identities[i] != name
            },
            _ => place == 0,
        }
    }
}

impl App {
    /// A window that is open for no authentication, with this placeholder for its entry.
    pub fn init_with(prompt: String) -> (r: App)
        ensures
            r@ == initial(prompt@),
    {
        let r = App {
            message: String::new(),
            identities: Vec::new(),
            cookie: None,
            retry_message: None,
            authenticating: false,
            show_password: false,
            prompt,
        };
        assert(r.identities.deep_view() == Seq::<Seq<char>>::empty());
        r
    }

    /// A window that is open for no authentication.
    pub fn init() -> (r: App)
        ensures
            exists|prompt: Seq<char>|
                {
                    &&& crate::locale::is_translation(password_msgid(), prompt)
                    &&& r@ == #[trigger] initial(prompt)
                },
            r@.is_initial(),
    {
        App::init_with(password_text())
    }

    fn close(&mut self, retry_message: Option<String>)
        ensures
            final(self)@ == old(self)@.closed(retry_message.deep_view()),
    {
        self.cookie = None;
        self.message = String::new();
        self.identities = Vec::new();
        self.retry_message = retry_message;
        self.authenticating = false;
        self.show_password = false;
        assert(self.identities.deep_view() == Seq::<Seq<char>>::empty());
    }

    fn is_open_for(&self, cookie: &String) -> (r: bool)
        ensures
            r == self@.is_open_for(cookie@),
    {
        match &self.cookie {
            Some(own) => *own == *cookie,
            None => false,
        }
    }

    fn agent_reported(&mut self, event: &AuthenticationAgentEvent, text: String)
        ensures
            final(self)@ == old(self)@.on_agent(event@, text@),
    {
        match event {
            AuthenticationAgentEvent::Started { cookie, message, names } => {
                if self.cookie.is_none() {
                    self.cookie = Some(cookie.clone());
                    self.message = message.clone();
                    self.identities = copy_names(names);
                    self.authenticating = false;
                    self.retry_message = None;
                    self.prompt = text;
                    self.show_password = names.len() != 1;
                }
            },
            AuthenticationAgentEvent::Canceled { cookie } => {
                if self.is_open_for(cookie) {
                    self.close(None);
                }
            },
            AuthenticationAgentEvent::AuthorizationSucceeded { cookie } => {
                if self.is_open_for(cookie) {
                    self.close(None);
                }
            },
            AuthenticationAgentEvent::AuthorizationRetry { cookie, retry_message } => {
                if self.is_open_for(cookie) {
                    self.retry_message = match retry_message {
                        Some(message) => Some(message.clone()),
                        None => None,
                    };
                    self.authenticating = false;
                    self.show_password = true;
                }
            },
            AuthenticationAgentEvent::Info { cookie, message } => {
                if self.is_open_for(cookie) {
                    self.retry_message = Some(message.clone());
                }
            },
            AuthenticationAgentEvent::SecretRequested { cookie, prompt } => {
                if self.is_open_for(cookie) {
                    self.show_password = true;
                    self.authenticating = false;
                    self.retry_message = None;
                    self.prompt = if prompt.as_str().is_empty() {
                        text
                    } else {
                        prompt.clone()
                    };
                }
            },
        }
    }

    /// Changes the window as the message demands, and returns what the agent is to be told.
    /// `text` is shown where the change shows a translation.
    pub fn update_with(&mut self, message: &AppMsg, text: String) -> (r: Option<
        AuthenticationUserEvent,
    >)
        ensures
            final(self)@ == old(self)@.updated(message@, text@).0,
            match r {
                Some(event) => old(self)@.updated(message@, text@).1 == Some(event@),
                None => old(self)@.updated(message@, text@).1 is None,
            },
    {
        match message {
            AppMsg::Confirm { user, password } => match &self.cookie {
                Some(cookie) => {
                    let event = AuthenticationUserEvent::ProvidedPassword {
                        cookie: cookie.clone(),
                        username: user.clone(),
                        password: password.clone(),
                    };
                    self.retry_message = Some(text);
                    self.authenticating = true;
                    Some(event)
                },
                None => None,
            },
            AppMsg::Cancel => match &self.cookie {
                Some(cookie) => {
                    let event = AuthenticationUserEvent::Canceled { cookie: cookie.clone() };
                    self.close(Some(String::new()));
                    Some(event)
                },
                None => None,
            },
            AppMsg::AuthEvent(event) => {
                self.agent_reported(event, text);
                None
            },
        }
    }

    /// The translation that the change on `message` shows, or an empty text where it shows none.
    fn text_for(&self, message: &AppMsg) -> (text: String)
        ensures
            self@.shown_msgid(message@) matches Some(msgid) ==> crate::locale::is_translation(
                msgid,
                text@,
            ),
    {
        match message {
            AppMsg::Confirm { .. } => if self.cookie.is_some() {
                return authenticating_text();
            },
            AppMsg::Cancel => {},
            AppMsg::AuthEvent(AuthenticationAgentEvent::Started { .. }) => {
                if self.cookie.is_none() {
                    return password_text();
                }
            },
            AppMsg::AuthEvent(AuthenticationAgentEvent::SecretRequested { cookie, prompt }) => {
                if self.is_open_for(cookie) && prompt.as_str().is_empty() {
                    return password_text();
                }
            },
            AppMsg::AuthEvent(_) => {},
        }
        String::new()
    }

    /// Changes the window as the message demands, and returns what the agent is to be told.
    pub fn update(&mut self, message: &AppMsg) -> (r: Option<AuthenticationUserEvent>)
        ensures
            exists|text: Seq<char>|
                {
                    &&& old(self)@.shown_msgid(message@) matches Some(msgid)
                        ==> crate::locale::is_translation(msgid, text)
                    &&& final(self)@ == (#[trigger] old(self)@.updated(message@, text)).0
                    &&& match r {
                        Some(event) => old(self)@.updated(message@, text).1 == Some(event@),
                        None => old(self)@.updated(message@, text).1 is None,
                    }
                },
            old(self)@.may_become(
                message@,
                final(self)@,
                match r {
                    Some(event) => Some(event@),
                    None => None,
                },
            ),
    {
        let text = self.text_for(message);
        let ghost shown = text@;
        let r = self.update_with(message, text);
        assert(self@ == old(self)@.updated(message@, shown).0);
        r
    }

    /// Whether the window is shown.
    pub fn visible(&self) -> (r: bool)
        ensures
            r == (self@.cookie is Some),
            r == self@.is_visible(),
    {
        self.cookie.is_some()
    }

    /// The status line: the last thing to be told to the user, or nothing.
    pub fn status(&self) -> (r: String)
        ensures
            r@ == (match self@.retry_message {
                Some(message) => message,
                None => Seq::empty(),
            }),
            r@ == self@.status_text(),
    {
        match &self.retry_message {
            Some(message) => message.clone(),
            None => String::new(),
        }
    }

    /// Whether the status line is shown.
    pub fn status_visible(&self) -> (r: bool)
        ensures
            r == (self@.retry_message is Some),
            r == self@.has_status(),
    {
        self.retry_message.is_some()
    }

    /// The margin below the message: less of it where the status line follows.
    pub fn message_margin_bottom(&self) -> (r: i32)
        ensures
            r == (if self@.retry_message is Some {
                8int
            } else {
                16int
            }),
            r == self@.margin_below_message(),
    {
        if self.retry_message.is_some() {
            8
        } else {
            16
        }
    }

    /// Whether the password entry can be edited.
    pub fn editable(&self) -> (r: bool)
        ensures
            r == !self@.authenticating,
            r == self@.is_editable(),
    {
        !self.authenticating
    }

    /// The place of `user` among the identities, or the first place. It is cut to the 32 bits of
    /// a list position.
    pub fn preselected_for(&self, user: &Option<String>) -> (r: u32)
        ensures
            exists|place: int|
                #[trigger] self@.is_preselected(place, user.deep_view()) && r == place
                    % 0x1_0000_0000,
            self@.is_preselected_position(r as int, user.deep_view()),
    {
        let ghost names = self@.identities;
        match user {
            Some(name) => {
                let mut i: usize = 0;
                while i < self.identities.len()
                    invariant
                        i <= self.identities.len(),
                        names == self@.identities,
                        user.deep_view() == Some(name@),
                        forall|j: int| 0 <= j < i ==> names[j] != name@,
                    decreases self.identities.len() - i,
                {
                    assert(names[i as int] == self.identities[i as int]@);
                    if self.identities[i] == *name {
                        assert(names.contains(name@));
                        assert(self@.is_preselected(i as int, user.deep_view()));
                        let place: u64 = i as u64;
                        assert(place as u32 == place % 0x1_0000_0000) by (bit_vector);
                        return #[verifier::truncate] (place as u32);
                    }
                    i = i + 1;
                }
            },
            None => {},
        }
        assert(self@.is_preselected(0, user.deep_view()));
        0
    }

    /// The identity that is chosen to begin with: the current user, where they are among the
    /// identities.
    pub fn preselected(&self) -> (r: u32)
        ensures
            exists|user: Option<Seq<char>>, place: int|
                {
                    &&& crate::users::is_current_user_name(user)
                    &&& #[trigger] self@.is_preselected(place, user)
                    &&& r == place % 0x1_0000_0000
                },
            self@.is_choice_of_current_user(r as int),
    {
        let user = current_user_name();
        self.preselected_for(&user)
    }
}

/// A copy of a list of names.
fn copy_names(names: &Vec<String>) -> (r: Vec<String>)
    ensures
        r.deep_view() == names.deep_view(),
{
    let mut copy: Vec<String> = Vec::new();
    let mut i: usize = 0;
    while i < names.len()
        invariant
            i <= names.len(),
            copy.deep_view() == names.deep_view().take(i as int),
        decreases names.len() - i,
    {
        let ghost before = copy.deep_view();
        copy.push(names[i].clone());
        assert(copy.deep_view() == before.push(names[i as int]@));
        i = i + 1;
    }
    assert(copy.deep_view() == names.deep_view());
    copy
}

fn password_text() -> (text: String)
    ensures
        crate::locale::is_translation(password_msgid(), text@),
{
    proof {
        reveal_strlit("Password");
    }
    translate("Password")
}

fn authenticating_text() -> (text: String)
    ensures
        crate::locale::is_translation(authenticating_msgid(), text@),
{
    proof {
        reveal_strlit("Authenticating...");
    }
    translate("Authenticating...")
}

} // verus!
