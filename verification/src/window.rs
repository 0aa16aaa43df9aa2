//! What holds of the window: when it opens and closes, what it shows, when it can be typed in, and
//! what the agent hears from it.

use vstd::prelude::*;

use crate::events::{AgentEventView, UserEventView};
use crate::ui::{AppMsgView, AppView};

verus! {

/// The agent's event is about the authentication `cookie` and belongs to a window that is open for
/// it.
pub open spec fn is_news_for(cookie: Seq<char>, message: AppMsgView) -> bool {
    match message {
        AppMsgView::AuthEvent(event) => match event {
            AgentEventView::Started { .. } => false,
            AgentEventView::Canceled { cookie: own } => own == cookie,
            AgentEventView::AuthorizationSucceeded { cookie: own } => own == cookie,
            AgentEventView::AuthorizationRetry { cookie: own, .. } => own == cookie,
            AgentEventView::Info { cookie: own, .. } => own == cookie,
            AgentEventView::SecretRequested { cookie: own, .. } => own == cookie,
        },
        _ => false,
    }
}

/// The agent reports that the authentication `cookie` is over, or the user closes the window.
pub open spec fn is_end_of(cookie: Seq<char>, message: AppMsgView) -> bool {
    ||| message is Cancel
    ||| message == AppMsgView::AuthEvent(AgentEventView::Canceled { cookie })
    ||| message == AppMsgView::AuthEvent(AgentEventView::AuthorizationSucceeded { cookie })
}

/// The agent asks the user of the authentication `cookie` for a password: for a secret, or for
/// another attempt.
pub open spec fn asks_for_password(cookie: Seq<char>, message: AppMsgView) -> bool {
    message matches AppMsgView::AuthEvent(event) && match event {
        AgentEventView::AuthorizationRetry { cookie: own, .. } => own == cookie,
        AgentEventView::SecretRequested { cookie: own, .. } => own == cookie,
        _ => false,
    }
}

/// A closed window opens on a request, for its authentication, and on nothing else. An open one
/// closes when the user closes it or the agent says that its authentication is over, and at no
/// other time; it is never taken over by another authentication.
pub proof fn a_window_opens_on_a_request_and_closes_at_its_end(
    window: AppView,
    message: AppMsgView,
    text: Seq<char>,
)
    ensures
        ({
            let next = window.updated(message, text).0;
            &&& window.cookie is None ==> match message {
                AppMsgView::AuthEvent(AgentEventView::Started { cookie, .. }) => {
                    next.cookie == Some(cookie) && next.is_visible()
                },
                _ => next.cookie is None && !next.is_visible(),
            }
            &&& window.cookie matches Some(cookie) ==> if is_end_of(cookie, message) {
                next.cookie is None && !next.is_visible()
            } else {
                next.cookie == Some(cookie) && next.is_visible()
            }
        }),
{
}

/// A window that has just been opened shows the message and offers all the identities of the
/// request; it has no status, shows the entry unless there is a single identity, and lets the user
/// type.
pub proof fn a_request_can_be_answered_at_once(
    window: AppView,
    cookie: Seq<char>,
    message: Seq<char>,
    names: Seq<Seq<char>>,
    text: Seq<char>,
)
    requires
        window.cookie is None,
    ensures
        ({
            let next = window.updated(
                AppMsgView::AuthEvent(AgentEventView::Started { cookie, message, names }),
                text,
            ).0;
            &&& next.is_visible()
            &&& next.is_editable()
            &&& next.message == message
            &&& next.identities == names
            &&& !next.has_status()
            &&& next.show_password <==> names.len() != 1
            &&& next.prompt == text
        }),
{
}

/// As long as a window stays open for one authentication, its message and its identities are those
/// of the request: whatever the user or the agent does, they do not change. A window that closes
/// forgets them, and a closed one does not change them but for a request.
pub proof fn an_open_window_keeps_its_request(
    window: AppView,
    message: AppMsgView,
    text: Seq<char>,
)
    ensures
        ({
            let next = window.updated(message, text).0;
            &&& window.cookie is Some && next.cookie == window.cookie ==> next.message
                == window.message && next.identities == window.identities
            &&& window.cookie is Some && next.cookie is None ==> next.message.len() == 0
                && next.identities.len() == 0
            &&& window.cookie is None && next.cookie is None ==> next.message == window.message
                && next.identities == window.identities
        }),
{
}

/// The window after the messages, each with the text that it shows where it shows a translation.
pub open spec fn after_all(window: AppView, messages: Seq<(AppMsgView, Seq<char>)>) -> AppView
    decreases messages.len(),
{
    if messages.len() == 0 {
        window
    } else {
        after_all(window, messages.drop_last()).updated(messages.last().0, messages.last().1).0
    }
}

/// Whatever has happened since a closed window was opened, the message and the identities that it
/// shows while it is open are those of one request, the one with its cookie.
pub proof fn a_window_shows_the_request_that_opened_it(
    window: AppView,
    messages: Seq<(AppMsgView, Seq<char>)>,
) -> (k: int)
    requires
        window.cookie is None,
    ensures
        ({
            let then = after_all(window, messages);
            then.cookie matches Some(cookie) ==> {
                &&& 0 <= k < messages.len()
                &&& messages[k].0 == AppMsgView::AuthEvent(
                    AgentEventView::Started {
                        cookie,
                        message: then.message,
                        names: then.identities,
                    },
                )
            }
        }),
    decreases messages.len(),
{
    if messages.len() == 0 {
        0
    } else {
        let sooner = messages.drop_last();
        let k = a_window_shows_the_request_that_opened_it(window, sooner);
        let before = after_all(window, sooner);
        a_window_opens_on_a_request_and_closes_at_its_end(
            before,
            messages.last().0,
            messages.last().1,
        );
        an_open_window_keeps_its_request(before, messages.last().0, messages.last().1);
        if before.cookie is Some {
            k
        } else {
            messages.len() - 1
        }
    }
}

/// The entry is locked by confirming a password, and by nothing else; it stays locked until the
/// agent asks for a secret or for another attempt, or the window closes, and no longer. What else
/// is said, to this authentication or to others, neither locks nor unlocks it.
pub proof fn the_entry_is_locked_while_a_password_is_tried(
    window: AppView,
    message: AppMsgView,
    text: Seq<char>,
)
    requires
        window.cookie is None ==> window.is_editable(),
    ensures
        ({
            let next = window.updated(message, text).0;
            !next.is_editable() <==> (window.cookie matches Some(cookie) && !is_end_of(
                cookie,
                message,
            ) && (message is Confirm || !window.is_editable() && !asks_for_password(
                cookie,
                message,
            )))
        }),
{
}

/// Where the entry of an open window is locked, the user has confirmed a password in this window,
/// and the agent has neither begun, nor asked for a secret or for another attempt, since: so the
/// user is never locked out while the agent waits for them.
pub proof fn a_locked_entry_means_a_password_is_tried(
    window: AppView,
    messages: Seq<(AppMsgView, Seq<char>)>,
) -> (k: int)
    requires
        window.cookie is None,
        window.is_editable(),
    ensures
        ({
            let then = after_all(window, messages);
            &&& then.cookie is None ==> then.is_editable()
            &&& !then.is_editable() ==> {
                &&& 0 <= k < messages.len()
                &&& messages[k].0 is Confirm
                &&& forall|j: int|
                    k < j < messages.len() ==> !asks_for_password(
                        then.cookie->0,
                        (#[trigger] messages[j]).0,
                    ) && !is_end_of(then.cookie->0, messages[j].0)
            }
        }),
    decreases messages.len(),
{
    if messages.len() == 0 {
        0
    } else {
        let sooner = messages.drop_last();
        let k = a_locked_entry_means_a_password_is_tried(window, sooner);
        let before = after_all(window, sooner);
        let last = messages.last();
        the_entry_is_locked_while_a_password_is_tried(before, last.0, last.1);
        a_window_opens_on_a_request_and_closes_at_its_end(before, last.0, last.1);
        if last.0 is Confirm {
            messages.len() - 1
        } else {
            let then = after_all(window, messages);
            if !then.is_editable() {
                assert forall|j: int| k < j < messages.len() implies !asks_for_password(
                    then.cookie->0,
                    (#[trigger] messages[j]).0,
                ) && !is_end_of(then.cookie->0, messages[j].0) by {
                    if j < sooner.len() {
                        assert(sooner[j] == messages[j]);
                    }
                }
            }
            k
        }
    }
}

/// The entry is shown when the agent asks for a password, and with a request of other than one
/// identity; it is hidden by a request of one identity and by the end of the authentication. At
/// all other times it stays as it is.
pub proof fn the_entry_is_shown_when_it_is_needed(
    window: AppView,
    message: AppMsgView,
    text: Seq<char>,
)
    ensures
        ({
            let next = window.updated(message, text).0;
            next.show_password <==> match (window.cookie, message) {
                (None, AppMsgView::AuthEvent(AgentEventView::Started { names, .. })) => {
                    names.len() != 1
                },
                (None, _) => window.show_password,
                (Some(cookie), _) => !is_end_of(cookie, message) && (window.show_password
                    || asks_for_password(cookie, message)),
            }
        }),
{
}

/// What the helper has to say, to the user of the open authentication, is shown word for word in
/// the status line.
pub proof fn a_notice_is_shown_as_it_is(
    window: AppView,
    cookie: Seq<char>,
    notice: Seq<char>,
    text: Seq<char>,
)
    requires
        window.cookie == Some(cookie),
    ensures
        ({
            let next = window.updated(
                AppMsgView::AuthEvent(AgentEventView::Info { cookie, message: notice }),
                text,
            ).0;
            &&& next.has_status()
            &&& next.status_text() == notice
            &&& next == (AppView { retry_message: next.retry_message, ..window })
        }),
{
}

/// After a failed attempt the reason is shown word for word, where there is one, and the user can
/// type again.
pub proof fn a_retry_is_explained_and_can_be_answered(
    window: AppView,
    cookie: Seq<char>,
    reason: Option<Seq<char>>,
    text: Seq<char>,
)
    requires
        window.cookie == Some(cookie),
    ensures
        ({
            let next = window.updated(
                AppMsgView::AuthEvent(
                    AgentEventView::AuthorizationRetry { cookie, retry_message: reason },
                ),
                text,
            ).0;
            &&& reason matches Some(words) ==> next.has_status() && next.status_text() == words
            &&& reason is None ==> !next.has_status() && next.status_text().len() == 0
            &&& next.show_password
            &&& next.is_editable()
            &&& next.prompt == window.prompt
        }),
{
}

/// A request for a secret shows the helper's prompt word for word, and where it gives none the
/// text for that case; what was said before is cleared, and the user can type.
pub proof fn a_secret_is_asked_for_with_its_prompt(
    window: AppView,
    cookie: Seq<char>,
    prompt: Seq<char>,
    text: Seq<char>,
)
    requires
        window.cookie == Some(cookie),
    ensures
        ({
            let next = window.updated(
                AppMsgView::AuthEvent(AgentEventView::SecretRequested { cookie, prompt }),
                text,
            ).0;
            &&& next.prompt == if prompt.len() == 0 {
                text
            } else {
                prompt
            }
            &&& !next.has_status()
            &&& next.status_text().len() == 0
            &&& next.show_password
            &&& next.is_editable()
        }),
{
}

/// The placeholder of the entry changes with a request and with a request for a secret, and stays
/// at all other times.
pub proof fn the_prompt_stays_until_another_is_given(
    window: AppView,
    message: AppMsgView,
    text: Seq<char>,
)
    requires
        window.cookie is None ==> !(message matches AppMsgView::AuthEvent(event) && event
            is Started),
        window.cookie matches Some(cookie) ==> !(message matches AppMsgView::AuthEvent(
            AgentEventView::SecretRequested { cookie: own, .. },
        ) && own == cookie),
    ensures
        window.updated(message, text).0.prompt == window.prompt,
{
}

/// Confirming tells the agent the chosen user and the password as they were given, for the
/// authentication that the window is open for, and locks the entry under the text for that case.
/// Nothing else of the window changes.
pub proof fn confirming_sends_what_was_given(
    window: AppView,
    cookie: Seq<char>,
    user: Seq<char>,
    password: Seq<char>,
    text: Seq<char>,
)
    requires
        window.cookie == Some(cookie),
    ensures
        ({
            let (next, sent) = window.updated(AppMsgView::Confirm { user, password }, text);
            &&& sent == Some(
                UserEventView::ProvidedPassword { cookie, username: user, password },
            )
            &&& !next.is_editable()
            &&& next.has_status()
            &&& next.status_text() == text
            &&& next.show_password == window.show_password
            &&& next.identities == window.identities
            &&& next.message == window.message
            &&& next.prompt == window.prompt
            &&& next.cookie == window.cookie
        }),
{
}

/// Closing the window tells the agent that its authentication is canceled, and leaves an empty
/// status line.
pub proof fn closing_cancels_the_authentication(
    window: AppView,
    cookie: Seq<char>,
    text: Seq<char>,
)
    requires
        window.cookie == Some(cookie),
    ensures
        ({
            let (next, sent) = window.updated(AppMsgView::Cancel, text);
            &&& sent == Some(UserEventView::Canceled { cookie })
            &&& !next.is_visible()
            &&& next.has_status()
            &&& next.status_text().len() == 0
        }),
{
}

/// What the user does in a closed window changes nothing and is told to nobody; what the agent
/// reports is not told back to it; what belongs to another authentication, or is a second request,
/// changes nothing.
pub proof fn a_window_minds_its_own_authentication(
    window: AppView,
    message: AppMsgView,
    text: Seq<char>,
)
    ensures
        ({
            let (next, sent) = window.updated(message, text);
            &&& window.cookie is None && !(message is AuthEvent) ==> next == window && sent is None
            &&& message is AuthEvent ==> sent is None
            &&& message matches AppMsgView::AuthEvent(event) ==> {
                &&& window.cookie is None && !(event is Started) ==> next == window
                &&& window.cookie matches Some(cookie) ==> !is_news_for(cookie, message) ==> next
                    == window
            }
        }),
{
}

/// When the agent says that the authentication is over, the window closes without a status.
pub proof fn the_end_clears_the_status(window: AppView, message: AppMsgView, text: Seq<char>)
    requires
        window.cookie matches Some(cookie) && is_news_for(cookie, message) && is_end_of(
            cookie,
            message,
        ),
    ensures
        ({
            let next = window.updated(message, text).0;
            &&& !next.is_visible()
            &&& !next.has_status()
            &&& next.status_text().len() == 0
            &&& !next.show_password
            &&& next.is_editable()
        }),
{
}

/// A new window is closed: it shows nothing, has no status, and has the given placeholder.
pub proof fn a_new_window_is_closed(prompt: Seq<char>)
    ensures
        ({
            let window = crate::ui::initial(prompt);
            &&& !window.is_visible()
            &&& window.is_editable()
            &&& !window.has_status()
            &&& window.status_text().len() == 0
            &&& !window.show_password
            &&& window.message.len() == 0
            &&& window.identities.len() == 0
            &&& window.cookie is None
            &&& window.retry_message is None
            &&& !window.authenticating
            &&& window.prompt == prompt
        }),
{
}

/// The status line is shown where there is something to say, and the message makes room for it.
pub proof fn the_message_makes_room_for_the_status(window: AppView)
    ensures
        window.margin_below_message() == if window.has_status() {
            8int
        } else {
            16int
        },
        !window.has_status() ==> window.status_text().len() == 0,
        window.retry_message matches Some(words) ==> window.has_status() && window.status_text()
            == words,
        window.retry_message is None ==> !window.has_status(),
        window.is_visible() <==> window.cookie is Some,
        window.is_editable() <==> !window.authenticating,
{
}

/// The translation that a change shows: of "Authenticating..." when a password is confirmed, of
/// "Password" when the window opens or a secret is asked for without a prompt, and of nothing
/// otherwise.
pub proof fn each_translation_is_of_its_message(window: AppView, message: AppMsgView)
    ensures
        window.shown_msgid(message) == match (window.cookie, message) {
            (Some(_), AppMsgView::Confirm { .. }) => Some("Authenticating..."@),
            (None, AppMsgView::AuthEvent(AgentEventView::Started { .. })) => Some("Password"@),
            (
                Some(cookie),
                AppMsgView::AuthEvent(AgentEventView::SecretRequested { cookie: own, prompt }),
            ) => if own == cookie && prompt.len() == 0 {
                Some("Password"@)
            } else {
                None
            },
            _ => None,
        },
        crate::ui::password_msgid() == "Password"@,
        crate::ui::authenticating_msgid() == "Authenticating..."@,
{
}

/// Where a change shows no translation, the text that is handed in makes no difference.
pub proof fn no_other_change_depends_on_a_translation(
    window: AppView,
    message: AppMsgView,
    one: Seq<char>,
    other: Seq<char>,
)
    requires
        window.shown_msgid(message) is None,
    ensures
        window.updated(message, one) == window.updated(message, other),
{
}

/// The identity that is chosen to begin with is the given user, wherever they stand among the
/// identities, at their first place; without such a user it is the first identity. There is one
/// such position, as long as the list has no more places than 32 bits can tell apart.
pub proof fn the_given_user_is_chosen(
    window: AppView,
    position: int,
    user: Option<Seq<char>>,
)
    requires
        window.identities.len() <= 0x1_0000_0000,
    ensures
        window.is_preselected_position(position, user) <==> match user {
            Some(name) if window.identities.contains(name) => {
                &&& 0 <= position < window.identities.len()
                &&& window.identities[position] == name
                &&& forall|i: int| 0 <= i < position ==> #[trigger] window.identities[i] != name
            },
            _ => position == 0,
        },
{
    let chosen = match user {
        Some(name) if window.identities.contains(name) => {
            &&& 0 <= position < window.identities.len()
            &&& window.identities[position] == name
            &&& forall|i: int| 0 <= i < position ==> #[trigger] window.identities[i] != name
        },
        _ => position == 0,
    };
    if chosen {
        assert(window.is_preselected(position, user));
    }
    if window.is_preselected_position(position, user) {
        let place = choose|place: int|
            #[trigger] window.is_preselected(place, user) && position == place % 0x1_0000_0000;
        assert(place == position);
    }
}

/// Wiping a message leaves its kind and none of its strings.
pub proof fn a_wiped_message_says_nothing(message: AppMsgView)
    ensures
        match message {
            AppMsgView::Confirm { .. } => message.wiped() == (AppMsgView::Confirm {
                user: Seq::empty(),
                password: Seq::empty(),
            }),
            AppMsgView::Cancel => message.wiped() == AppMsgView::Cancel,
            AppMsgView::AuthEvent(event) => message.wiped() == AppMsgView::AuthEvent(
                event.wiped(),
            ),
        },
{
}

/// Confirming shows the translation of "Authenticating...". A window that opens, and a request for
/// a secret without a prompt, show the translation of "Password" in the entry.
pub proof fn each_text_is_shown_in_the_users_language(
    window: AppView,
    message: AppMsgView,
    next: AppView,
    sent: Option<UserEventView>,
)
    ensures
        window.may_become(message, next, sent) && window.cookie is Some && message is Confirm
            ==> next.has_status() && crate::locale::is_translation(
            "Authenticating..."@,
            next.status_text(),
        ),
        window.may_become(message, next, sent) && window.cookie is None && (message matches
            AppMsgView::AuthEvent(event) && event is Started) ==> crate::locale::is_translation(
            "Password"@,
            next.prompt,
        ),
        window.may_become(message, next, sent) ==> match (window.cookie, message) {
            (
                Some(cookie),
                AppMsgView::AuthEvent(AgentEventView::SecretRequested { cookie: own, prompt }),
            ) if own == cookie => if prompt.len() == 0 {
                crate::locale::is_translation("Password"@, next.prompt)
            } else {
                next.prompt == prompt
            },
            _ => true,
        },
{
}

/// Whatever the language, an update is the one on some text.
pub proof fn an_update_is_the_one_on_some_text(
    window: AppView,
    message: AppMsgView,
    next: AppView,
    sent: Option<UserEventView>,
)
    ensures
        window.may_become(message, next, sent) ==> exists|text: Seq<char>| (next, sent) == #[trigger] window.updated(message, text),
{
}

/// A new window is closed and has the translation of "Password" in its entry.
pub proof fn a_new_window_asks_for_a_password(window: AppView)
    ensures
        window.is_initial() ==> {
            &&& crate::locale::is_translation("Password"@, window.prompt)
            &&& !window.is_visible()
            &&& window.is_editable()
            &&& !window.has_status()
            &&& !window.show_password
            &&& window.message.len() == 0
            &&& window.identities.len() == 0
        },
{
}

/// The identity that is chosen to begin with is the current user, wherever they stand among the
/// identities; where they are not among them, or not known, it is the first one.
pub proof fn the_current_user_is_chosen(window: AppView, position: int) -> (user: Option<
    Seq<char>,
>)
    requires
        window.identities.len() <= 0x1_0000_0000,
    ensures
        window.is_choice_of_current_user(position) ==> crate::users::is_current_user_name(user)
            && match user {
            Some(name) if window.identities.contains(name) => {
                &&& 0 <= position < window.identities.len()
                &&& window.identities[position] == name
            },
            _ => position == 0,
        },
{
    let user = choose|user: Option<Seq<char>>|
        {
            &&& crate::users::is_current_user_name(user)
            &&& #[trigger] window.is_preselected_position(position, user)
        };
    the_given_user_is_chosen(window, position, user);
    user
}

/// When polkit cancels the authentication that the window is open for, the window closes; a window
/// that is open for another one, or closed, does not change.
pub proof fn a_cancellation_closes_the_window(
    window: AppView,
    cookie: Seq<char>,
    text: Seq<char>,
)
    ensures
        ({
            let event = crate::dbus::canceled(cookie);
            let next = window.updated(AppMsgView::AuthEvent(event), text).0;
            if window.cookie == Some(cookie) {
                !next.is_visible()
            } else {
                next == window
            }
        }),
{
}

} // verus!
