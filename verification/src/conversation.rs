//! What holds of the steps of an authentication: what is written to the helper, what the window is
//! told, and what polkit is answered, on each thing that can happen.

use vstd::prelude::*;

use crate::dbus::{ActionView, AuthenticationView, Awaited, InputView};
use crate::dbus::{PhaseView, PolkitErrorView, SecretView, SystemConfigView};
use crate::events::{AgentEventView, UserEventView};
use crate::helper::HelperCommandView;
use crate::laws::Step;

verus! {

/// The helper's line asks for a secret.
pub open spec fn asks_for_secret(line: Seq<char>) -> bool {
    "PAM_PROMPT_ECHO_OFF"@.is_prefix_of(line) || "PAM_PROMPT_ECHO_ON"@.is_prefix_of(line)
}

/// The step is on a line that asks for a secret.
pub open spec fn is_asked(step: Step) -> bool {
    step.input matches InputView::Line(line) && asks_for_secret(line)
}

/// The step is on a password of the user for the authentication `cookie`.
pub open spec fn is_given(cookie: Seq<char>, step: Step) -> bool {
    step.input matches InputView::User(
        UserEventView::ProvidedPassword { cookie: own, .. },
    ) && own == cookie
}

/// The password that the user last gave for the authentication `cookie` in the steps.
pub open spec fn latest_password(cookie: Seq<char>, steps: Seq<Step>) -> Option<Seq<char>>
    decreases steps.len(),
{
    if steps.len() == 0 {
        None
    } else {
        match steps.last().input {
            InputView::User(
                UserEventView::ProvidedPassword { cookie: own, password, .. },
            ) if own == cookie => Some(password),
            _ => latest_password(cookie, steps.drop_last()),
        }
    }
}

/// What is to be done at the step `i`.
pub open spec fn done_at(start: AuthenticationView, steps: Seq<Step>, i: int) -> Seq<ActionView> {
    crate::laws::after(start, steps.take(i)).next(steps[i].input, steps[i].fallback).1
}

/// A password that the agent has heard of is held until the helper asks: if the user gave one at
/// the step `i`, while the helper was not already waiting for it, and the helper has not asked
/// since, then the next time that it asks, at the step `j`, the password last given is written to
/// it, whole and with a line feed. What notices and other lines came between, and whether the
/// helper had yet to be called, makes no difference.
pub proof fn a_password_is_held_until_it_is_asked_for(
    start: AuthenticationView,
    steps: Seq<Step>,
    i: int,
    j: int,
)
    requires
        crate::laws::is_run(start, steps),
        0 <= i < j < steps.len(),
        is_given(start.cookie, steps[i]),
        crate::laws::after(start, steps.take(i)).phase matches PhaseView::Conversing { secret, .. }
            ==> !(secret is Owed),
        forall|k: int| i < k < j ==> !is_asked(#[trigger] steps[k]),
        is_asked(steps[j]),
    ensures
        latest_password(start.cookie, steps.take(j)) is Some,
        done_at(start, steps, j) == seq![
            ActionView::Write(
                latest_password(start.cookie, steps.take(j))->0 + seq!['\n'],
            ),
        ],
{
    lemma_password_is_held(start, steps, i, j);
    lemma_taken(start, steps, j + 1);
    assert(steps.take(j + 1).drop_last() == steps.take(j));
    crate::text::a_line_is_the_text_and_a_line_feed(
        latest_password(start.cookie, steps.take(j))->0,
    );
}

proof fn lemma_taken(start: AuthenticationView, steps: Seq<Step>, n: int)
    requires
        crate::laws::is_run(start, steps),
        0 <= n <= steps.len(),
    ensures
        crate::laws::is_run(start, steps.take(n)),
    decreases steps.len() - n,
{
    if n < steps.len() {
        lemma_taken(start, steps, n + 1);
        assert(steps.take(n + 1).drop_last() == steps.take(n));
    } else {
        assert(steps.take(n) == steps);
    }
}

proof fn lemma_password_is_held(start: AuthenticationView, steps: Seq<Step>, i: int, n: int)
    requires
        crate::laws::is_run(start, steps),
        0 <= i < n <= steps.len(),
        is_given(start.cookie, steps[i]),
        crate::laws::after(start, steps.take(i)).phase matches PhaseView::Conversing { secret, .. }
            ==> !(secret is Owed),
        forall|k: int| i < k < n ==> !is_asked(#[trigger] steps[k]),
    ensures
        crate::laws::after(start, steps.take(n)).cookie == start.cookie,
        latest_password(start.cookie, steps.take(n)) is Some,
        match crate::laws::after(start, steps.take(n)).phase {
            PhaseView::Announcing { .. } => false,
            PhaseView::Connecting { password, .. } => password == latest_password(
                start.cookie,
                steps.take(n),
            ),
            PhaseView::Spawning { password, .. } => password == latest_password(
                start.cookie,
                steps.take(n),
            ),
            PhaseView::Conversing { secret, .. } => secret == SecretView::Held(
                latest_password(start.cookie, steps.take(n))->0,
            ),
            _ => true,
        },
    decreases n,
{
    lemma_taken(start, steps, n);
    assert(steps.take(n).drop_last() == steps.take(n - 1));
    crate::laws::a_run_keeps_its_cookie(start, steps.take(n - 1));
    if n > i + 1 {
        lemma_password_is_held(start, steps, i, n - 1);
        assert(!is_asked(steps[n - 1]));
    }
}

/// What the user submits is tried for the user whom they chose: the helper is called at the socket
/// and told that user and the cookie, or else started as the configured program with that user as
/// its argument and told the cookie; and when it asks, whatever it asks, it gets the password that
/// was submitted. Each is written whole and with a line feed.
pub proof fn a_submission_is_tried_as_it_was_given(
    state: AuthenticationView,
    username: Seq<char>,
    password: Seq<char>,
    line: Seq<char>,
    fallback: Seq<char>,
)
    requires
        state.phase is AwaitingSubmission,
        asks_for_secret(line),
    ensures
        ({
            let event = UserEventView::ProvidedPassword {
                cookie: state.cookie,
                username,
                password,
            };
            let (called, first) = state.next(InputView::User(event), fallback);
            let (reached, over_socket) = called.next(InputView::SocketConnected, fallback);
            let (missed, instead) = called.next(InputView::SocketUnavailable, fallback);
            let (spawned, to_program) = missed.next(InputView::HelperSpawned, fallback);
            &&& first == seq![ActionView::ConnectSocket(state.config.socket_path)]
            &&& called.awaits() == Awaited::Socket
            &&& over_socket == seq![
                ActionView::Write(username + seq!['\n'] + state.cookie + seq!['\n']),
            ]
            &&& instead == seq![
                ActionView::SpawnHelper(
                    HelperCommandView {
                        program: state.config.helper_path,
                        argument: username,
                        variable: "LC_ALL"@,
                        value: "C"@,
                    },
                ),
            ]
            &&& missed.awaits() == Awaited::Launch
            &&& to_program == seq![ActionView::Write(state.cookie + seq!['\n'])]
            &&& reached.awaits() == Awaited::HelperOrUser
            &&& spawned.awaits() == Awaited::HelperOrUser
            &&& reached.next(InputView::Line(line), fallback).1 == seq![
                ActionView::Write(password + seq!['\n']),
            ]
            &&& spawned.next(InputView::Line(line), fallback).1 == seq![
                ActionView::Write(password + seq!['\n']),
            ]
        }),
{
    crate::helper::the_greeting_holds_the_user_and_the_cookie(username, state.cookie);
    crate::text::a_line_is_the_text_and_a_line_feed(state.cookie);
    crate::text::a_line_is_the_text_and_a_line_feed(password);
}

/// The window is told of the request as polkit made it, with all the names, and nothing else is
/// done first.
pub proof fn the_request_is_announced_as_it_is(
    config: SystemConfigView,
    message: Seq<char>,
    cookie: Seq<char>,
    names: Seq<Seq<char>>,
)
    ensures
        ({
            let (first, actions) = crate::dbus::begun(config, message, cookie, names);
            &&& actions == seq![
                ActionView::Announce(AgentEventView::Started { cookie, message, names }),
            ]
            &&& first.cookie == cookie
            &&& first.config == config
            &&& first.awaits() == Awaited::Delivery
        }),
{
}

/// With a single name the helper is called for that very user, whoever it is, without a password:
/// it is told the user and the cookie, and when it asks for a secret the user is asked for one.
pub proof fn a_single_user_is_tried_at_once(
    config: SystemConfigView,
    message: Seq<char>,
    cookie: Seq<char>,
    user: Seq<char>,
    line: Seq<char>,
    fallback: Seq<char>,
)
    requires
        asks_for_secret(line),
    ensures
        ({
            let first = crate::dbus::begun(config, message, cookie, seq![user]).0;
            let (called, connect) = first.next(InputView::Announced, fallback);
            let (reached, greeting) = called.next(InputView::SocketConnected, fallback);
            let (asked, told) = reached.next(InputView::Line(line), fallback);
            &&& connect == seq![ActionView::ConnectSocket(config.socket_path)]
            &&& greeting == seq![
                ActionView::Write(user + seq!['\n'] + cookie + seq!['\n']),
            ]
            &&& told.len() == 1
            &&& told[0] matches ActionView::Notify(
                AgentEventView::SecretRequested { cookie: own, .. },
            ) && own == cookie
            &&& asked.awaits() == Awaited::User
        }),
{
    crate::helper::the_greeting_holds_the_user_and_the_cookie(user, cookie);
}

/// With several names, or none, the user is to choose and submit first: nothing is done until they
/// do.
pub proof fn several_users_are_waited_for(
    config: SystemConfigView,
    message: Seq<char>,
    cookie: Seq<char>,
    names: Seq<Seq<char>>,
    fallback: Seq<char>,
)
    requires
        names.len() != 1,
    ensures
        crate::dbus::begun(config, message, cookie, names).0.next(InputView::Announced, fallback)
            == (
            AuthenticationView { config, cookie, phase: PhaseView::AwaitingSubmission },
            Seq::<ActionView>::empty(),
        ),
{
}

/// Each thing that goes wrong before or beside the conversation ends the authentication with its
/// own answer, and nothing else is done.
pub proof fn each_failure_has_its_answer(state: AuthenticationView, fallback: Seq<char>)
    ensures
        state.phase is Announcing ==> fails_with(
            state,
            InputView::AnnounceFailed,
            fallback,
            "Failed to send data."@,
        ),
        state.phase is AwaitingSubmission || state.phase is Conversing ==> fails_with(
            state,
            InputView::UserChannelClosed,
            fallback,
            "Failed to receive data. channel closed"@,
        ),
        state.phase is Spawning ==> fails_with(
            state,
            InputView::SpawnFailed,
            fallback,
            "Failed to the spawn polkit authentication helper."@,
        ) && fails_with(
            state,
            InputView::StdinMissing,
            fallback,
            "Child did not have stdin."@,
        ) && fails_with(
            state,
            InputView::StdoutMissing,
            fallback,
            "Child did not have stdout."@,
        ),
        state.phase matches PhaseView::Conversing { secret, .. } ==> !(secret is Owed) ==> forall|
            text: Seq<char>,
        |
            #[trigger] fails_with(state, InputView::HelperFailed(text), fallback, text),
{
}

/// The authentication waits for the input, and on it polkit is answered with a failure of this
/// text; nothing is waited for any more.
pub open spec fn fails_with(
    state: AuthenticationView,
    input: InputView,
    fallback: Seq<char>,
    text: Seq<char>,
) -> bool {
    let (then, actions) = state.next(input, fallback);
    &&& state.accepts(input)
    &&& then.awaits() == Awaited::Nothing
    &&& actions == seq![
        ActionView::Finish(Err::<(), PolkitErrorView>(PolkitErrorView::Failed(text))),
    ]
}

/// What can happen in which phase: the answer of the window while it is told of the request; the
/// user while they are to submit a password; the user and the helper in conversation, but not the
/// helper while it waits for a secret; the socket and the program while they are tried; nothing
/// once polkit has its answer.
pub proof fn what_is_waited_for(state: AuthenticationView, input: InputView)
    ensures
        state.accepts(input) <==> match state.phase {
            PhaseView::Announcing { .. } => input is Announced || input is AnnounceFailed,
            PhaseView::AwaitingSubmission => input is User || input is UserChannelClosed,
            PhaseView::Connecting { .. } => input is SocketConnected || input is SocketUnavailable,
            PhaseView::Spawning { .. } => {
                ||| input is HelperSpawned
                ||| input is SpawnFailed
                ||| input is StdinMissing
                ||| input is StdoutMissing
            },
            PhaseView::Conversing { secret, .. } => {
                ||| input is User
                ||| input is UserChannelClosed
                ||| !(secret is Owed) && (input is Line || input is HelperClosed
                    || input is HelperFailed)
            },
            PhaseView::Finished => false,
        },
        state.awaits() == match state.phase {
            PhaseView::Announcing { .. } => Awaited::Delivery,
            PhaseView::AwaitingSubmission => Awaited::User,
            PhaseView::Connecting { .. } => Awaited::Socket,
            PhaseView::Spawning { .. } => Awaited::Launch,
            PhaseView::Conversing { secret, .. } => if secret is Owed {
                Awaited::User
            } else {
                Awaited::HelperOrUser
            },
            PhaseView::Finished => Awaited::Nothing,
        },
{
}

/// A password of the user during the conversation: where the helper waits for it, it is written at
/// once, whole and with a line feed; else it is held in place of any earlier one, and nothing is
/// done. Which user it comes with makes no difference, and what the helper last said is kept.
pub proof fn a_password_in_conversation_is_kept_or_written(
    state: AuthenticationView,
    secret: SecretView,
    last_info: Option<Seq<char>>,
    username: Seq<char>,
    password: Seq<char>,
    fallback: Seq<char>,
)
    requires
        state.phase == (PhaseView::Conversing { secret, last_info }),
    ensures
        ({
            let event = UserEventView::ProvidedPassword {
                cookie: state.cookie,
                username,
                password,
            };
            let (then, actions) = state.next(InputView::User(event), fallback);
            &&& secret is Owed ==> {
                &&& actions == seq![ActionView::Write(password + seq!['\n'])]
                &&& then.phase == (PhaseView::Conversing {
                    secret: SecretView::Missing,
                    last_info,
                })
            }
            &&& !(secret is Owed) ==> {
                &&& actions == Seq::<ActionView>::empty()
                &&& then.phase == (PhaseView::Conversing {
                    secret: SecretView::Held(password),
                    last_info,
                })
            }
        }),
{
    crate::text::a_line_is_the_text_and_a_line_feed(password);
}

/// The user cancels their authentication, wherever they are waited for: polkit is told so and
/// nothing is waited for any more.
pub proof fn canceling_ends_the_authentication(state: AuthenticationView, fallback: Seq<char>)
    requires
        state.phase is AwaitingSubmission || state.phase is Conversing,
    ensures
        ({
            let event = UserEventView::Canceled { cookie: state.cookie };
            let (then, actions) = state.next(InputView::User(event), fallback);
            &&& actions == seq![
                ActionView::Finish(
                    Err::<(), PolkitErrorView>(
                        PolkitErrorView::Cancelled("User cancelled the authentication."@),
                    ),
                ),
            ]
            &&& then.awaits() == Awaited::Nothing
        }),
{
}

/// What is heard of any other authentication than this one changes nothing, in whatever phase.
pub proof fn another_cookie_changes_nothing(
    state: AuthenticationView,
    cookie: Seq<char>,
    username: Seq<char>,
    password: Seq<char>,
    fallback: Seq<char>,
)
    requires
        cookie != state.cookie,
    ensures
        state.next(InputView::User(UserEventView::Canceled { cookie }), fallback) == (
            state,
            Seq::<ActionView>::empty(),
        ),
        state.next(
            InputView::User(UserEventView::ProvidedPassword { cookie, username, password }),
            fallback,
        ) == (state, Seq::<ActionView>::empty()),
{
}

/// A prompt of the helper. Where a password is held it is written, whole and with a line feed, and
/// held no more; else the window is asked for it, with the prompt but for the white space round it,
/// and the helper is not read until it has it. What the helper last said is kept.
pub proof fn a_prompt_is_answered_or_passed_on(
    state: AuthenticationView,
    secret: SecretView,
    last_info: Option<Seq<char>>,
    rest: Seq<char>,
    fallback: Seq<char>,
)
    requires
        state.phase == (PhaseView::Conversing { secret, last_info }),
        !(secret is Owed),
    ensures
        ({
            let off = state.next(InputView::Line("PAM_PROMPT_ECHO_OFF"@ + rest), fallback);
            let on = state.next(InputView::Line("PAM_PROMPT_ECHO_ON"@ + rest), fallback);
            let (then, actions) = off;
            &&& on == off
            &&& secret matches SecretView::Held(password) ==> {
                &&& actions == seq![ActionView::Write(password + seq!['\n'])]
                &&& then == (AuthenticationView {
                    phase: PhaseView::Conversing { secret: SecretView::Missing, last_info },
                    ..state
                })
            }
            &&& secret is Missing ==> {
                &&& actions == seq![
                    ActionView::Notify(
                        AgentEventView::SecretRequested {
                            cookie: state.cookie,
                            prompt: crate::text::trimmed(rest),
                        },
                    ),
                ]
                &&& then == (AuthenticationView {
                    phase: PhaseView::Conversing { secret: SecretView::Owed, last_info },
                    ..state
                })
            }
        }),
{
    if let SecretView::Held(password) = secret {
        crate::text::a_line_is_the_text_and_a_line_feed(password);
    }
    crate::helper::a_line_is_read_by_its_beginning(rest);
}

/// A notice of the helper, whether information or error: the window is told it, but for the white
/// space round it, and it is the last thing that the helper said. A password that is held stays
/// held.
pub proof fn a_notice_is_passed_on(
    state: AuthenticationView,
    secret: SecretView,
    last_info: Option<Seq<char>>,
    rest: Seq<char>,
    fallback: Seq<char>,
)
    requires
        state.phase == (PhaseView::Conversing { secret, last_info }),
        !(secret is Owed),
    ensures
        ({
            let info = state.next(InputView::Line("PAM_TEXT_INFO"@ + rest), fallback);
            let error = state.next(InputView::Line("PAM_ERROR_MSG"@ + rest), fallback);
            let notice = crate::text::trimmed(rest);
            &&& error == info
            &&& info.0 == (AuthenticationView {
                phase: PhaseView::Conversing { secret, last_info: Some(notice) },
                ..state
            })
            &&& info.1 == seq![
                ActionView::Notify(
                    AgentEventView::Info { cookie: state.cookie, message: notice },
                ),
            ]
        }),
{
    crate::helper::a_line_is_read_by_its_beginning(rest);
}

/// The helper's verdict. On success the window is told first and polkit then; on failure, and when
/// the helper closes without a verdict, the window is asked to retry with the last thing that the
/// helper said, or else with the given text, the helper is let go, and the user is to submit again.
pub proof fn a_verdict_ends_the_attempt(
    state: AuthenticationView,
    secret: SecretView,
    last_info: Option<Seq<char>>,
    rest: Seq<char>,
    fallback: Seq<char>,
)
    requires
        state.phase == (PhaseView::Conversing { secret, last_info }),
        !(secret is Owed),
    ensures
        ({
            let success = state.next(InputView::Line("SUCCESS"@ + rest), fallback);
            let failure = state.next(InputView::Line("FAILURE"@ + rest), fallback);
            let closed = state.next(InputView::HelperClosed, fallback);
            let reason = match last_info {
                Some(said) => said,
                None => fallback,
            };
            &&& success.1 == seq![
                ActionView::Notify(
                    AgentEventView::AuthorizationSucceeded { cookie: state.cookie },
                ),
                ActionView::Finish(Ok::<(), PolkitErrorView>(())),
            ]
            &&& success.0 == (AuthenticationView { phase: PhaseView::Finished, ..state })
            &&& closed == failure
            &&& failure.1 == seq![
                ActionView::Notify(
                    AgentEventView::AuthorizationRetry {
                        cookie: state.cookie,
                        retry_message: Some(reason),
                    },
                ),
                ActionView::ReleaseHelper,
            ]
            &&& failure.0 == (AuthenticationView {
                phase: PhaseView::AwaitingSubmission,
                ..state
            })
        }),
{
    crate::helper::a_line_is_read_by_its_beginning(rest);
}

/// A line of the helper that is none of the six kinds changes nothing: what is held stays held,
/// what was said last stays so, and nothing is done.
pub proof fn an_idle_line_changes_nothing(
    state: AuthenticationView,
    line: Seq<char>,
    fallback: Seq<char>,
)
    requires
        state.phase is Conversing,
        !asks_for_secret(line),
        !"PAM_TEXT_INFO"@.is_prefix_of(line),
        !"PAM_ERROR_MSG"@.is_prefix_of(line),
        !"SUCCESS"@.is_prefix_of(line),
        !"FAILURE"@.is_prefix_of(line),
    ensures
        state.next(InputView::Line(line), fallback) == (state, Seq::<ActionView>::empty()),
{
    crate::helper::every_other_line_says_nothing(line);
}

/// An attempt begins with nothing said: what the helper said in an earlier one is forgotten, and
/// the password that the attempt was begun with, if any, is held.
pub proof fn an_attempt_begins_afresh(
    state: AuthenticationView,
    username: Seq<char>,
    password: Option<Seq<char>>,
    fallback: Seq<char>,
)
    ensures
        ({
            let secret = match password {
                Some(given) => SecretView::Held(given),
                None => SecretView::Missing,
            };
            let begun = AuthenticationView {
                phase: PhaseView::Conversing { secret, last_info: None },
                ..state
            };
            &&& state.phase == (PhaseView::Connecting { username, password }) ==> {
                &&& state.next(InputView::SocketConnected, fallback).0 == begun
                &&& state.next(InputView::SocketUnavailable, fallback).0 == (AuthenticationView {
                    phase: PhaseView::Spawning { username, password },
                    ..state
                })
            }
            &&& state.phase == (PhaseView::Spawning { username, password }) ==> state.next(
                InputView::HelperSpawned,
                fallback,
            ).0 == begun
        }),
{
}

/// The text for a silent failure is looked up exactly where it is shown: where it is not, it makes
/// no difference, and where it is, the window is told it word for word.
pub proof fn the_text_for_a_silent_failure_is_shown_when_it_is_needed(
    state: AuthenticationView,
    input: InputView,
    one: Seq<char>,
    other: Seq<char>,
)
    ensures
        !state.uses_fallback(input) ==> state.next(input, one) == state.next(input, other),
        state.uses_fallback(input) ==> state.next(input, one).1.contains(
            ActionView::Notify(
                AgentEventView::AuthorizationRetry {
                    cookie: state.cookie,
                    retry_message: Some(one),
                },
            ),
        ),
        crate::dbus::failure_msgid() == "Authentication failed. Please try again."@,
{
    if state.uses_fallback(input) {
        assert(state.next(input, one).1[0] == ActionView::Notify(
            AgentEventView::AuthorizationRetry {
                cookie: state.cookie,
                retry_message: Some(one),
            },
        ));
    }
}

/// After a failed attempt of which the helper has said nothing, the user is asked to retry with the
/// translation of "Authentication failed. Please try again."; any other step is the one that every
/// language gives.
pub proof fn a_silent_failure_is_explained_in_the_users_language(
    state: AuthenticationView,
    input: InputView,
    then: AuthenticationView,
    actions: Seq<ActionView>,
)
    requires
        state.phase matches PhaseView::Conversing { secret, .. } ==> !(secret is Owed),
    ensures
        ({
            let failed = input is HelperClosed || (input matches InputView::Line(line)
                && "FAILURE"@.is_prefix_of(line));
            let silent = state.phase matches PhaseView::Conversing { last_info: None, .. };
            state.may_follow(input, then, actions) ==> if silent && failed {
                &&& actions.len() == 2
                &&& actions[0] matches ActionView::Notify(
                    AgentEventView::AuthorizationRetry { cookie, retry_message: Some(text) },
                )
                &&& cookie == state.cookie
                &&& crate::locale::is_translation(
                    "Authentication failed. Please try again."@,
                    text,
                )
            } else {
                forall|text: Seq<char>| (then, actions) == #[trigger] state.next(input, text)
            }
        }),
{
    let fallback = choose|fallback: Seq<char>|
        {
            &&& state.uses_fallback(input) ==> crate::locale::is_translation(
                crate::dbus::failure_msgid(),
                fallback,
            )
            &&& (then, actions) == #[trigger] state.next(input, fallback)
        };
    if let InputView::Line(line) = input {
        if "FAILURE"@.is_prefix_of(line) {
            let rest = line.skip("FAILURE"@.len() as int);
            assert(line == "FAILURE"@ + rest);
            crate::helper::a_line_is_read_by_its_beginning(rest);
        }
    }
    assert forall|text: Seq<char>|
        state.may_follow(input, then, actions) && !state.uses_fallback(input) implies (
    then,
    actions,
    ) == #[trigger] state.next(input, text) by {
        the_text_for_a_silent_failure_is_shown_when_it_is_needed(state, input, fallback, text);
    }
}

/// Whoever the user database names for the identities is announced, with the request as it is.
pub proof fn a_request_is_announced_for_those_who_may_answer(
    config: SystemConfigView,
    message: Seq<char>,
    cookie: Seq<char>,
    identities: Seq<crate::users::IdentityView>,
    first: AuthenticationView,
    actions: Seq<ActionView>,
) -> (names: Seq<Seq<char>>)
    ensures
        crate::dbus::may_begin(config, message, cookie, identities, first, actions) ==> {
            &&& crate::users::may_answer(identities, names)
            &&& actions == seq![
                ActionView::Announce(AgentEventView::Started { cookie, message, names }),
            ]
            &&& first.cookie == cookie
            &&& first.config == config
            &&& first.phase == (PhaseView::Announcing {
                eager_user: if names.len() == 1 {
                    Some(names[0])
                } else {
                    None
                },
            })
        },
{
    choose|names: Seq<Seq<char>>|
        {
            &&& crate::users::may_answer(identities, names)
            &&& (first, actions) == #[trigger] crate::dbus::begun(config, message, cookie, names)
        }
}

} // verus!
