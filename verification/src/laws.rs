//! What holds of whole authentications, and of the window.

use vstd::prelude::*;

use crate::dbus::{ActionView, AuthenticationView, Awaited, InputView};
use crate::dbus::{PhaseView, PolkitErrorView, SecretView, SystemConfigView};
use crate::events::{AgentEventView, UserEventView};
use crate::helper::HelperMessageView;
use crate::ui::{AppMsgView, AppView};

verus! {

/// One step of an authentication: what happened, and the text for a failed attempt of which the
/// helper has said nothing.
pub struct Step {
    pub input: InputView,
    pub fallback: Seq<char>,
}

/// The state after the steps.
pub open spec fn after(start: AuthenticationView, steps: Seq<Step>) -> AuthenticationView
    decreases steps.len(),
{
    if steps.len() == 0 {
        start
    } else {
        after(start, steps.drop_last()).next(steps.last().input, steps.last().fallback).0
    }
}

/// Each step is on something that the authentication waits for.
pub open spec fn is_run(start: AuthenticationView, steps: Seq<Step>) -> bool
    decreases steps.len(),
{
    steps.len() > 0 ==> {
        &&& is_run(start, steps.drop_last())
        &&& after(start, steps.drop_last()).accepts(steps.last().input)
    }
}

/// What is to be done on one step.
pub open spec fn done(before: AuthenticationView, step: Step) -> Seq<ActionView> {
    before.next(step.input, step.fallback).1
}

/// How many of the steps are of some kind, which the state before the step decides with it.
pub open spec fn count(
    start: AuthenticationView,
    steps: Seq<Step>,
    kind: spec_fn(AuthenticationView, Step) -> bool,
) -> nat
    decreases steps.len(),
{
    if steps.len() == 0 {
        0
    } else {
        count(start, steps.drop_last(), kind) + if kind(
            after(start, steps.drop_last()),
            steps.last(),
        ) {
            1nat
        } else {
            0nat
        }
    }
}

/// The helper asks for a secret.
pub open spec fn is_prompt() -> spec_fn(AuthenticationView, Step) -> bool {
    |before: AuthenticationView, step: Step|
        step.input matches InputView::Line(line) && crate::helper::message_of(line) is Prompt
}

/// A secret is written to the helper. What is written before the conversation is no secret.
pub open spec fn writes_secret() -> spec_fn(AuthenticationView, Step) -> bool {
    |before: AuthenticationView, step: Step|
        before.phase is Conversing && exists|i: int|
            0 <= i < done(before, step).len() && (#[trigger] done(before, step)[i]) is Write
}

/// A helper is called, by way of the agent socket.
pub open spec fn begins_attempt() -> spec_fn(AuthenticationView, Step) -> bool {
    |before: AuthenticationView, step: Step|
        exists|i: int|
            0 <= i < done(before, step).len() && (#[trigger] done(before, step)[i])
                is ConnectSocket
}

/// The user submits a password that is waited for.
pub open spec fn is_submission() -> spec_fn(AuthenticationView, Step) -> bool {
    |before: AuthenticationView, step: Step|
        {
            &&& before.phase is AwaitingSubmission
            &&& step.input matches InputView::User(event)
            &&& event is ProvidedPassword
            &&& event.cookie() == before.cookie
        }
}

/// The agent hears that the user has given a password for this authentication.
pub open spec fn gives_password() -> spec_fn(AuthenticationView, Step) -> bool {
    |before: AuthenticationView, step: Step|
        {
            &&& step.input matches InputView::User(event)
            &&& event is ProvidedPassword
            &&& event.cookie() == before.cookie
        }
}

/// Polkit is answered.
pub open spec fn answers_polkit() -> spec_fn(AuthenticationView, Step) -> bool {
    |before: AuthenticationView, step: Step|
        exists|i: int|
            0 <= i < done(before, step).len() && (#[trigger] done(before, step)[i]) is Finish
}

/// The helper waits for a secret.
pub open spec fn owes_secret(state: AuthenticationView) -> bool {
    state.phase matches PhaseView::Conversing { secret: SecretView::Owed, .. }
}

/// The first state of an authentication, whatever is asked for.
pub open spec fn is_first(state: AuthenticationView) -> bool {
    state.phase is Announcing
}

/// A secret goes to the helper only in answer to a prompt, and one prompt gets one secret: of the
/// prompts at most one is unanswered, the one that the helper waits on.
pub proof fn each_secret_answers_a_prompt(start: AuthenticationView, steps: Seq<Step>)
    requires
        is_first(start),
        is_run(start, steps),
    ensures
        count(start, steps, writes_secret()) <= count(start, steps, is_prompt()),
        count(start, steps, is_prompt()) <= count(start, steps, writes_secret()) + 1,
        !(after(start, steps).phase is Finished) ==> count(start, steps, is_prompt()) == count(
            start,
            steps,
            writes_secret(),
        ) + if owes_secret(after(start, steps)) {
            1int
        } else {
            0int
        },
    decreases steps.len(),
{
    if steps.len() > 0 {
        each_secret_answers_a_prompt(start, steps.drop_last());
        let before = after(start, steps.drop_last());
        let step = steps.last();
        let actions = done(before, step);
        if actions.len() > 0 && actions[0] is Write {
            assert(before.phase is Conversing ==> writes_secret()(before, step));
        }
    }
}

/// The attempts that no submission of the user began: one, where there is a single identity and
/// the window could be told of the request.
pub open spec fn eager_attempts(start: AuthenticationView, steps: Seq<Step>) -> nat {
    if steps.len() > 0 && steps[0].input is Announced && start.phase->eager_user is Some {
        1
    } else {
        0
    }
}

/// A helper is called once for each submission of the user, and once more, without one, where
/// there is a single identity. So a PAM module that fails at once cannot make the agent spin.
pub proof fn each_attempt_is_asked_for(start: AuthenticationView, steps: Seq<Step>)
    requires
        is_first(start),
        is_run(start, steps),
    ensures
        count(start, steps, begins_attempt()) == count(start, steps, is_submission())
            + eager_attempts(start, steps),
    decreases steps.len(),
{
    if steps.len() > 0 {
        let before = after(start, steps.drop_last());
        let step = steps.last();
        let actions = done(before, step);
        each_attempt_is_asked_for(start, steps.drop_last());
        lemma_announced_first(start, steps.drop_last());
        if actions.len() > 0 && actions[0] is ConnectSocket {
            assert(begins_attempt()(before, step));
        }
    }
}

proof fn lemma_announced_first(start: AuthenticationView, steps: Seq<Step>)
    requires
        is_first(start),
        is_run(start, steps),
    ensures
        after(start, steps).phase is Announcing <==> steps.len() == 0,
    decreases steps.len(),
{
    if steps.len() > 0 {
        lemma_announced_first(start, steps.drop_last());
    }
}

/// Polkit is answered once: when the authentication finishes, and never again.
pub proof fn polkit_is_answered_once(start: AuthenticationView, steps: Seq<Step>)
    requires
        is_first(start),
        is_run(start, steps),
    ensures
        count(start, steps, answers_polkit()) == if after(start, steps).phase is Finished {
            1int
        } else {
            0int
        },
    decreases steps.len(),
{
    if steps.len() > 0 {
        polkit_is_answered_once(start, steps.drop_last());
        let before = after(start, steps.drop_last());
        let step = steps.last();
        let actions = done(before, step);
        if actions.len() > 0 && actions.last() is Finish {
            assert(answers_polkit()(before, step));
        }
    }
}

/// Polkit is told that the user is authenticated exactly when the helper says so; the window is
/// told first.
pub proof fn success_is_the_helpers_word(state: AuthenticationView, step: Step)
    requires
        state.accepts(step.input),
    ensures
        done(state, step).contains(ActionView::Finish(Ok(()))) <==> (step.input matches
            InputView::Line(line) && crate::helper::message_of(line) is Success),
        done(state, step).contains(ActionView::Finish(Ok(()))) ==> done(state, step) == seq![
            ActionView::Notify(
                AgentEventView::AuthorizationSucceeded { cookie: state.cookie },
            ),
            ActionView::Finish(Ok::<(), PolkitErrorView>(())),
        ],
{
    let actions = done(state, step);
    if step.input matches InputView::Line(line) && crate::helper::message_of(line) is Success {
        assert(actions[1] == ActionView::Finish(Ok::<(), PolkitErrorView>(())));
    }
}

/// While an authentication waits for the user, alone or beside the helper, the user can cancel
/// it, and polkit is then told so.
pub proof fn the_user_can_cancel(state: AuthenticationView, fallback: Seq<char>)
    requires
        state.awaits() == Awaited::User || state.awaits() == Awaited::HelperOrUser,
    ensures
        ({
            let event = UserEventView::Canceled { cookie: state.cookie };
            &&& state.accepts(InputView::User(event))
            &&& state.next(InputView::User(event), fallback) == (
                state.at(PhaseView::Finished),
                seq![
                    ActionView::Finish(
                        Err::<(), PolkitErrorView>(
                            PolkitErrorView::Cancelled("User cancelled the authentication."@),
                        ),
                    ),
                ],
            )
        }),
{
}

/// What the user does in another authentication changes nothing.
pub proof fn another_authentication_is_passed_over(
    state: AuthenticationView,
    event: UserEventView,
    fallback: Seq<char>,
)
    requires
        event.cookie() != state.cookie,
    ensures
        state.next(InputView::User(event), fallback) == (state, Seq::<ActionView>::empty()),
{
}

/// While the helper waits for a secret it is not read, and the next password that the user
/// submits is handed to it.
pub proof fn an_owed_secret_is_handed_over(
    state: AuthenticationView,
    line: Seq<char>,
    username: Seq<char>,
    password: Seq<char>,
    fallback: Seq<char>,
)
    requires
        owes_secret(state),
    ensures
        !state.accepts(InputView::Line(line)),
        !state.accepts(InputView::HelperClosed),
        ({
            let event = UserEventView::ProvidedPassword {
                cookie: state.cookie,
                username,
                password,
            };
            let (then, actions) = state.next(InputView::User(event), fallback);
            &&& actions == seq![ActionView::Write(crate::text::line_of(password))]
            &&& then.awaits() == Awaited::HelperOrUser
        }),
{
}

/// What the window is told by an action.
pub open spec fn told(action: ActionView) -> Option<AgentEventView> {
    match action {
        ActionView::Announce(event) => Some(event),
        ActionView::Notify(event) => Some(event),
        _ => None,
    }
}

/// An authentication keeps its cookie and its configuration, and everything that the window is
/// told in its course carries the cookie.
pub proof fn a_run_keeps_its_cookie(start: AuthenticationView, steps: Seq<Step>)
    ensures
        after(start, steps).cookie == start.cookie,
        after(start, steps).config == start.config,
        forall|i: int, k: int|
            0 <= i < steps.len() && 0 <= k < done(after(start, steps.take(i)), steps[i]).len()
                ==> (told(#[trigger] done(after(start, steps.take(i)), steps[i])[k]) matches Some(
                event,
            ) ==> event.cookie() == start.cookie),
    decreases steps.len(),
{
    if steps.len() > 0 {
        let sooner = steps.drop_last();
        a_run_keeps_its_cookie(start, sooner);
        assert forall|i: int, k: int|
            0 <= i < steps.len() && 0 <= k < done(
                after(start, steps.take(i)),
                steps[i],
            ).len() implies (told(
            #[trigger] done(after(start, steps.take(i)), steps[i])[k],
        ) matches Some(event) ==> event.cookie() == start.cookie) by {
            if i < sooner.len() {
                assert(sooner.take(i) == steps.take(i));
                assert(done(after(start, sooner.take(i)), sooner[i])[k] == done(
                    after(start, steps.take(i)),
                    steps[i],
                )[k]);
            } else {
                assert(steps.take(i) == sooner);
            }
        }
    }
}

/// The password that the user last gave in the steps, for the authentication `cookie`.
pub open spec fn last_password(cookie: Seq<char>, steps: Seq<Step>) -> Option<Seq<char>>
    decreases steps.len(),
{
    if steps.len() == 0 {
        None
    } else {
        match steps.last().input {
            InputView::User(
                UserEventView::ProvidedPassword { cookie: given, password, .. },
            ) if given == cookie => Some(password),
            _ => last_password(cookie, steps.drop_last()),
        }
    }
}

/// No password of the user is held, for the helper or with the call of a helper.
pub open spec fn holds_no_password(state: AuthenticationView) -> bool {
    match state.phase {
        PhaseView::Connecting { password, .. } => password is None,
        PhaseView::Spawning { password, .. } => password is None,
        PhaseView::Conversing { secret, .. } => !(secret is Held),
        _ => true,
    }
}

/// The secret that is written to the helper is the password that the user last gave for this
/// authentication, as a line.
pub proof fn a_secret_is_the_last_password_given(start: AuthenticationView, steps: Seq<Step>)
    requires
        holds_no_password(start),
        is_run(start, steps),
        steps.len() > 0,
        writes_secret()(after(start, steps.drop_last()), steps.last()),
    ensures
        last_password(start.cookie, steps) is Some,
        done(after(start, steps.drop_last()), steps.last()) == seq![
            ActionView::Write(crate::text::line_of(last_password(start.cookie, steps)->0)),
        ],
{
    lemma_password_at_hand(start, steps.drop_last());
    a_run_keeps_its_cookie(start, steps.drop_last());
}

proof fn lemma_password_at_hand(start: AuthenticationView, steps: Seq<Step>)
    requires
        holds_no_password(start),
        is_run(start, steps),
    ensures
        match after(start, steps).phase {
            PhaseView::Connecting { password, .. } => password is Some ==> password
                == last_password(start.cookie, steps),
            PhaseView::Spawning { password, .. } => password is Some ==> password == last_password(
                start.cookie,
                steps,
            ),
            PhaseView::Conversing { secret: SecretView::Held(password), .. } => Some(password)
                == last_password(start.cookie, steps),
            _ => true,
        },
    decreases steps.len(),
{
    if steps.len() > 0 {
        lemma_password_at_hand(start, steps.drop_last());
        a_run_keeps_its_cookie(start, steps.drop_last());
    }
}

/// The helper was in conversation and is so no more: it reported failure or success, it closed, it
/// could not be written to or read, or the user canceled or can be heard no more.
pub open spec fn ends_attempt() -> spec_fn(AuthenticationView, Step) -> bool {
    |before: AuthenticationView, step: Step|
        before.phase is Conversing && !(before.next(step.input, step.fallback).0.phase
            is Conversing)
}

/// A password is written once, and none is carried into a later attempt: a secret that is written
/// after another one, or after the end of an attempt, is a password that the agent heard of since.
/// Of the two steps `i` and `j` the first writes a secret or ends an attempt and the second writes a
/// secret.
pub proof fn no_password_is_used_again(
    start: AuthenticationView,
    steps: Seq<Step>,
    i: int,
    j: int,
)
    requires
        holds_no_password(start),
        is_run(start, steps),
        0 <= i < j < steps.len(),
        writes_secret()(after(start, steps.take(i)), steps[i]) || ends_attempt()(
            after(start, steps.take(i)),
            steps[i],
        ),
        writes_secret()(after(start, steps.take(j)), steps[j]),
    ensures
        ({
            let since = last_password(start.cookie, steps.subrange(i + 1, j + 1));
            &&& since is Some
            &&& done(after(start, steps.take(j)), steps[j]) == seq![
                ActionView::Write(crate::text::line_of(since->0)),
            ]
        }),
{
    let sooner = steps.take(i + 1);
    let since = steps.subrange(i + 1, j + 1);
    assert(sooner.drop_last() == steps.take(i));
    assert(sooner + since == steps.take(j + 1));
    assert(sooner + since.drop_last() == steps.take(j));
    lemma_run_taken(start, steps, i + 1);
    lemma_run_taken(start, steps, j);
    lemma_run_taken(start, steps, j + 1);
    lemma_run_continued(start, sooner, since);
    lemma_run_continued(start, sooner, since.drop_last());
    a_run_keeps_its_cookie(start, sooner);
    a_secret_is_the_last_password_given(after(start, sooner), since);
}

/// Every password is written once at most: no more secrets are written than the agent has heard of
/// passwords, and fewer while it holds one.
pub proof fn no_more_secrets_than_passwords(start: AuthenticationView, steps: Seq<Step>)
    requires
        holds_no_password(start),
        is_run(start, steps),
    ensures
        count(start, steps, writes_secret()) <= count(start, steps, gives_password()),
        !holds_no_password(after(start, steps)) ==> count(start, steps, writes_secret()) < count(
            start,
            steps,
            gives_password(),
        ),
    decreases steps.len(),
{
    if steps.len() > 0 {
        no_more_secrets_than_passwords(start, steps.drop_last());
    }
}

proof fn lemma_run_taken(start: AuthenticationView, steps: Seq<Step>, n: int)
    requires
        is_run(start, steps),
        0 <= n <= steps.len(),
    ensures
        is_run(start, steps.take(n)),
    decreases steps.len(),
{
    if n < steps.len() {
        assert(steps.drop_last().take(n) == steps.take(n));
        lemma_run_taken(start, steps.drop_last(), n);
    } else {
        assert(steps.take(n) == steps);
    }
}

proof fn lemma_run_continued(start: AuthenticationView, sooner: Seq<Step>, later: Seq<Step>)
    requires
        is_run(start, sooner + later),
    ensures
        after(start, sooner + later) == after(after(start, sooner), later),
        is_run(after(start, sooner), later),
    decreases later.len(),
{
    if later.len() > 0 {
        assert((sooner + later).drop_last() == sooner + later.drop_last());
        lemma_run_continued(start, sooner, later.drop_last());
    } else {
        assert(sooner + later == sooner);
    }
}

/// The agent socket is preferred: the helper program is started only when the socket could not be
/// reached, for the same user. Over the socket the helper is told the user and the cookie; the
/// program, which has the user as its argument, is told the cookie.
pub proof fn the_socket_is_preferred(state: AuthenticationView, fallback: Seq<char>)
    requires
        state.phase is Connecting,
    ensures
        ({
            let username = state.phase->Connecting_username;
            let reached = state.next(InputView::SocketConnected, fallback);
            let missed = state.next(InputView::SocketUnavailable, fallback);
            let spawned = missed.0.next(InputView::HelperSpawned, fallback);
            &&& reached.1 == seq![
                ActionView::Write(crate::helper::socket_greeting_of(username, state.cookie)),
            ]
            &&& missed.1 == seq![
                ActionView::SpawnHelper(
                    crate::helper::command_of(state.config.helper_path, username),
                ),
            ]
            &&& spawned.1 == seq![ActionView::Write(crate::text::line_of(state.cookie))]
            &&& spawned.0 == reached.0
        }),
{
}

/// The helper program is started on no other occasion.
pub proof fn nothing_else_starts_the_helper_program(state: AuthenticationView, step: Step)
    requires
        state.accepts(step.input),
        !(step.input is SocketUnavailable),
    ensures
        forall|i: int|
            0 <= i < done(state, step).len() ==> !((#[trigger] done(state, step)[i])
                is SpawnHelper),
{
}

/// Something is written to the helper: a greeting or a secret.
pub open spec fn writes() -> spec_fn(AuthenticationView, Step) -> bool {
    |before: AuthenticationView, step: Step|
        exists|i: int|
            0 <= i < done(before, step).len() && (#[trigger] done(before, step)[i]) is Write
}

/// Polkit is answered with the error, and nothing else is done.
pub open spec fn ends_with_error(
    state: AuthenticationView,
    input: InputView,
    fallback: Seq<char>,
    text: Seq<char>,
) -> bool {
    state.next(input, fallback) == (
        state.at(PhaseView::Finished),
        seq![ActionView::Finish(Err::<(), PolkitErrorView>(PolkitErrorView::Failed(text)))],
    )
}

/// A write to the helper that fails ends the authentication: polkit is answered with that error,
/// and the helper program is not started instead. So it is with the greeting over the socket, with
/// that of the helper program, and with every secret.
pub proof fn a_failed_write_ends_the_authentication(
    state: AuthenticationView,
    step: Step,
    text: Seq<char>,
    fallback: Seq<char>,
)
    requires
        state.accepts(step.input),
        writes()(state, step),
    ensures
        ({
            let written = state.next(step.input, step.fallback).0;
            &&& written.accepts(InputView::HelperFailed(text))
            &&& ends_with_error(written, InputView::HelperFailed(text), fallback, text)
        }),
{
}

/// Wherever the helper may be read, a read that fails ends the authentication: polkit is answered
/// with that error, and the user is not asked to retry.
pub proof fn a_failed_read_ends_the_authentication(
    state: AuthenticationView,
    text: Seq<char>,
    fallback: Seq<char>,
)
    requires
        state.awaits() == Awaited::HelperOrUser,
    ensures
        state.accepts(InputView::HelperFailed(text)),
        ends_with_error(state, InputView::HelperFailed(text), fallback, text),
{
}

/// Over a socket that was reached and then fails, the helper program is not started: from the
/// call of the helper on, the greeting is written, polkit is answered with the error, and nothing
/// is waited for any more.
pub proof fn a_reached_socket_is_not_replaced(
    state: AuthenticationView,
    text: Seq<char>,
    fallback: Seq<char>,
)
    requires
        state.phase is Connecting,
    ensures
        ({
            let username = state.phase->Connecting_username;
            let (greeted, first) = state.next(InputView::SocketConnected, fallback);
            let (failed, second) = greeted.next(InputView::HelperFailed(text), fallback);
            &&& state.accepts(InputView::SocketConnected)
            &&& first == seq![
                ActionView::Write(crate::helper::socket_greeting_of(username, state.cookie)),
            ]
            &&& greeted.accepts(InputView::HelperFailed(text))
            &&& second == seq![
                ActionView::Finish(Err::<(), PolkitErrorView>(PolkitErrorView::Failed(text))),
            ]
            &&& failed.awaits() == Awaited::Nothing
        }),
{
}

/// With a single name the helper is called for that user at once, without a password; with any
/// other number of names the user is waited for.
pub proof fn a_single_identity_does_not_wait(
    config: SystemConfigView,
    message: Seq<char>,
    cookie: Seq<char>,
    names: Seq<Seq<char>>,
    fallback: Seq<char>,
)
    ensures
        ({
            let first = crate::dbus::begun(config, message, cookie, names).0;
            let (then, actions) = first.next(InputView::Announced, fallback);
            &&& first.accepts(InputView::Announced)
            &&& names.len() == 1 ==> {
                &&& then.phase == (PhaseView::Connecting { username: names[0], password: None })
                &&& actions == seq![ActionView::ConnectSocket(config.socket_path)]
            }
            &&& names.len() != 1 ==> {
                &&& then.awaits() == Awaited::User
                &&& actions == Seq::<ActionView>::empty()
            }
        }),
{
}

/// The helper is in conversation before the first step and after each.
pub open spec fn is_conversation(start: AuthenticationView, steps: Seq<Step>) -> bool
    decreases steps.len(),
{
    &&& after(start, steps).phase is Conversing
    &&& steps.len() > 0 ==> is_conversation(start, steps.drop_last())
}

/// The last notice that the helper gave in the steps.
pub open spec fn last_notice(steps: Seq<Step>) -> Option<Seq<char>>
    decreases steps.len(),
{
    if steps.len() == 0 {
        None
    } else {
        match steps.last().input {
            InputView::Line(line) => match crate::helper::message_of(line) {
                HelperMessageView::Notice(text) => Some(text),
                _ => last_notice(steps.drop_last()),
            },
            _ => last_notice(steps.drop_last()),
        }
    }
}

/// After a failed attempt the user is told the last notice that the helper gave in that attempt,
/// and where it gave none, the text for that case. `start` is the state in which the helper was
/// greeted.
pub proof fn a_failed_attempt_shows_its_last_notice(
    start: AuthenticationView,
    steps: Seq<Step>,
    end: Step,
)
    requires
        start.phase matches PhaseView::Conversing { last_info, .. } && last_info is None,
        is_run(start, steps.push(end)),
        is_conversation(start, steps),
        end.input is HelperClosed || (end.input matches InputView::Line(line) && crate::helper::message_of(line)
            is Failure),
    ensures
        done(after(start, steps), end)[0] == ActionView::Notify(
            AgentEventView::AuthorizationRetry {
                cookie: start.cookie,
                retry_message: Some(
                    match last_notice(steps) {
                        Some(text) => text,
                        None => end.fallback,
                    },
                ),
            },
        ),
        after(start, steps.push(end)).phase is AwaitingSubmission,
{
    assert(steps.push(end).drop_last() == steps);
    lemma_last_info(start, steps);
    a_run_keeps_its_cookie(start, steps);
}

proof fn lemma_last_info(start: AuthenticationView, steps: Seq<Step>)
    requires
        start.phase matches PhaseView::Conversing { last_info, .. } && last_info is None,
        is_run(start, steps),
        is_conversation(start, steps),
    ensures
        after(start, steps).phase->last_info == last_notice(steps),
    decreases steps.len(),
{
    if steps.len() > 0 {
        lemma_last_info(start, steps.drop_last());
        reveal_with_fuel(is_conversation, 2);
    }
}

/// A window that is open for no authentication shows nothing of one.
pub open spec fn is_tidy(window: AppView) -> bool {
    window.cookie is None ==> {
        &&& window.message.len() == 0
        &&& window.identities.len() == 0
        &&& !window.authenticating
        &&& !window.show_password
    }
}

/// A closed window holds nothing of the authentications before: so it begins, and so every
/// message leaves it.
pub proof fn a_closed_window_holds_nothing(
    prompt: Seq<char>,
    window: AppView,
    message: AppMsgView,
    text: Seq<char>,
)
    ensures
        is_tidy(crate::ui::initial(prompt)),
        is_tidy(window) ==> is_tidy(window.updated(message, text).0),
{
}

/// A window takes no notice of other authentications than its own, and of no second request
/// while it is open.
pub proof fn a_window_serves_one_authentication(
    window: AppView,
    event: AgentEventView,
    text: Seq<char>,
)
    requires
        event is Started ==> window.cookie is Some,
        !(event is Started) ==> !window.is_open_for(event.cookie()),
    ensures
        window.updated(AppMsgView::AuthEvent(event), text) == (window, None::<UserEventView>),
{
}

/// The agent is told what the user does in the authentication that the window is open for, and in
/// no other.
pub proof fn the_agent_hears_of_the_open_authentication(
    window: AppView,
    message: AppMsgView,
    text: Seq<char>,
)
    ensures
        window.updated(message, text).1 matches Some(event) ==> window.is_open_for(event.cookie()),
        window.updated(message, text).1 is Some <==> window.cookie is Some && !(message
            is AuthEvent),
{
}

/// A hidden password entry is shown only when the agent asks for a secret, asks to retry, or
/// begins an authentication with other than one identity.
pub proof fn only_the_agent_reveals_the_entry(
    window: AppView,
    message: AppMsgView,
    text: Seq<char>,
)
    requires
        !window.show_password,
        window.updated(message, text).0.show_password,
    ensures
        message matches AppMsgView::AuthEvent(event) && match event {
            AgentEventView::Started { names, .. } => names.len() != 1,
            AgentEventView::SecretRequested { .. } => true,
            AgentEventView::AuthorizationRetry { .. } => true,
            _ => false,
        },
{
}

} // verus!
