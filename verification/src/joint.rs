//! What holds of the agent and the window together, with the events between them in a queue.

use vstd::prelude::*;

use crate::dbus::{ActionView, AuthenticationView, Awaited, InputView};
use crate::dbus::{PhaseView, SecretView, SystemConfigView};
use crate::events::AgentEventView;
use crate::laws::Step;
use crate::ui::{AppMsgView, AppView};

verus! {

/// The events that the actions send to the window, in their order.
pub open spec fn sent(actions: Seq<ActionView>) -> Seq<AgentEventView>
    decreases actions.len(),
{
    if actions.len() == 0 {
        Seq::empty()
    } else {
        let sooner = sent(actions.drop_last());
        match crate::laws::told(actions.last()) {
            Some(event) => sooner.push(event),
            None => sooner,
        }
    }
}

/// An authentication, the window, and the events that have been sent to the window and have not
/// reached it, the oldest first.
pub struct Joint {
    pub agent: AuthenticationView,
    pub on_the_way: Seq<AgentEventView>,
    pub window: AppView,
}

/// Something that happens to the agent or to the window.
pub enum JointStep {
    /// A step of the authentication. What it tells the window is sent.
    Agent { step: Step },
    /// Another event is sent to the window: polkit cancels an authentication, or there is news of
    /// another one.
    Sent { event: AgentEventView },
    /// The oldest event on the way reaches the window. `text` is the translation that it shows,
    /// where it shows one.
    Delivered { text: Seq<char> },
    /// The user does something in the window. The agent may hear of it in any later step, or not.
    User { message: AppMsgView, text: Seq<char> },
}

impl Joint {
    pub open spec fn next(self, step: JointStep) -> Joint {
        match step {
            JointStep::Agent { step } => Joint {
                agent: self.agent.next(step.input, step.fallback).0,
                on_the_way: self.on_the_way + sent(crate::laws::done(self.agent, step)),
                ..self
            },
            JointStep::Sent { event } => Joint { on_the_way: self.on_the_way.push(event), ..self },
            JointStep::Delivered { text } => Joint {
                on_the_way: self.on_the_way.drop_first(),
                window: self.window.updated(
                    AppMsgView::AuthEvent(self.on_the_way.first()),
                    text,
                ).0,
                ..self
            },
            JointStep::User { message, text } => Joint {
                window: self.window.updated(message, text).0,
                ..self
            },
        }
    }

    /// The step can come about: the authentication waits for it, there is an event to deliver, or
    /// the event is not the request of this authentication over again.
    pub open spec fn allows(self, step: JointStep) -> bool {
        match step {
            JointStep::Agent { step } => self.agent.accepts(step.input),
            JointStep::Sent { event } => !is_request(event, self.agent.cookie),
            JointStep::Delivered { .. } => self.on_the_way.len() > 0,
            JointStep::User { message, .. } => !(message is AuthEvent),
        }
    }

    /// Where the user's password is what the authentication cannot go on without, the window, if
    /// it is open for it, shows the password entry.
    pub open spec fn can_be_answered(self) -> bool {
        needs_password(self.agent) && self.window.is_open_for(self.agent.cookie)
            ==> self.window.show_password
    }
}

/// The event tells the window of the authentication `cookie` for the first time.
pub open spec fn is_request(event: AgentEventView, cookie: Seq<char>) -> bool {
    event is Started && event.cookie() == cookie
}

/// The authentication cannot go on without a password of the user: one is to be submitted, or the
/// helper waits for it.
pub open spec fn needs_password(state: AuthenticationView) -> bool {
    match state.phase {
        PhaseView::Announcing { eager_user } => eager_user is None,
        PhaseView::AwaitingSubmission => true,
        PhaseView::Conversing { secret, .. } => secret is Owed,
        _ => false,
    }
}

/// The agent and the window after the steps.
pub open spec fn joint_after(start: Joint, steps: Seq<JointStep>) -> Joint
    decreases steps.len(),
{
    if steps.len() == 0 {
        start
    } else {
        joint_after(start, steps.drop_last()).next(steps.last())
    }
}

/// Each of the steps can come about.
pub open spec fn is_joint_run(start: Joint, steps: Seq<JointStep>) -> bool
    decreases steps.len(),
{
    steps.len() > 0 ==> {
        &&& is_joint_run(start, steps.drop_last())
        &&& joint_after(start, steps.drop_last()).allows(steps.last())
    }
}

/// What polkit asks for when an authentication begins, with the names of those who may answer.
pub struct Request {
    pub config: SystemConfigView,
    pub message: Seq<char>,
    pub cookie: Seq<char>,
    pub names: Seq<Seq<char>>,
}

/// The agent and the window when an authentication begins, with `earlier` events still on their
/// way.
pub open spec fn joint_begun(
    request: Request,
    earlier: Seq<AgentEventView>,
    window: AppView,
) -> Joint {
    let (agent, actions) = crate::dbus::begun(
        request.config,
        request.message,
        request.cookie,
        request.names,
    );
    Joint { agent, on_the_way: earlier + sent(actions), window }
}

/// The window has not heard of the authentication `cookie`, and will not hear of it from the
/// events on the way.
pub open spec fn is_news(
    cookie: Seq<char>,
    earlier: Seq<AgentEventView>,
    window: AppView,
) -> bool {
    &&& !window.is_open_for(cookie)
    &&& forall|i: int| 0 <= i < earlier.len() ==> !is_request(#[trigger] earlier[i], cookie)
}

/// Whenever an authentication cannot go on without a password, and all that was sent has reached
/// the window, the window, if it is open for the authentication, shows the password entry: from
/// the start with several identities, after the helper's prompt with a single one, and after
/// every failed attempt. So no authentication gets stuck with its entry hidden.
pub proof fn the_user_can_always_answer(
    request: Request,
    earlier: Seq<AgentEventView>,
    window: AppView,
    steps: Seq<JointStep>,
)
    requires
        is_news(request.cookie, earlier, window),
        is_joint_run(joint_begun(request, earlier, window), steps),
        joint_after(joint_begun(request, earlier, window), steps).on_the_way.len() == 0,
    ensures
        joint_after(joint_begun(request, earlier, window), steps).can_be_answered(),
{
    let _ = lemma_entry_is_known(request, earlier, window, steps);
}

/// What is known of the password entry of the window as far as it serves `cookie`: nothing where
/// it is not open for it, else whether the entry is shown.
spec fn entry_of(window: AppView, cookie: Seq<char>) -> Option<bool> {
    if window.is_open_for(cookie) {
        Some(window.show_password)
    } else {
        None
    }
}

/// The entry after an event, for a window that is open to the request.
spec fn entry_after(entry: Option<bool>, cookie: Seq<char>, event: AgentEventView) -> Option<bool> {
    if event.cookie() != cookie {
        entry
    } else {
        match (event, entry) {
            (AgentEventView::Started { names, .. }, None) => Some(names.len() != 1),
            (AgentEventView::Canceled { .. }, _) => None,
            (AgentEventView::AuthorizationSucceeded { .. }, _) => None,
            (AgentEventView::AuthorizationRetry { .. }, Some(_)) => Some(true),
            (AgentEventView::SecretRequested { .. }, Some(_)) => Some(true),
            _ => entry,
        }
    }
}

/// The entry after all the events.
spec fn entry_after_all(
    entry: Option<bool>,
    cookie: Seq<char>,
    events: Seq<AgentEventView>,
) -> Option<bool>
    decreases events.len(),
{
    if events.len() == 0 {
        entry
    } else {
        entry_after(entry_after_all(entry, cookie, events.drop_last()), cookie, events.last())
    }
}

/// The window is closed to the authentication or shows its entry as the events so far demand; and
/// the events on the way will leave it shown where a password is needed.
spec fn is_on_track(joint: Joint, entry: Option<bool>) -> bool {
    let cookie = joint.agent.cookie;
    let events = joint.on_the_way;
    &&& entry_of(joint.window, cookie) is None || entry_of(joint.window, cookie) == entry
    &&& needs_password(joint.agent) ==> entry_after_all(entry, cookie, events) != Some(false)
    &&& forall|i: int|
        0 <= i < events.len() && is_request(#[trigger] events[i], cookie) ==> entry is None
    &&& forall|i: int, j: int|
        0 <= i < j < events.len() ==> !(is_request(#[trigger] events[i], cookie) && is_request(
            #[trigger] events[j],
            cookie,
        ))
}

proof fn lemma_oldest_first(entry: Option<bool>, cookie: Seq<char>, events: Seq<AgentEventView>)
    requires
        events.len() > 0,
    ensures
        entry_after_all(entry, cookie, events) == entry_after_all(
            entry_after(entry, cookie, events.first()),
            cookie,
            events.drop_first(),
        ),
    decreases events.len(),
{
    if events.len() > 1 {
        lemma_oldest_first(entry, cookie, events.drop_last());
        assert(events.drop_first().drop_last() == events.drop_last().drop_first());
    } else {
        reveal_with_fuel(entry_after_all, 2);
    }
}

proof fn lemma_closed_stays_closed(cookie: Seq<char>, events: Seq<AgentEventView>)
    requires
        forall|i: int| 0 <= i < events.len() ==> !is_request(#[trigger] events[i], cookie),
    ensures
        entry_after_all(None, cookie, events) is None,
    decreases events.len(),
{
    if events.len() > 0 {
        lemma_closed_stays_closed(cookie, events.drop_last());
    }
}

/// A step of the authentication sends nothing or one event, and never the request.
proof fn lemma_one_event_at_most(state: AuthenticationView, step: Step)
    ensures
        ({
            let events = sent(crate::laws::done(state, step));
            ||| events == Seq::<AgentEventView>::empty()
            ||| exists|event: AgentEventView| #[trigger]
                seq![event] == events && !(event is Started)
        }),
{
    reveal_with_fuel(sent, 4);
    let events = sent(crate::laws::done(state, step));
    if events.len() > 0 {
        assert(seq![events[0]] == events);
    }
}

proof fn lemma_stays_on_track(joint: Joint, step: JointStep, entry: Option<bool>) -> (then: Option<
    bool,
>)
    requires
        joint.allows(step),
        is_on_track(joint, entry),
    ensures
        is_on_track(joint.next(step), then),
        joint.next(step).agent.cookie == joint.agent.cookie,
{
    let cookie = joint.agent.cookie;
    let events = joint.on_the_way;
    match step {
        JointStep::Agent { step } => {
            lemma_one_event_at_most(joint.agent, step);
            reveal_with_fuel(sent, 4);
            let more = sent(crate::laws::done(joint.agent, step));
            if more.len() > 0 {
                assert((events + more).drop_last() == events);
            } else {
                assert(events + more == events);
            }
            entry
        },
        JointStep::Sent { event } => {
            assert(events.push(event).drop_last() == events);
            entry
        },
        JointStep::Delivered { .. } => {
            lemma_oldest_first(entry, cookie, events);
            entry_after(entry, cookie, events.first())
        },
        JointStep::User { .. } => entry,
    }
}

proof fn lemma_entry_is_known(
    request: Request,
    earlier: Seq<AgentEventView>,
    window: AppView,
    steps: Seq<JointStep>,
) -> (entry: Option<bool>)
    requires
        is_news(request.cookie, earlier, window),
        is_joint_run(joint_begun(request, earlier, window), steps),
    ensures
        is_on_track(joint_after(joint_begun(request, earlier, window), steps), entry),
    decreases steps.len(),
{
    let start = joint_begun(request, earlier, window);
    if steps.len() == 0 {
        reveal_with_fuel(sent, 2);
        assert(start.on_the_way.drop_last() == earlier);
        lemma_closed_stays_closed(request.cookie, earlier);
        None
    } else {
        let entry = lemma_entry_is_known(request, earlier, window, steps.drop_last());
        lemma_stays_on_track(joint_after(start, steps.drop_last()), steps.last(), entry)
    }
}

/// An event that leaves the entry of the authentication `cookie` hidden, in a window that serves
/// no other: it begins no authentication, and it does not ask the user of this one for a secret
/// or for another attempt.
pub open spec fn is_quiet_event(cookie: Seq<char>, event: AgentEventView) -> bool {
    match event {
        AgentEventView::Started { .. } => false,
        AgentEventView::SecretRequested { .. } => event.cookie() != cookie,
        AgentEventView::AuthorizationRetry { .. } => event.cookie() != cookie,
        _ => true,
    }
}

/// A step in which the helper neither asks for a secret nor fails, and in which no event is sent
/// that would reveal the entry.
pub open spec fn is_quiet(cookie: Seq<char>, step: JointStep) -> bool {
    match step {
        JointStep::Agent { step } => match step.input {
            InputView::Line(line) => {
                let message = crate::helper::message_of(line);
                !(message is Prompt) && !(message is Failure)
            },
            InputView::HelperClosed => false,
            _ => true,
        },
        JointStep::Sent { event } => is_quiet_event(cookie, event),
        JointStep::Delivered { .. } => true,
        JointStep::User { .. } => true,
    }
}

/// With a single identity the password entry stays hidden as long as the helper neither asks for
/// a secret nor fails: what else the helper has to say, what is heard of other authentications,
/// and what the user does, does not reveal it.
pub proof fn the_entry_stays_hidden_until_asked_for(
    request: Request,
    earlier: Seq<AgentEventView>,
    window: AppView,
    steps: Seq<JointStep>,
)
    requires
        request.names.len() == 1,
        window.cookie is None,
        !window.show_password,
        forall|i: int|
            0 <= i < earlier.len() ==> is_quiet_event(request.cookie, #[trigger] earlier[i]),
        is_joint_run(joint_begun(request, earlier, window), steps),
        forall|i: int| 0 <= i < steps.len() ==> is_quiet(request.cookie, #[trigger] steps[i]),
    ensures
        !joint_after(joint_begun(request, earlier, window), steps).window.show_password,
{
    lemma_stays_hidden(request, earlier, window, steps);
}

/// The window is closed or serves the authentication, its entry is hidden, and nothing on the way
/// will reveal it.
spec fn is_hidden(joint: Joint) -> bool {
    let cookie = joint.agent.cookie;
    &&& joint.window.cookie is None || joint.window.is_open_for(cookie)
    &&& !joint.window.show_password
    &&& forall|i: int|
        0 <= i < joint.on_the_way.len() ==> is_quiet_event(
            cookie,
            #[trigger] joint.on_the_way[i],
        ) || (joint.on_the_way[i] matches AgentEventView::Started { cookie: own, names, .. }
            && own == cookie && names.len() == 1)
}

proof fn lemma_stays_hidden(
    request: Request,
    earlier: Seq<AgentEventView>,
    window: AppView,
    steps: Seq<JointStep>,
)
    requires
        request.names.len() == 1,
        window.cookie is None,
        !window.show_password,
        forall|i: int|
            0 <= i < earlier.len() ==> is_quiet_event(request.cookie, #[trigger] earlier[i]),
        is_joint_run(joint_begun(request, earlier, window), steps),
        forall|i: int| 0 <= i < steps.len() ==> is_quiet(request.cookie, #[trigger] steps[i]),
    ensures
        is_hidden(joint_after(joint_begun(request, earlier, window), steps)),
        joint_after(joint_begun(request, earlier, window), steps).agent.cookie == request.cookie,
    decreases steps.len(),
{
    let start = joint_begun(request, earlier, window);
    reveal_with_fuel(sent, 4);
    if steps.len() == 0 {
        let actions = crate::dbus::begun(
            request.config,
            request.message,
            request.cookie,
            request.names,
        ).1;
        assert(start.on_the_way == earlier.push(actions[0]->Announce_0));
    } else {
        let sooner = steps.drop_last();
        lemma_stays_hidden(request, earlier, window, sooner);
        let before = joint_after(start, sooner);
        if let JointStep::Agent { step } = steps.last() {
            lemma_one_event_at_most(before.agent, step);
        }
    }
}

/// When the helper asks for a secret that is not at hand, the one event that is sent makes the
/// window, if it is then open for the authentication, show the entry with the helper's prompt,
/// clear the status of the method before, and let the user type.
pub proof fn a_prompt_reaches_the_user(
    agent: AuthenticationView,
    line: Seq<char>,
    fallback: Seq<char>,
    window: AppView,
    text: Seq<char>,
)
    requires
        agent.phase matches PhaseView::Conversing { secret: SecretView::Missing, .. },
        window.is_open_for(agent.cookie),
        crate::helper::message_of(line) is Prompt,
    ensures
        ({
            let step = Step { input: InputView::Line(line), fallback };
            let events = sent(crate::laws::done(agent, step));
            let prompt = crate::helper::message_of(line)->Prompt_0;
            &&& crate::laws::owes_secret(agent.next(step.input, step.fallback).0)
            &&& events.len() == 1
            &&& window.updated(AppMsgView::AuthEvent(events[0]), text).0 == AppView {
                show_password: true,
                authenticating: false,
                retry_message: None,
                prompt: if prompt.len() == 0 {
                    text
                } else {
                    prompt
                },
                ..window
            }
        }),
{
    reveal_with_fuel(sent, 2);
}

/// When the helper reports success, the one event that is sent closes the window that is open for
/// the authentication.
pub proof fn success_closes_the_window(
    agent: AuthenticationView,
    line: Seq<char>,
    fallback: Seq<char>,
    window: AppView,
    text: Seq<char>,
)
    requires
        agent.phase matches PhaseView::Conversing { secret, .. } && !(secret is Owed),
        window.is_open_for(agent.cookie),
        crate::helper::message_of(line) is Success,
    ensures
        ({
            let step = Step { input: InputView::Line(line), fallback };
            let events = sent(crate::laws::done(agent, step));
            &&& agent.next(step.input, step.fallback).0.phase is Finished
            &&& events.len() == 1
            &&& window.updated(AppMsgView::AuthEvent(events[0]), text).0.cookie is None
        }),
{
    reveal_with_fuel(sent, 3);
}

/// What the user submits or cancels in the window that is open for an authentication is taken up
/// by that authentication: nothing that the window sends for it is passed over.
pub proof fn the_windows_answer_is_taken_up(
    agent: AuthenticationView,
    window: AppView,
    message: AppMsgView,
    text: Seq<char>,
    fallback: Seq<char>,
)
    requires
        window.is_open_for(agent.cookie),
        agent.awaits() == Awaited::User || agent.awaits() == Awaited::HelperOrUser,
        !(message is AuthEvent),
    ensures
        ({
            let event = window.updated(message, text).1->0;
            let then = agent.next(InputView::User(event), fallback).0;
            &&& window.updated(message, text).1 is Some
            &&& agent.accepts(InputView::User(event))
            &&& match message {
                AppMsgView::Confirm { user, password } => match agent.phase {
                    PhaseView::AwaitingSubmission => then.phase == (PhaseView::Connecting {
                        username: user,
                        password: Some(password),
                    }),
                    PhaseView::Conversing { secret, last_info } => then.phase
                        == (PhaseView::Conversing {
                        secret: if secret is Owed {
                            SecretView::Missing
                        } else {
                            SecretView::Held(password)
                        },
                        last_info,
                    }),
                    _ => false,
                },
                _ => then.phase is Finished,
            }
        }),
{
}

} // verus!
