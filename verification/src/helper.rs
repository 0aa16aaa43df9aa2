//! The line protocol of polkit's authentication helper.

use vstd::prelude::*;

use crate::text::{strip_prefix, terminated, trim};

verus! {

/// What one line of the helper's output says.
pub enum HelperMessage {
    /// The PAM stack asks for input. Holds the prompt text.
    Prompt(String),
    /// The PAM stack has an information or an error message for the user.
    Notice(String),
    /// The user is authenticated.
    Success,
    /// The authentication failed.
    Failure,
    /// A line that says nothing to the agent.
    Other,
}

/// A helper message with its text as a sequence of characters.
pub enum HelperMessageView {
    Prompt(Seq<char>),
    Notice(Seq<char>),
    Success,
    Failure,
    Other,
}

impl View for HelperMessage {
    type V = HelperMessageView;

    open spec fn view(&self) -> HelperMessageView {
        match self {
            HelperMessage::Prompt(text) => HelperMessageView::Prompt(text@),
            HelperMessage::Notice(text) => HelperMessageView::Notice(text@),
            HelperMessage::Success => HelperMessageView::Success,
            HelperMessage::Failure => HelperMessageView::Failure,
            HelperMessage::Other => HelperMessageView::Other,
        }
    }
}

/// What a line of the helper's output says: what it begins with decides, whether or not a space
/// follows, and the rest is the text, without the white space round it.
pub open spec fn message_of(line: Seq<char>) -> HelperMessageView {
    if let Some(text) = crate::text::after_prefix(line, "PAM_PROMPT_ECHO_OFF"@) {
        HelperMessageView::Prompt(crate::text::trimmed(text))
    } else if let Some(text) = crate::text::after_prefix(line, "PAM_PROMPT_ECHO_ON"@) {
        HelperMessageView::Prompt(crate::text::trimmed(text))
    } else if let Some(text) = crate::text::after_prefix(line, "PAM_TEXT_INFO"@) {
        HelperMessageView::Notice(crate::text::trimmed(text))
    } else if let Some(text) = crate::text::after_prefix(line, "PAM_ERROR_MSG"@) {
        HelperMessageView::Notice(crate::text::trimmed(text))
    } else if "SUCCESS"@.is_prefix_of(line) {
        HelperMessageView::Success
    } else if "FAILURE"@.is_prefix_of(line) {
        HelperMessageView::Failure
    } else {
        HelperMessageView::Other
    }
}

/// Reads one line of the helper's output, given without its line feed.
pub fn parse_line(line: &str) -> (r: HelperMessage)
    ensures
        r@ == message_of(line@),
{
    if let Some(text) = strip_prefix(line, "PAM_PROMPT_ECHO_OFF") {
        HelperMessage::Prompt(trim(text))
    } else if let Some(text) = strip_prefix(line, "PAM_PROMPT_ECHO_ON") {
        HelperMessage::Prompt(trim(text))
    } else if let Some(text) = strip_prefix(line, "PAM_TEXT_INFO") {
        HelperMessage::Notice(trim(text))
    } else if let Some(text) = strip_prefix(line, "PAM_ERROR_MSG") {
        HelperMessage::Notice(trim(text))
    } else if strip_prefix(line, "SUCCESS").is_some() {
        HelperMessage::Success
    } else if strip_prefix(line, "FAILURE").is_some() {
        HelperMessage::Failure
    } else {
        HelperMessage::Other
    }
}

/// What is first written to the helper over the agent socket: the user and the cookie, a line
/// each.
pub open spec fn socket_greeting_of(user: Seq<char>, cookie: Seq<char>) -> Seq<char> {
    crate::text::line_of(user) + crate::text::line_of(cookie)
}

/// The greeting for a helper that is reached over the agent socket.
pub fn socket_greeting(user: &str, cookie: &str) -> (r: String)
    ensures
        r@ == socket_greeting_of(user@, cookie@),
{
    terminated(user).concat(terminated(cookie).as_str())
}

/// How the helper program is started.
pub struct HelperCommand {
    pub program: String,
    /// The one argument: the user to authenticate.
    pub argument: String,
    /// A variable that is set in the helper's environment, and its value.
    pub variable: String,
    pub value: String,
}

/// A helper command with its strings as sequences of characters.
pub struct HelperCommandView {
    pub program: Seq<char>,
    pub argument: Seq<char>,
    pub variable: Seq<char>,
    pub value: Seq<char>,
}

impl View for HelperCommand {
    type V = HelperCommandView;

    open spec fn view(&self) -> HelperCommandView {
        HelperCommandView {
            program: self.program@,
            argument: self.argument@,
            variable: self.variable@,
            value: self.value@,
        }
    }
}

/// The helper at `path` is started with the user as its argument, in the locale `C`.
pub open spec fn command_of(path: Seq<char>, user: Seq<char>) -> HelperCommandView {
    HelperCommandView { program: path, argument: user, variable: "LC_ALL"@, value: "C"@ }
}

/// How the helper at `path` is started for `user`.
pub fn helper_command(path: &str, user: &str) -> (r: HelperCommand)
    ensures
        r@ == command_of(path@, user@),
{
    HelperCommand {
        program: path.to_owned(),
        argument: user.to_owned(),
        variable: "LC_ALL".to_owned(),
        value: "C".to_owned(),
    }
}

/// What a line begins with decides what it says, and the text is what follows, but for the white
/// space round it.
pub proof fn a_line_is_read_by_its_beginning(rest: Seq<char>)
    ensures
        message_of("PAM_PROMPT_ECHO_OFF"@ + rest) == HelperMessageView::Prompt(
            crate::text::trimmed(rest),
        ),
        message_of("PAM_PROMPT_ECHO_ON"@ + rest) == HelperMessageView::Prompt(
            crate::text::trimmed(rest),
        ),
        message_of("PAM_TEXT_INFO"@ + rest) == HelperMessageView::Notice(
            crate::text::trimmed(rest),
        ),
        message_of("PAM_ERROR_MSG"@ + rest) == HelperMessageView::Notice(
            crate::text::trimmed(rest),
        ),
        message_of("SUCCESS"@ + rest) == HelperMessageView::Success,
        message_of("FAILURE"@ + rest) == HelperMessageView::Failure,
{
    reveal_strlit("PAM_PROMPT_ECHO_OFF");
    reveal_strlit("PAM_PROMPT_ECHO_ON");
    reveal_strlit("PAM_TEXT_INFO");
    reveal_strlit("PAM_ERROR_MSG");
    reveal_strlit("SUCCESS");
    reveal_strlit("FAILURE");
    crate::text::a_prefix_and_the_rest_are_the_text(
        "PAM_PROMPT_ECHO_OFF"@ + rest,
        "PAM_PROMPT_ECHO_OFF"@,
        rest,
    );
    crate::text::a_prefix_and_the_rest_are_the_text(
        "PAM_PROMPT_ECHO_ON"@ + rest,
        "PAM_PROMPT_ECHO_ON"@,
        rest,
    );
    crate::text::a_prefix_and_the_rest_are_the_text(
        "PAM_TEXT_INFO"@ + rest,
        "PAM_TEXT_INFO"@,
        rest,
    );
    crate::text::a_prefix_and_the_rest_are_the_text(
        "PAM_ERROR_MSG"@ + rest,
        "PAM_ERROR_MSG"@,
        rest,
    );
    lemma_begins("PAM_PROMPT_ECHO_ON"@, rest, "PAM_PROMPT_ECHO_OFF"@, 17);
    lemma_begins("PAM_TEXT_INFO"@, rest, "PAM_PROMPT_ECHO_OFF"@, 4);
    lemma_begins("PAM_TEXT_INFO"@, rest, "PAM_PROMPT_ECHO_ON"@, 4);
    lemma_begins("PAM_ERROR_MSG"@, rest, "PAM_PROMPT_ECHO_OFF"@, 4);
    lemma_begins("PAM_ERROR_MSG"@, rest, "PAM_PROMPT_ECHO_ON"@, 4);
    lemma_begins("PAM_ERROR_MSG"@, rest, "PAM_TEXT_INFO"@, 4);
    lemma_begins("SUCCESS"@, rest, "PAM_PROMPT_ECHO_OFF"@, 0);
    lemma_begins("SUCCESS"@, rest, "PAM_PROMPT_ECHO_ON"@, 0);
    lemma_begins("SUCCESS"@, rest, "PAM_TEXT_INFO"@, 0);
    lemma_begins("SUCCESS"@, rest, "PAM_ERROR_MSG"@, 0);
    lemma_begins("FAILURE"@, rest, "PAM_PROMPT_ECHO_OFF"@, 0);
    lemma_begins("FAILURE"@, rest, "PAM_PROMPT_ECHO_ON"@, 0);
    lemma_begins("FAILURE"@, rest, "PAM_TEXT_INFO"@, 0);
    lemma_begins("FAILURE"@, rest, "PAM_ERROR_MSG"@, 0);
    lemma_begins("FAILURE"@, rest, "SUCCESS"@, 0);
    lemma_begins_itself("SUCCESS"@, rest);
    lemma_begins_itself("FAILURE"@, rest);
}

/// A line that begins with another word than the text that differs from it at `i`.
proof fn lemma_begins(word: Seq<char>, rest: Seq<char>, other: Seq<char>, i: int)
    requires
        0 <= i < word.len(),
        i < other.len(),
        word[i] != other[i],
    ensures
        !other.is_prefix_of(word + rest),
{
    if other.is_prefix_of(word + rest) {
        assert((word + rest).take(other.len() as int)[i] == other[i]);
    }
}

proof fn lemma_begins_itself(word: Seq<char>, rest: Seq<char>)
    ensures
        word.is_prefix_of(word + rest),
{
    assert((word + rest).take(word.len() as int) == word);
}

/// A line that begins with none of the six words says nothing, and no other line does.
pub proof fn every_other_line_says_nothing(line: Seq<char>)
    ensures
        message_of(line) is Other <==> {
            &&& !"PAM_PROMPT_ECHO_OFF"@.is_prefix_of(line)
            &&& !"PAM_PROMPT_ECHO_ON"@.is_prefix_of(line)
            &&& !"PAM_TEXT_INFO"@.is_prefix_of(line)
            &&& !"PAM_ERROR_MSG"@.is_prefix_of(line)
            &&& !"SUCCESS"@.is_prefix_of(line)
            &&& !"FAILURE"@.is_prefix_of(line)
        },
{
}

/// Over the socket the helper reads the user and then the cookie, each whole and each ended by a
/// line feed.
pub proof fn the_greeting_holds_the_user_and_the_cookie(user: Seq<char>, cookie: Seq<char>)
    ensures
        socket_greeting_of(user, cookie).len() == user.len() + cookie.len() + 2,
        socket_greeting_of(user, cookie) == user + seq!['\n'] + cookie + seq!['\n'],
{
}

/// The helper program is the one at the given path, whatever the path, and gets the user, whoever
/// it is, as its argument; its environment is told the locale `C`.
pub proof fn the_helper_program_gets_the_user(path: Seq<char>, user: Seq<char>)
    ensures
        command_of(path, user).program == path,
        command_of(path, user).argument == user,
        command_of(path, user).variable == "LC_ALL"@,
        command_of(path, user).value == "C"@,
{
}

} // verus!
