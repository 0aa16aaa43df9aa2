//! That the debug forms of the events tell them apart, as far as the quoting of strings is
//! unambiguous, and tell their kinds apart in any case.

use vstd::prelude::*;

use crate::events::{AgentEventView, UserEventView};

verus! {

/// A quoted string shows what it quotes and where it ends: no two strings are quoted alike, and no
/// quoted string begins with another one. It is not proved of the standard library's escaping: what
/// rests on it says so.
#[verifier::opaque]
pub open spec fn quoting_is_unambiguous() -> bool {
    forall|s: Seq<char>, t: Seq<char>, x: Seq<char>, y: Seq<char>|
        #[trigger] (crate::debug::quoted(s) + x) == #[trigger] (crate::debug::quoted(t) + y)
            ==> s == t
}

/// What is the same in front of two texts does not tell them apart.
proof fn lemma_same_front(front: Seq<char>, x: Seq<char>, y: Seq<char>)
    requires
        front + x == front + y,
    ensures
        x == y,
{
    assert((front + x).skip(front.len() as int) == x);
}

proof fn lemma_quoted_ends(s: Seq<char>, t: Seq<char>, x: Seq<char>, y: Seq<char>)
    requires
        quoting_is_unambiguous(),
        crate::debug::quoted(s) + x == crate::debug::quoted(t) + y,
    ensures
        s == t,
        x == y,
{
    reveal(quoting_is_unambiguous);
    lemma_same_front(crate::debug::quoted(s), x, y);
}

proof fn lemma_quoted_is_not_empty(s: Seq<char>)
    requires
        quoting_is_unambiguous(),
    ensures
        crate::debug::quoted(s).len() > 0,
{
    if crate::debug::quoted(s).len() == 0 {
        let t = s.push('x');
        let q = crate::debug::quoted(t);
        assert(crate::debug::quoted(s) + q == q + Seq::<char>::empty());
        lemma_quoted_ends(s, t, q, Seq::empty());
        assert(s.len() != t.len());
    }
}

/// The first letter tells whether there is a string.
proof fn lemma_option_first(o: Option<Seq<char>>, pretty: bool, x: Seq<char>)
    ensures
        (crate::debug::option_text_of(o, pretty) + x)[0] == if o is None {
            'N'
        } else {
            'S'
        },
{
    reveal_strlit("None");
    reveal_strlit("Some(");
    reveal_strlit("Some(\n        ");
}

proof fn lemma_option_ends(
    one: Option<Seq<char>>,
    other: Option<Seq<char>>,
    pretty: bool,
    x: Seq<char>,
    y: Seq<char>,
)
    requires
        quoting_is_unambiguous(),
        crate::debug::option_text_of(one, pretty) + x == crate::debug::option_text_of(
            other,
            pretty,
        ) + y,
    ensures
        one == other,
        x == y,
{
    lemma_option_first(one, pretty, x);
    lemma_option_first(other, pretty, y);
    let (open, close) = if pretty {
        ("Some(\n        "@, ",\n    )"@)
    } else {
        ("Some("@, ")"@)
    };
    match (one, other) {
        (Some(s), Some(t)) => {
            let q = crate::debug::quoted(s);
            let r = crate::debug::quoted(t);
            assert(open + q + close + x == open + (q + (close + x)));
            assert(open + r + close + y == open + (r + (close + y)));
            lemma_same_front(open, q + (close + x), r + (close + y));
            lemma_quoted_ends(s, t, close + x, close + y);
            lemma_same_front(close, x, y);
        },
        (None, None) => lemma_same_front("None"@, x, y),
        _ => {},
    }
}

/// What closes a list.
spec fn list_close(len: nat, pretty: bool) -> Seq<char> {
    if pretty && len > 0 {
        "\n    ]"@
    } else {
        "]"@
    }
}

/// What stands in front of the item `i` of a list.
spec fn item_open(i: int, pretty: bool) -> Seq<char> {
    if pretty {
        "\n        "@
    } else if i == 0 {
        Seq::empty()
    } else {
        ", "@
    }
}

/// What stands behind an item of a list.
spec fn item_close(pretty: bool) -> Seq<char> {
    if pretty {
        ","@
    } else {
        Seq::empty()
    }
}

/// The text of a list from the item `i` on.
spec fn items_from(items: Seq<Seq<char>>, i: int, pretty: bool) -> Seq<char>
    decreases items.len() - i,
{
    if i >= items.len() {
        list_close(items.len(), pretty)
    } else {
        item_open(i, pretty) + (crate::debug::quoted(items[i]) + (item_close(pretty) + items_from(
            items,
            i + 1,
            pretty,
        )))
    }
}

proof fn lemma_items_from(items: Seq<Seq<char>>, i: int, pretty: bool)
    requires
        0 <= i <= items.len(),
    ensures
        crate::debug::items_text_of(items.take(i), pretty) + items_from(items, i, pretty)
            == items_from(items, 0, pretty),
    decreases i,
{
    if i > 0 {
        lemma_items_from(items, i - 1, pretty);
        assert(items.take(i).drop_last() == items.take(i - 1));
        let rest = crate::debug::items_text_of(items.take(i - 1), pretty);
        let more = items_from(items, i, pretty);
        let item = crate::debug::quoted(items[i - 1]);
        let open = item_open(i - 1, pretty);
        let close = item_close(pretty);
        assert(crate::debug::items_text_of(items.take(i), pretty) == rest + open + item + close);
        assert(rest + open + item + close + more == rest + (open + (item + (close + more))));
    }
}

proof fn lemma_items_from_len(items: Seq<Seq<char>>, i: int, pretty: bool)
    requires
        0 <= i,
    ensures
        items_from(items, i, pretty).len() >= list_close(items.len(), pretty).len(),
    decreases items.len() - i,
{
    if i < items.len() {
        lemma_items_from_len(items, i + 1, pretty);
    }
}

/// A list that goes on is longer than one that ends.
proof fn lemma_more_items(one: Seq<Seq<char>>, other: Seq<Seq<char>>, pretty: bool)
    requires
        quoting_is_unambiguous(),
        one.len() < other.len(),
    ensures
        items_from(one, one.len() as int, pretty).len() < items_from(
            other,
            one.len() as int,
            pretty,
        ).len(),
{
    reveal_strlit("]");
    reveal_strlit("\n    ]");
    reveal_strlit("\n        ");
    lemma_items_from_len(other, one.len() as int + 1, pretty);
    lemma_quoted_is_not_empty(other[one.len() as int]);
}

proof fn lemma_items_are_told_apart(
    one: Seq<Seq<char>>,
    other: Seq<Seq<char>>,
    i: int,
    pretty: bool,
)
    requires
        quoting_is_unambiguous(),
        0 <= i <= one.len(),
        i <= other.len(),
        one.take(i) == other.take(i),
        items_from(one, i, pretty) == items_from(other, i, pretty),
    ensures
        one == other,
    decreases one.len() - i,
{
    if i == one.len() || i == other.len() {
        if i < other.len() {
            lemma_more_items(one, other, pretty);
        } else if i < one.len() {
            lemma_more_items(other, one, pretty);
        }
        assert(one == one.take(i) && other == other.take(i));
    } else {
        let x = item_close(pretty) + items_from(one, i + 1, pretty);
        let y = item_close(pretty) + items_from(other, i + 1, pretty);
        lemma_same_front(
            item_open(i, pretty),
            crate::debug::quoted(one[i]) + x,
            crate::debug::quoted(other[i]) + y,
        );
        lemma_quoted_ends(one[i], other[i], x, y);
        lemma_same_front(
            item_close(pretty),
            items_from(one, i + 1, pretty),
            items_from(other, i + 1, pretty),
        );
        assert(one.take(i + 1) == one.take(i).push(one[i]));
        assert(other.take(i + 1) == other.take(i).push(other[i]));
        lemma_items_are_told_apart(one, other, i + 1, pretty);
    }
}

proof fn lemma_lists_are_told_apart(
    one: Seq<Seq<char>>,
    other: Seq<Seq<char>>,
    pretty: bool,
    close: Seq<char>,
)
    requires
        quoting_is_unambiguous(),
        crate::debug::list_text_of(one, pretty) + close == crate::debug::list_text_of(
            other,
            pretty,
        ) + close,
    ensures
        one == other,
{
    let x = crate::debug::list_text_of(one, pretty);
    let y = crate::debug::list_text_of(other, pretty);
    assert((x + close).len() == (y + close).len());
    assert((x + close).take(x.len() as int) == x);
    assert((y + close).take(y.len() as int) == y);
    lemma_items_from(one, one.len() as int, pretty);
    lemma_items_from(other, other.len() as int, pretty);
    assert(one.take(one.len() as int) == one && other.take(other.len() as int) == other);
    assert(x == "["@ + items_from(one, 0, pretty));
    assert(y == "["@ + items_from(other, 0, pretty));
    lemma_same_front("["@, items_from(one, 0, pretty), items_from(other, 0, pretty));
    assert(one.take(0) == other.take(0));
    lemma_items_are_told_apart(one, other, 0, pretty);
}

/// What stands in front of the value of the field `i`.
spec fn field_open(name: Seq<char>, i: int, pretty: bool) -> Seq<char> {
    let indent = if pretty {
        "    "@
    } else if i == 0 {
        Seq::empty()
    } else {
        ", "@
    };
    indent + name + ": "@
}

/// What stands behind the value of a field.
spec fn field_close(pretty: bool) -> Seq<char> {
    if pretty {
        ",\n"@
    } else {
        Seq::empty()
    }
}

/// What stands between the name and the fields.
spec fn struct_open(pretty: bool) -> Seq<char> {
    if pretty {
        " {\n"@
    } else {
        " { "@
    }
}

/// What closes a struct-like value.
spec fn struct_close(pretty: bool) -> Seq<char> {
    if pretty {
        "}"@
    } else {
        " }"@
    }
}

/// The text of a struct-like value from the field `i` on.
spec fn fields_from(fields: Seq<(Seq<char>, Seq<char>)>, i: int, pretty: bool) -> Seq<char>
    decreases fields.len() - i,
{
    if i >= fields.len() {
        struct_close(pretty)
    } else {
        field_open(fields[i].0, i, pretty) + (fields[i].1 + (field_close(pretty) + fields_from(
            fields,
            i + 1,
            pretty,
        )))
    }
}

/// The text of a struct-like value behind the value of the field `i`.
spec fn after_field(fields: Seq<(Seq<char>, Seq<char>)>, i: int, pretty: bool) -> Seq<char> {
    field_close(pretty) + fields_from(fields, i + 1, pretty)
}

proof fn lemma_fields_from(fields: Seq<(Seq<char>, Seq<char>)>, i: int, pretty: bool)
    requires
        0 <= i <= fields.len(),
    ensures
        crate::debug::fields_text_of(fields.take(i), pretty) + fields_from(fields, i, pretty)
            == fields_from(fields, 0, pretty),
    decreases i,
{
    if i > 0 {
        lemma_fields_from(fields, i - 1, pretty);
        assert(fields.take(i).drop_last() == fields.take(i - 1));
        let rest = crate::debug::fields_text_of(fields.take(i - 1), pretty);
        let more = fields_from(fields, i, pretty);
        let open = field_open(fields[i - 1].0, i - 1, pretty);
        let value = fields[i - 1].1;
        let close = field_close(pretty);
        assert(crate::debug::fields_text_of(fields.take(i), pretty) == rest + open + value
            + close);
        assert(rest + open + value + close + more == rest + (open + (value + (close + more))));
    }
}

/// Two struct-like values with the same text and the same name have the same text from the first
/// field on.
proof fn lemma_same_name(
    name: Seq<char>,
    one: Seq<(Seq<char>, Seq<char>)>,
    other: Seq<(Seq<char>, Seq<char>)>,
    pretty: bool,
)
    requires
        one.len() > 0,
        other.len() > 0,
        crate::debug::struct_text_of(name, one, pretty) == crate::debug::struct_text_of(
            name,
            other,
            pretty,
        ),
    ensures
        fields_from(one, 0, pretty) == fields_from(other, 0, pretty),
{
    let front = name + struct_open(pretty);
    lemma_fields_from(one, one.len() as int, pretty);
    lemma_fields_from(other, other.len() as int, pretty);
    assert(one.take(one.len() as int) == one && other.take(other.len() as int) == other);
    assert(crate::debug::struct_text_of(name, one, pretty) == front + fields_from(
        one,
        0,
        pretty,
    ));
    assert(crate::debug::struct_text_of(name, other, pretty) == front + fields_from(
        other,
        0,
        pretty,
    ));
    lemma_same_front(front, fields_from(one, 0, pretty), fields_from(other, 0, pretty));
}

/// Where the field `i` has the same name in both, the texts agree from its value on.
proof fn lemma_same_field(
    one: Seq<(Seq<char>, Seq<char>)>,
    other: Seq<(Seq<char>, Seq<char>)>,
    i: int,
    pretty: bool,
)
    requires
        0 <= i < one.len(),
        i < other.len(),
        one[i].0 == other[i].0,
        fields_from(one, i, pretty) == fields_from(other, i, pretty),
    ensures
        one[i].1 + after_field(one, i, pretty) == other[i].1 + after_field(other, i, pretty),
{
    lemma_same_front(
        field_open(one[i].0, i, pretty),
        one[i].1 + after_field(one, i, pretty),
        other[i].1 + after_field(other, i, pretty),
    );
}

/// Where the field `i` is a quoted string in both, it is the same string, and the texts agree
/// from the next field on.
proof fn lemma_same_string(
    one: Seq<(Seq<char>, Seq<char>)>,
    other: Seq<(Seq<char>, Seq<char>)>,
    i: int,
    pretty: bool,
    s: Seq<char>,
    t: Seq<char>,
)
    requires
        quoting_is_unambiguous(),
        0 <= i < one.len(),
        i < other.len(),
        one[i] == (other[i].0, crate::debug::quoted(s)),
        other[i].1 == crate::debug::quoted(t),
        fields_from(one, i, pretty) == fields_from(other, i, pretty),
    ensures
        s == t,
        fields_from(one, i + 1, pretty) == fields_from(other, i + 1, pretty),
{
    lemma_same_field(one, other, i, pretty);
    lemma_quoted_ends(s, t, after_field(one, i, pretty), after_field(other, i, pretty));
    lemma_same_front(
        field_close(pretty),
        fields_from(one, i + 1, pretty),
        fields_from(other, i + 1, pretty),
    );
}

/// The text of a struct-like value begins with its name.
proof fn lemma_name_first(
    name: Seq<char>,
    fields: Seq<(Seq<char>, Seq<char>)>,
    pretty: bool,
    i: int,
)
    requires
        0 <= i < name.len(),
    ensures
        crate::debug::struct_text_of(name, fields, pretty)[i] == name[i],
{
}

/// Equal debug forms of two agent events come from the same kind of event, however strings are
/// quoted.
pub proof fn debug_forms_tell_kinds_apart(one: AgentEventView, other: AgentEventView, pretty: bool)
    requires
        one.debug_text(pretty) == other.debug_text(pretty),
    ensures
        one.debug_fields(pretty).0 == other.debug_fields(pretty).0,
        one is Started <==> other is Started,
        one is Canceled <==> other is Canceled,
        one is AuthorizationSucceeded <==> other is AuthorizationSucceeded,
        one is AuthorizationRetry <==> other is AuthorizationRetry,
        one is Info <==> other is Info,
        one is SecretRequested <==> other is SecretRequested,
{
    reveal_strlit("Started");
    reveal_strlit("Canceled");
    reveal_strlit("AuthorizationSucceeded");
    reveal_strlit("AuthorizationRetry");
    reveal_strlit("Info");
    reveal_strlit("SecretRequested");
    let (name, fields) = one.debug_fields(pretty);
    let (other_name, other_fields) = other.debug_fields(pretty);
    lemma_name_first(name, fields, pretty, 0);
    lemma_name_first(other_name, other_fields, pretty, 0);
    lemma_name_first(name, fields, pretty, 1);
    lemma_name_first(other_name, other_fields, pretty, 1);
    if name.len() > 13 && other_name.len() > 13 {
        lemma_name_first(name, fields, pretty, 13);
        lemma_name_first(other_name, other_fields, pretty, 13);
    }
}

proof fn lemma_agent_events_are_told_apart(
    one: AgentEventView,
    other: AgentEventView,
    pretty: bool,
)
    requires
        quoting_is_unambiguous(),
        one.debug_text(pretty) == other.debug_text(pretty),
    ensures
        one == other,
{
    let (name, fields) = one.debug_fields(pretty);
    let others = other.debug_fields(pretty).1;
    debug_forms_tell_kinds_apart(one, other, pretty);
    lemma_same_name(name, fields, others, pretty);
    lemma_same_string(fields, others, 0, pretty, one.cookie(), other.cookie());
    match (one, other) {
        (
            AgentEventView::Started { message, names, .. },
            AgentEventView::Started { message: other_message, names: other_names, .. },
        ) => {
            lemma_same_string(fields, others, 1, pretty, message, other_message);
            lemma_same_field(fields, others, 2, pretty);
            lemma_lists_are_told_apart(
                names,
                other_names,
                pretty,
                field_close(pretty) + struct_close(pretty),
            );
        },
        (
            AgentEventView::AuthorizationRetry { retry_message, .. },
            AgentEventView::AuthorizationRetry { retry_message: other_message, .. },
        ) => {
            lemma_same_field(fields, others, 1, pretty);
            lemma_option_ends(
                retry_message,
                other_message,
                pretty,
                after_field(fields, 1, pretty),
                after_field(others, 1, pretty),
            );
        },
        (
            AgentEventView::Info { message, .. },
            AgentEventView::Info { message: other_message, .. },
        ) => {
            lemma_same_string(fields, others, 1, pretty, message, other_message);
        },
        (
            AgentEventView::SecretRequested { prompt, .. },
            AgentEventView::SecretRequested { prompt: other_prompt, .. },
        ) => {
            lemma_same_string(fields, others, 1, pretty, prompt, other_prompt);
        },
        _ => {},
    }
}

/// As far as quoting is unambiguous, two agent events have the same debug form exactly when they
/// are the same kind of event with equal fields.
pub proof fn debug_forms_tell_agent_events_apart(
    one: AgentEventView,
    other: AgentEventView,
    pretty: bool,
)
    ensures
        quoting_is_unambiguous() ==> (one.debug_text(pretty) == other.debug_text(pretty) <==> one
            == other),
{
    if quoting_is_unambiguous() && one.debug_text(pretty) == other.debug_text(pretty) {
        lemma_agent_events_are_told_apart(one, other, pretty);
    }
}

/// The two events are of the same kind and differ in the password at most.
pub open spec fn differ_in_password_at_most(one: UserEventView, other: UserEventView) -> bool {
    match (one, other) {
        (UserEventView::Canceled { .. }, UserEventView::Canceled { .. }) => {
            one.cookie() == other.cookie()
        },
        (
            UserEventView::ProvidedPassword { username, .. },
            UserEventView::ProvidedPassword { username: other_username, .. },
        ) => one.cookie() == other.cookie() && username == other_username,
        _ => false,
    }
}

/// As far as quoting is unambiguous, two user events have the same debug form exactly when they
/// are the same kind of event with equal fields, but for the password, which the form leaves out.
pub proof fn debug_forms_tell_user_events_apart(
    one: UserEventView,
    other: UserEventView,
    pretty: bool,
)
    ensures
        differ_in_password_at_most(one, other) ==> one.debug_text(pretty) == other.debug_text(
            pretty,
        ),
        quoting_is_unambiguous() && one.debug_text(pretty) == other.debug_text(pretty)
            ==> differ_in_password_at_most(one, other),
{
    if quoting_is_unambiguous() && one.debug_text(pretty) == other.debug_text(pretty) {
        let (name, fields) = one.debug_fields();
        let (other_name, others) = other.debug_fields();
        reveal_strlit("Canceled");
        reveal_strlit("ProvidedPassword");
        lemma_name_first(name, fields, pretty, 0);
        lemma_name_first(other_name, others, pretty, 0);
        lemma_same_name(name, fields, others, pretty);
        lemma_same_string(fields, others, 0, pretty, one.cookie(), other.cookie());
        if one is ProvidedPassword {
            lemma_same_string(
                fields,
                others,
                1,
                pretty,
                one->username,
                other->username,
            );
        }
    }
}

} // verus!
