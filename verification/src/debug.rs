//! The text that the standard library's debug formatting gives to a struct-like value with
//! strings in its fields, on one line or, as `{:#?}` does, on one line per field.

use vstd::prelude::*;

verus! {

/// The debug form of a string: the string between double quotes, with its special characters
/// escaped.
pub uninterp spec fn quoted(s: Seq<char>) -> Seq<char>;

/// Calls `<str as core::fmt::Debug>::fmt` by way of `format!`, and names the text that it writes.
/// The text is a function of the string alone.
#[verifier::external_body]
pub(crate) fn quote(s: &str) -> (r: String)
    ensures
        r@ == quoted(s@),
{
    format!("{:?}", s)
}

/// The debug form of an optional string in a field.
pub open spec fn option_text_of(o: Option<Seq<char>>, pretty: bool) -> Seq<char> {
    match o {
        None => "None"@,
        Some(s) => if pretty {
            "Some(\n        "@ + quoted(s) + ",\n    )"@
        } else {
            "Some("@ + quoted(s) + ")"@
        },
    }
}

/// The items of a list, each but the last followed by a comma, or each on a line of its own.
pub open spec fn items_text_of(items: Seq<Seq<char>>, pretty: bool) -> Seq<char>
    decreases items.len(),
{
    if items.len() == 0 {
        Seq::empty()
    } else {
        let rest = items_text_of(items.drop_last(), pretty);
        if pretty {
            rest + "\n        "@ + quoted(items.last()) + ","@
        } else if items.len() == 1 {
            rest + quoted(items.last())
        } else {
            rest + ", "@ + quoted(items.last())
        }
    }
}

/// The debug form of a list of strings in a field.
pub open spec fn list_text_of(items: Seq<Seq<char>>, pretty: bool) -> Seq<char> {
    "["@ + items_text_of(items, pretty) + if pretty && items.len() > 0 {
        "\n    ]"@
    } else {
        "]"@
    }
}

/// The fields of a struct-like value, each given by its name and the debug form of its value.
pub open spec fn fields_text_of(fields: Seq<(Seq<char>, Seq<char>)>, pretty: bool) -> Seq<char>
    decreases fields.len(),
{
    if fields.len() == 0 {
        Seq::empty()
    } else {
        let rest = fields_text_of(fields.drop_last(), pretty);
        let field = fields.last().0 + ": "@ + fields.last().1;
        if pretty {
            rest + "    "@ + field + ",\n"@
        } else if fields.len() == 1 {
            rest + field
        } else {
            rest + ", "@ + field
        }
    }
}

/// The debug form of a struct-like value: without fields, the bare name.
pub open spec fn struct_text_of(
    name: Seq<char>,
    fields: Seq<(Seq<char>, Seq<char>)>,
    pretty: bool,
) -> Seq<char> {
    if fields.len() == 0 {
        name
    } else if pretty {
        name + " {\n"@ + fields_text_of(fields, pretty) + "}"@
    } else {
        name + " { "@ + fields_text_of(fields, pretty) + " }"@
    }
}

/// Field names and field texts, as sequences of characters.
pub open spec fn field_views(fields: Seq<(&str, String)>) -> Seq<(Seq<char>, Seq<char>)> {
    Seq::new(fields.len(), |i: int| (fields[i].0@, fields[i].1@))
}

/// The debug form of an optional string in a field.
pub fn option_text(o: &Option<String>, pretty: bool) -> (r: String)
    ensures
        r@ == option_text_of(o.deep_view(), pretty),
{
    match o {
        None => "None".to_owned(),
        Some(s) => if pretty {
            "Some(\n        ".to_owned().concat(quote(s).as_str()).concat(",\n    )")
        } else {
            "Some(".to_owned().concat(quote(s).as_str()).concat(")")
        },
    }
}

/// The debug form of a list of strings in a field.
pub fn list_text(items: &Vec<String>, pretty: bool) -> (r: String)
    ensures
        r@ == list_text_of(items.deep_view(), pretty),
{
    let ghost all = items.deep_view();
    let mut text = "[".to_owned();
    let mut i: usize = 0;
    while i < items.len()
        invariant
            i <= items.len(),
            all == items.deep_view(),
            text@ == "["@ + items_text_of(all.take(i as int), pretty),
        decreases items.len() - i,
    {
        if pretty {
            text.append("\n        ");
            text.append(quote(&items[i]).as_str());
            text.append(",");
        } else {
            if i > 0 {
                text.append(", ");
            }
            text.append(quote(&items[i]).as_str());
        }
        proof {
            assert(all.take(i + 1).drop_last() == all.take(i as int));
            assert(text@ == "["@ + items_text_of(all.take(i + 1), pretty));
        }
        i = i + 1;
    }
    assert(all.take(i as int) == all);
    if pretty && items.len() > 0 {
        text.append("\n    ]");
    } else {
        text.append("]");
    }
    text
}

/// The debug form of a struct-like value: without fields, the bare name.
pub fn struct_text(name: &str, fields: &Vec<(&str, String)>, pretty: bool) -> (r: String)
    ensures
        r@ == struct_text_of(name@, field_views(fields@), pretty),
{
    let ghost all = field_views(fields@);
    let mut text = name.to_owned();
    if fields.len() == 0 {
        return text;
    }
    if pretty {
        text.append(" {\n");
    } else {
        text.append(" { ");
    }
    let ghost head = text@;
    let mut i: usize = 0;
    while i < fields.len()
        invariant
            i <= fields.len(),
            all == field_views(fields@),
            text@ == head + fields_text_of(all.take(i as int), pretty),
        decreases fields.len() - i,
    {
        if pretty {
            text.append("    ");
        } else if i > 0 {
            text.append(", ");
        }
        text.append(fields[i].0);
        text.append(": ");
        text.append(fields[i].1.as_str());
        if pretty {
            text.append(",\n");
        }
        proof {
            assert(all.take(i + 1).drop_last() == all.take(i as int));
            assert(text@ == head + fields_text_of(all.take(i + 1), pretty));
        }
        i = i + 1;
    }
    assert(all.take(i as int) == all);
    if pretty {
        text.append("}");
    } else {
        text.append(" }");
    }
    text
}

/// A struct-like value is printed as its name; with a field, the field follows in braces, and each
/// further field comes behind the ones before, with its name and its value as they are.
pub proof fn each_field_is_printed_behind_the_others(
    name: Seq<char>,
    fields: Seq<(Seq<char>, Seq<char>)>,
    label: Seq<char>,
    value: Seq<char>,
)
    ensures
        ({
            let none = Seq::<(Seq<char>, Seq<char>)>::empty();
            let one = seq![(label, value)];
            let more = fields.push((label, value));
            let flat = struct_text_of(name, fields, false);
            let tall = struct_text_of(name, fields, true);
            &&& struct_text_of(name, none, false) == name
            &&& struct_text_of(name, none, true) == name
            &&& struct_text_of(name, one, false) == name + " { "@ + label + ": "@ + value + " }"@
            &&& struct_text_of(name, one, true) == name + " {\n    "@ + label + ": "@ + value
                + ",\n}"@
            &&& fields.len() > 0 ==> {
                &&& struct_text_of(name, more, false) == flat.take(flat.len() - 2) + ", "@ + label
                    + ": "@ + value + " }"@
                &&& struct_text_of(name, more, true) == tall.take(tall.len() - 1) + "    "@
                    + label + ": "@ + value + ",\n}"@
            }
        }),
{
    reveal_strlit(" {\n    ");
    reveal_strlit(" {\n");
    reveal_strlit("    ");
    reveal_strlit(",\n}");
    reveal_strlit(",\n");
    reveal_strlit("}");
    reveal_strlit(" }");
    reveal_with_fuel(fields_text_of, 2);
    let one = seq![(label, value)];
    let more = fields.push((label, value));
    let flat = struct_text_of(name, fields, false);
    let tall = struct_text_of(name, fields, true);
    assert(one.drop_last() == Seq::<(Seq<char>, Seq<char>)>::empty());
    assert(more.drop_last() == fields);
    assert(struct_text_of(name, one, false) == name + " { "@ + label + ": "@ + value + " }"@);
    assert(struct_text_of(name, one, true) == name + " {\n    "@ + label + ": "@ + value
        + ",\n}"@);
    if fields.len() > 0 {
        assert(flat.take(flat.len() - 2) == name + " { "@ + fields_text_of(fields, false));
        assert(tall.take(tall.len() - 1) == name + " {\n"@ + fields_text_of(fields, true));
        assert(struct_text_of(name, more, false) == flat.take(flat.len() - 2) + ", "@ + label
            + ": "@ + value + " }"@);
        assert(struct_text_of(name, more, true) == tall.take(tall.len() - 1) + "    "@ + label
            + ": "@ + value + ",\n}"@);
    }
}

/// A list is printed in brackets, each item quoted, behind the ones before.
pub proof fn each_item_is_printed_behind_the_others(items: Seq<Seq<char>>, item: Seq<char>)
    ensures
        ({
            let none = Seq::<Seq<char>>::empty();
            let one = seq![item];
            let more = items.push(item);
            let flat = list_text_of(items, false);
            let tall = list_text_of(items, true);
            &&& list_text_of(none, false) == "["@ + "]"@
            &&& list_text_of(none, true) == "["@ + "]"@
            &&& list_text_of(one, false) == "["@ + quoted(item) + "]"@
            &&& list_text_of(one, true) == "["@ + "\n        "@ + quoted(item) + ","@ + "\n    ]"@
            &&& items.len() > 0 ==> {
                &&& list_text_of(more, false) == flat.take(flat.len() - 1) + ", "@ + quoted(item)
                    + "]"@
                &&& list_text_of(more, true) == tall.take(tall.len() - 6) + "\n        "@ + quoted(
                    item,
                ) + ","@ + "\n    ]"@
            }
        }),
{
    reveal_strlit("]");
    reveal_strlit("\n    ]");
    reveal_with_fuel(items_text_of, 2);
    let one = seq![item];
    let more = items.push(item);
    let flat = list_text_of(items, false);
    let tall = list_text_of(items, true);
    assert(one.drop_last() == Seq::<Seq<char>>::empty());
    assert(more.drop_last() == items);
    if items.len() > 0 {
        assert(flat.take(flat.len() - 1) == "["@ + items_text_of(items, false));
        assert(tall.take(tall.len() - 6) == "["@ + items_text_of(items, true));
    }
}

/// An optional string is printed as `None`, or quoted within `Some`.
pub proof fn an_option_is_printed_whole(s: Seq<char>)
    ensures
        option_text_of(None, false) == "None"@,
        option_text_of(None, true) == "None"@,
        option_text_of(Some(s), false) == "Some("@ + quoted(s) + ")"@,
        option_text_of(Some(s), true) == "Some(\n        "@ + quoted(s) + ",\n    )"@,
{
}

} // verus!
