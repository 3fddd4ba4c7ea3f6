//! What a DynamoDB table is made of, read from JSON documents, and what is
//! said of a table that was created.
use crate::text::{decimal, decimal_i64, said_if, said_of, say_if, text_view, truth, truth_text,
    views};
use crate::time::{date_text_of, http_date_text_of, Timestamp};
use vstd::prelude::*;
use vstd::string::*;

verus! {

/// One member of a JSON object: its name, and its value where the value is
/// a string.
#[derive(Clone, Debug)]
pub struct JsonMember {
    pub name: String,
    pub text: Option<String>,
}

/// What a JSON member holds, as plain values.
pub open spec fn member_view(m: JsonMember) -> (Seq<char>, Option<Seq<char>>) {
    (m.name@, text_view(m.text))
}

/// What a parsed document holds, as plain values.
pub open spec fn members_view(doc: Option<Option<Vec<JsonMember>>>) -> Option<
    Option<Seq<(Seq<char>, Option<Seq<char>>)>>,
> {
    match doc {
        Some(Some(members)) => Some(Some(members@.map_values(|m: JsonMember| member_view(m)))),
        Some(None) => Some(None),
        None => None,
    }
}

/// What `serde_json` reads in a text: nothing where the text is no JSON
/// document; no members where the document is no object; else the members
/// of the object in the order in which `serde_json` walks them, each with
/// its name and, where its value is a string, that string.
pub uninterp spec fn json_members(text: Seq<char>) -> Option<
    Option<Seq<(Seq<char>, Option<Seq<char>>)>>,
>;

/// Parses `text` with `serde_json::from_str` as a `Value` and walks the
/// members of `Value::as_object`, taking each value by `Value::as_str`.
/// Trusted: the result is the one that `json_members` names.
#[verifier::external_body]
fn read_members(text: &str) -> (doc: Option<Option<Vec<JsonMember>>>)
    ensures
        members_view(doc) == json_members(text@),
{
    match serde_json::from_str::<serde_json::Value>(text) {
        Ok(value) => Some(
            value.as_object().map(
                |map|
                    map.iter().map(
                        |(k, v)|
                            JsonMember { name: k.clone(), text: v.as_str().map(|s| s.to_string()) },
                    ).collect(),
            ),
        ),
        Err(_) => None,
    }
}

/// An attribute of a table: its name and the name of its type.
#[derive(Clone, Debug)]
pub struct AttributeDefinition {
    pub attribute_name: String,
    pub attribute_type: String,
}

/// A part of the key of a table: the attribute's name and the name of the
/// part it plays.
#[derive(Clone, Debug)]
pub struct KeySchemaElement {
    pub attribute_name: String,
    pub key_type: String,
}

/// The members whose value is a string, as pairs of name and value, in
/// their order.
pub open spec fn string_members(members: Seq<(Seq<char>, Option<Seq<char>>)>) -> Seq<
    (Seq<char>, Seq<char>),
>
    decreases members.len(),
{
    if members.len() == 0 {
        Seq::empty()
    } else {
        match members.last().1 {
            Some(text) => string_members(members.drop_last()).push((members.last().0, text)),
            None => string_members(members.drop_last()),
        }
    }
}

/// The pairs that a document gives: those of its members whose value is a
/// string; none where the document is no object.
pub open spec fn pairs_of(doc: Option<Seq<(Seq<char>, Option<Seq<char>>)>>) -> Seq<
    (Seq<char>, Seq<char>),
> {
    match doc {
        Some(members) => string_members(members),
        None => Seq::empty(),
    }
}

/// The plain values of a list of attributes.
pub open spec fn attributes_view(list: Seq<AttributeDefinition>) -> Seq<(Seq<char>, Seq<char>)> {
    list.map_values(|a: AttributeDefinition| (a.attribute_name@, a.attribute_type@))
}

/// The plain values of a key schema.
pub open spec fn schema_view(list: Seq<KeySchemaElement>) -> Seq<(Seq<char>, Seq<char>)> {
    list.map_values(|k: KeySchemaElement| (k.attribute_name@, k.key_type@))
}

/// The plain values of the members of a document that may be no object.
pub open spec fn document_view(doc: Option<Vec<JsonMember>>) -> Option<
    Seq<(Seq<char>, Option<Seq<char>>)>,
> {
    match doc {
        Some(members) => Some(members@.map_values(|m: JsonMember| member_view(m))),
        None => None,
    }
}

/// The plain values of a list of pairs.
pub open spec fn pairs_view(list: Seq<(String, String)>) -> Seq<(Seq<char>, Seq<char>)> {
    list.map_values(|p: (String, String)| (p.0@, p.1@))
}

/// The members of a document whose value is a string, as pairs of name and
/// value.
fn string_pairs(doc: &Option<Vec<JsonMember>>) -> (out: Vec<(String, String)>)
    ensures
        pairs_view(out@) == pairs_of(document_view(*doc)),
{
    let mut out: Vec<(String, String)> = Vec::new();
    assert(pairs_view(out@) =~= Seq::<(Seq<char>, Seq<char>)>::empty());
    match doc {
        Some(members) => {
            let ghost all = members@.map_values(|m: JsonMember| member_view(m));
            let mut i: usize = 0;
            assert(all.take(0) =~= Seq::<(Seq<char>, Option<Seq<char>>)>::empty());
            while i < members.len()
                invariant
                    i <= members.len(),
                    all == members@.map_values(|m: JsonMember| member_view(m)),
                    pairs_view(out@) == string_members(all.take(i as int)),
                decreases members.len() - i,
            {
                assert(all.take(i + 1).drop_last() =~= all.take(i as int));
                assert(all.take(i + 1).last() == member_view(members@[i as int]));
                match &members[i].text {
                    Some(text) => {
                        let ghost before = pairs_view(out@);
                        out.push((members[i].name.clone(), text.clone()));
                        assert(pairs_view(out@) =~= before.push(
                            (members@[i as int].name@, text@),
                        ));
                    },
                    None => {},
                }
                i = i + 1;
            }
            assert(all.take(i as int) =~= all);
        },
        None => {},
    }
    out
}

/// The attributes that the members of a document define: one for each
/// member whose value is a string.
pub fn attribute_definitions(doc: &Option<Vec<JsonMember>>) -> (out: Vec<AttributeDefinition>)
    ensures
        attributes_view(out@) == pairs_of(document_view(*doc)),
{
    let pairs = string_pairs(doc);
    let mut out: Vec<AttributeDefinition> = Vec::new();
    let mut i: usize = 0;
    while i < pairs.len()
        invariant
            i <= pairs.len(),
            out@.len() == i,
            forall|k: int|
                0 <= k < i ==> out@[k].attribute_name@ == pairs@[k].0@ && out@[k].attribute_type@
                    == pairs@[k].1@,
        decreases pairs.len() - i,
    {
        out.push(
            AttributeDefinition {
                attribute_name: pairs[i].0.clone(),
                attribute_type: pairs[i].1.clone(),
            },
        );
        i = i + 1;
    }
    assert(attributes_view(out@) =~= pairs_view(pairs@));
    out
}

/// The key schema that the members of a document define: one element for
/// each member whose value is a string.
pub fn key_schema(doc: &Option<Vec<JsonMember>>) -> (out: Vec<KeySchemaElement>)
    ensures
        schema_view(out@) == pairs_of(document_view(*doc)),
{
    let pairs = string_pairs(doc);
    let mut out: Vec<KeySchemaElement> = Vec::new();
    let mut i: usize = 0;
    while i < pairs.len()
        invariant
            i <= pairs.len(),
            out@.len() == i,
            forall|k: int|
                0 <= k < i ==> out@[k].attribute_name@ == pairs@[k].0@ && out@[k].key_type@
                    == pairs@[k].1@,
        decreases pairs.len() - i,
    {
        out.push(
            KeySchemaElement { attribute_name: pairs[i].0.clone(), key_type: pairs[i].1.clone() },
        );
        i = i + 1;
    }
    assert(schema_view(out@) =~= pairs_view(pairs@));
    out
}

/// The attributes that a JSON document defines; nothing where the text is
/// no JSON document.
pub fn parse_attribute_defintion_json(json_text: &str) -> (out: Option<Vec<AttributeDefinition>>)
    ensures
        match out {
            Some(list) => json_members(json_text@) is Some && attributes_view(list@) == pairs_of(
                json_members(json_text@)->0,
            ),
            None => json_members(json_text@) is None,
        },
{
    match read_members(json_text) {
        Some(doc) => Some(attribute_definitions(&doc)),
        None => None,
    }
}

/// The key schema that a JSON document defines; nothing where the text is
/// no JSON document.
pub fn parse_key_schema_defintion_json(json_text: &str) -> (out: Option<Vec<KeySchemaElement>>)
    ensures
        match out {
            Some(list) => json_members(json_text@) is Some && schema_view(list@) == pairs_of(
                json_members(json_text@)->0,
            ),
            None => json_members(json_text@) is None,
        },
{
    match read_members(json_text) {
        Some(doc) => Some(key_schema(&doc)),
        None => None,
    }
}

/// The read capacity and the write capacity of a new table, in units.
pub fn provisioned_throughput() -> (units: (i64, i64))
    ensures
        units == (10i64, 10i64),
{
    (10, 10)
}

/// What DynamoDB tells of a table.
#[derive(Clone, Debug)]
pub struct TableDescription {
    pub creation_date_time: Option<Timestamp>,
    pub table_status: Option<String>,
    pub table_size_bytes: Option<i64>,
    pub table_id: Option<String>,
    pub table_arn: Option<String>,
    pub item_count: Option<i64>,
    pub deletion_protection_enabled: Option<bool>,
}

/// A number that may be missing, written out.
pub open spec fn long_view(n: Option<i64>) -> Option<Seq<char>> {
    match n {
        Some(n) => Some(decimal(n as int)),
        None => None,
    }
}

/// A truth value that may be missing, written out.
pub open spec fn flag_view(b: Option<bool>) -> Option<Seq<char>> {
    match b {
        Some(b) => Some(truth_text(b)),
        None => None,
    }
}

/// What is said of a table that was created, given how its time is
/// written.
pub open spec fn table_said_with(
    table_name: Seq<char>,
    d: TableDescription,
    created: Option<Seq<char>>,
) -> Seq<Seq<char>> {
    said_of("Creation Time Of the Table: "@, created, Seq::empty())
        + said_if("Current Status of '"@ + table_name + "' table: "@, d.table_status, Seq::empty())
        + said_of("Table Size In Bytes: "@, long_view(d.table_size_bytes), Seq::empty()) + said_if(
        "Table Identifier: "@,
        d.table_id,
        Seq::empty(),
    ) + said_if("Amazon Resource Name(ARN) for the Table: "@, d.table_arn, Seq::empty()) + said_of(
        "Number of Items in the Table: "@,
        long_view(d.item_count),
        Seq::empty(),
    ) + said_of(
        "whether deletion protection is enabled: "@,
        flag_view(d.deletion_protection_enabled),
        "\n"@,
    )
}

/// What is said of a table that was created: a line for each thing that is
/// known of it, its time as a date of the HTTP kind.
pub open spec fn table_said(table_name: Seq<char>, d: TableDescription) -> Seq<Seq<char>> {
    table_said_with(table_name, d, date_text_of(d.creation_date_time))
}

fn long_text(n: Option<i64>) -> (out: Option<String>)
    ensures
        text_view(out) == long_view(n),
{
    match n {
        Some(n) => Some(decimal_i64(n)),
        None => None,
    }
}

fn flag_text(b: Option<bool>) -> (out: Option<String>)
    ensures
        text_view(out) == flag_view(b),
{
    match b {
        Some(b) => Some(truth(b)),
        None => None,
    }
}

/// What is said of a table that was created, given how its time is
/// written: a line for each thing that is known of it.
pub fn table_description(table_name: &str, d: &TableDescription, created: &Option<String>) -> (lines:
    Vec<String>)
    ensures
        views(lines@) == table_said_with(table_name@, *d, text_view(*created)),
{
    proof {
        reveal_strlit("");
        assert(""@ =~= Seq::<char>::empty());
    }
    let mut lines: Vec<String> = Vec::new();
    assert(views(lines@) =~= Seq::<Seq<char>>::empty());
    say_if(&mut lines, "Creation Time Of the Table: ", created, "");
    assert(views(lines@) =~= said_of(
        "Creation Time Of the Table: "@,
        text_view(*created),
        Seq::empty(),
    ));
    let mut label = String::from_str("Current Status of '");
    label.append(table_name);
    label.append("' table: ");
    say_if(&mut lines, label.as_str(), &d.table_status, "");
    say_if(&mut lines, "Table Size In Bytes: ", &long_text(d.table_size_bytes), "");
    say_if(&mut lines, "Table Identifier: ", &d.table_id, "");
    say_if(&mut lines, "Amazon Resource Name(ARN) for the Table: ", &d.table_arn, "");
    say_if(&mut lines, "Number of Items in the Table: ", &long_text(d.item_count), "");
    say_if(
        &mut lines,
        "whether deletion protection is enabled: ",
        &flag_text(d.deletion_protection_enabled),
        "\n",
    );
    lines
}

/// What is said of a table that was created; nothing where DynamoDB tells
/// nothing of it.
pub fn create_table(table_name: &str, description: &Option<TableDescription>) -> (lines: Vec<
    String,
>)
    ensures
        views(lines@) == (match *description {
            Some(d) => table_said(table_name@, d),
            None => Seq::empty(),
        }),
{
    match description {
        Some(d) => table_description(table_name, d, &http_date_text_of(d.creation_date_time)),
        None => {
            let lines: Vec<String> = Vec::new();
            assert(views(lines@) =~= Seq::<Seq<char>>::empty());
            lines
        },
    }
}

} // verus!
