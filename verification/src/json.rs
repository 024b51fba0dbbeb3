//! JSON documents as plain values, and the field-path extractor that projects
//! a configured value out of an upstream response.

use vstd::prelude::*;

verus! {

/// The mathematical value of a JSON document. A number is kept as its literal
/// text: only its text and, for expiry fields, its integer reading matter here.
pub enum JsonModel {
    Null,
    Bool(bool),
    Num(Seq<char>),
    Str(Seq<char>),
    Array(Seq<JsonModel>),
    Object(Seq<(Seq<char>, JsonModel)>),
}

/// A JSON document as a plain executable value, mirroring `JsonModel`.
#[derive(Debug, PartialEq)]
pub enum JsonValue {
    Null,
    Bool(bool),
    Num(String),
    Str(String),
    Array(Vec<JsonValue>),
    Object(Vec<(String, JsonValue)>),
}

/// The document a `JsonValue` stands for.
pub open spec fn to_model(v: JsonValue) -> JsonModel
    decreases v,
{
    match v {
        JsonValue::Null => JsonModel::Null,
        JsonValue::Bool(b) => JsonModel::Bool(b),
        JsonValue::Num(s) => JsonModel::Num(s@),
        JsonValue::Str(s) => JsonModel::Str(s@),
        JsonValue::Array(items) => {
            proof {
                assert(decreases_to!(items => items@));
            }
            JsonModel::Array(items_model(items@))
        },
        JsonValue::Object(fields) => {
            proof {
                assert(decreases_to!(fields => fields@));
            }
            JsonModel::Object(fields_model(fields@))
        },
    }
}

/// The elements of an array as their models.
pub open spec fn items_model(items: Seq<JsonValue>) -> Seq<JsonModel>
    decreases items,
{
    if items.len() == 0 {
        Seq::empty()
    } else {
        seq![to_model(items[0])] + items_model(items.drop_first())
    }
}

/// Law-sized helper: `items_model` maps element by element.
pub proof fn lemma_items_model_index(items: Seq<JsonValue>)
    ensures
        items_model(items).len() == items.len(),
        forall|i: int|
            0 <= i < items.len() ==> items_model(items)[i] == to_model(#[trigger] items[i]),
    decreases items.len(),
{
    if items.len() > 0 {
        lemma_items_model_index(items.drop_first());
        assert forall|i: int| 0 <= i < items.len() implies items_model(items)[i] == to_model(
            #[trigger] items[i],
        ) by {
            if i > 0 {
                assert(items.drop_first()[i - 1] == items[i]);
            }
        }
    }
}

impl View for JsonValue {
    type V = JsonModel;

    open spec fn view(&self) -> JsonModel {
        to_model(*self)
    }
}

/// The value under the first field of that name, if the sequence has one.
pub open spec fn lookup_field(fields: Seq<(Seq<char>, JsonModel)>, name: Seq<char>) -> Option<
    JsonModel,
>
    decreases fields.len(),
{
    if fields.len() == 0 {
        None
    } else if fields[0].0 == name {
        Some(fields[0].1)
    } else {
        lookup_field(fields.drop_first(), name)
    }
}

/// Indexing one step into a document by field name: only an object with that
/// key yields a value; anything else yields nothing.
pub open spec fn index_spec(doc: JsonModel, name: Seq<char>) -> Option<JsonModel> {
    match doc {
        JsonModel::Object(fields) => lookup_field(fields, name),
        _ => None,
    }
}

/// Walking a document by a sequence of field names. An empty path yields the
/// root. A missing field or an explicit null at any step yields nothing, at
/// once; the two are not told apart.
pub open spec fn extract_spec(doc: JsonModel, path: Seq<Seq<char>>) -> Option<JsonModel>
    decreases path.len(),
{
    if path.len() == 0 {
        Some(doc)
    } else {
        match index_spec(doc, path[0]) {
            Some(child) => if child is Null {
                None
            } else {
                extract_spec(child, path.drop_first())
            },
            None => None,
        }
    }
}

/// The view of an extraction path given as string slices.
pub open spec fn path_view(path: Seq<&str>) -> Seq<Seq<char>> {
    path.map_values(|s: &str| s@)
}

/// Law: extraction is a function of the document and the path alone, so two
/// calls of `retrieve_json_value` on the same immutable document with the same
/// path return equal results.
pub proof fn lemma_extract_deterministic(
    doc1: JsonModel,
    doc2: JsonModel,
    path1: Seq<Seq<char>>,
    path2: Seq<Seq<char>>,
)
    requires
        doc1 == doc2,
        path1 == path2,
    ensures
        extract_spec(doc1, path1) == extract_spec(doc2, path2),
{
}

/// Law: extraction with an empty path returns the root document, whatever it is.
pub proof fn lemma_extract_empty_path(doc: JsonModel)
    ensures
        extract_spec(doc, Seq::empty()) == Some(doc),
{
}

/// Character-by-character string comparison, so that field names can be
/// compared under a contract about their views.
pub fn str_eq(a: &str, b: &str) -> (r: bool)
    ensures
        r == (a@ == b@),
{
    let na = a.unicode_len();
    let nb = b.unicode_len();
    if na != nb {
        return false;
    }
    let mut i: usize = 0;
    while i < na
        invariant
            0 <= i <= na,
            na == a@.len() && nb == b@.len() && na == nb,
            forall|j: int| 0 <= j < i ==> a@[j] == b@[j],
        decreases na - i,
    {
        if a.get_char(i) != b.get_char(i) {
            return false;
        }
        i += 1;
    }
    proof {
        assert(a@ =~= b@);
    }
    true
}

/// The value under the first field of that name in an object's field list.
fn find_field<'a>(fields: &'a Vec<(String, JsonValue)>, name: &str) -> (r: Option<&'a JsonValue>)
    ensures
        match r {
            Some(v) => lookup_field(fields_model(fields@), name@) == Some(v@),
            None => lookup_field(fields_model(fields@), name@) is None,
        },
{
    let n = fields.len();
    let mut i: usize = 0;
    proof {
        lemma_fields_model_index(fields@);
        assert(fields_model(fields@).skip(0) =~= fields_model(fields@));
    }
    while i < n
        invariant
            0 <= i <= n,
            n == fields@.len(),
            fields_model(fields@).len() == fields@.len(),
            forall|j: int|
                0 <= j < fields@.len() ==> fields_model(fields@)[j] == ((
                #[trigger] fields@[j]).0@, to_model(fields@[j].1)),
            lookup_field(fields_model(fields@), name@) == lookup_field(
                fields_model(fields@).skip(i as int),
                name@,
            ),
        decreases n - i,
    {
        proof {
            assert(fields_model(fields@).skip(i as int)[0] == fields_model(fields@)[i as int]);
        }
        if str_eq(fields[i].0.as_str(), name) {
            return Some(&fields[i].1);
        }
        proof {
            assert(fields_model(fields@).skip(i as int).drop_first() =~= fields_model(
                fields@,
            ).skip(i as int + 1));
        }
        i += 1;
    }
    proof {
        assert(fields_model(fields@).skip(n as int) =~= Seq::<(Seq<char>, JsonModel)>::empty());
    }
    None
}

/// The field list of an object as its model.
pub open spec fn fields_model(fields: Seq<(String, JsonValue)>) -> Seq<(Seq<char>, JsonModel)>
    decreases fields,
{
    if fields.len() == 0 {
        Seq::empty()
    } else {
        seq![(fields[0].0@, to_model(fields[0].1))] + fields_model(fields.drop_first())
    }
}

/// Law-sized helper: `fields_model` maps field by field.
pub proof fn lemma_fields_model_index(fields: Seq<(String, JsonValue)>)
    ensures
        fields_model(fields).len() == fields.len(),
        forall|i: int|
            0 <= i < fields.len() ==> fields_model(fields)[i] == ((#[trigger] fields[i]).0@,
            to_model(fields[i].1)),
    decreases fields.len(),
{
    if fields.len() > 0 {
        lemma_fields_model_index(fields.drop_first());
        assert forall|i: int| 0 <= i < fields.len() implies fields_model(fields)[i] == ((
        #[trigger] fields[i]).0@, to_model(fields[i].1)) by {
            if i > 0 {
                assert(fields.drop_first()[i - 1] == fields[i]);
            }
        }
    }
}

/// Indexes one step into a document by field name.
pub fn index_field<'a>(doc: &'a JsonValue, name: &str) -> (r: Option<&'a JsonValue>)
    ensures
        match r {
            Some(v) => index_spec(doc@, name@) == Some(v@),
            None => index_spec(doc@, name@) is None,
        },
{
    match doc {
        JsonValue::Object(fields) => {
            proof {
                assert(doc@ == JsonModel::Object(fields_model(fields@)));
            }
            find_field(fields, name)
        },
        _ => None,
    }
}

/// Retrieves the value under the given field path from the given document.
/// Returns nothing when the path meets a missing field or a null; an empty
/// path yields the document itself.
pub fn retrieve_json_value<'a>(input: &'a JsonValue, value_tree: &[&str]) -> (r: Option<
    &'a JsonValue,
>)
    ensures
        match r {
            Some(v) => extract_spec(input@, path_view(value_tree@)) == Some(v@),
            None => extract_spec(input@, path_view(value_tree@)) is None,
        },
{
    let mut current_root: &JsonValue = input;
    let n = value_tree.len();
    let mut i: usize = 0;
    proof {
        assert(value_tree@.skip(0) =~= value_tree@);
    }
    while i < n
        invariant
            0 <= i <= n,
            n == value_tree@.len(),
            extract_spec(input@, path_view(value_tree@)) == extract_spec(
                current_root@,
                path_view(value_tree@.skip(i as int)),
            ),
        decreases n - i,
    {
        let name: &str = value_tree[i];
        proof {
            assert(path_view(value_tree@.skip(i as int))[0] == name@);
            assert(path_view(value_tree@.skip(i as int)).drop_first() =~= path_view(
                value_tree@.skip(i as int + 1),
            ));
        }
        let child: Option<&JsonValue> = match current_root {
            JsonValue::Object(fields) => {
                proof {
                    assert(current_root@ == JsonModel::Object(fields_model(fields@)));
                }
                find_field(fields, name)
            },
            _ => {
                proof {
                    assert(index_spec(current_root@, name@) is None);
                }
                None
            },
        };
        match child {
            Some(c) => {
                match c {
                    JsonValue::Null => {
                        return None;
                    },
                    _ => {
                        proof {
                            assert(!(c@ is Null));
                        }
                        current_root = c;
                    },
                }
            },
            None => {
                return None;
            },
        }
        i += 1;
    }
    proof {
        assert(path_view(value_tree@.skip(n as int)) =~= Seq::<Seq<char>>::empty());
    }
    Some(current_root)
}

/// One character of a JSON string body in compact rendering: quote and
/// backslash get a backslash escape, everything else stands as itself.
pub open spec fn escape_char(c: char) -> Seq<char> {
    if c == '"' {
        seq!['\\', '"']
    } else if c == '\\' {
        seq!['\\', '\\']
    } else {
        seq![c]
    }
}

/// A JSON string body in compact rendering.
pub open spec fn escape_string(s: Seq<char>) -> Seq<char>
    decreases s.len(),
{
    if s.len() == 0 {
        Seq::empty()
    } else {
        escape_char(s[0]) + escape_string(s.drop_first())
    }
}

/// The compact JSON text of a document: scalars as their literal text, a
/// string quoted with its body escaped, arrays and objects with no spacing.
pub open spec fn render_model(m: JsonModel) -> Seq<char>
    decreases m,
{
    match m {
        JsonModel::Null => "null"@,
        JsonModel::Bool(b) => if b {
            "true"@
        } else {
            "false"@
        },
        JsonModel::Num(t) => t,
        JsonModel::Str(s) => seq!['"'] + escape_string(s) + seq!['"'],
        JsonModel::Array(items) => seq!['['] + render_list(items) + seq![']'],
        JsonModel::Object(fields) => seq!['{'] + render_entries(fields) + seq!['}'],
    }
}

/// The comma-separated compact rendering of an array's elements.
pub open spec fn render_list(items: Seq<JsonModel>) -> Seq<char>
    decreases items,
{
    if items.len() == 0 {
        Seq::empty()
    } else if items.len() == 1 {
        render_model(items[0])
    } else {
        render_model(items[0]) + seq![','] + render_list(items.drop_first())
    }
}

/// The comma-separated compact rendering of an object's fields.
pub open spec fn render_entries(fields: Seq<(Seq<char>, JsonModel)>) -> Seq<char>
    decreases fields,
{
    if fields.len() == 0 {
        Seq::empty()
    } else {
        let entry = seq!['"'] + escape_string(fields[0].0) + seq!['"', ':'] + render_model(
            fields[0].1,
        );
        if fields.len() == 1 {
            entry
        } else {
            entry + seq![','] + render_entries(fields.drop_first())
        }
    }
}

fn escape_str(s: &str) -> (r: String)
    ensures
        r@ == escape_string(s@),
    decreases s@.len(),
{
    let n = s.unicode_len();
    if n == 0 {
        return String::new();
    }
    let c = s.get_char(0);
    let mut out = String::new();
    if c == '"' {
        out.push('\\');
        out.push('"');
    } else if c == '\\' {
        out.push('\\');
        out.push('\\');
    } else {
        out.push(c);
    }
    proof {
        assert(out@ =~= escape_char(s@[0]));
    }
    let tail = s.substring_char(1, n);
    assert(tail@ == s@.drop_first());
    let rest = escape_str(tail);
    out.append(rest.as_str());
    out
}

/// Renders a document as compact JSON text.
pub fn render_json(v: &JsonValue) -> (r: String)
    ensures
        r@ == render_model(v@),
    decreases v, 0int,
{
    match v {
        JsonValue::Null => String::from_str("null"),
        JsonValue::Bool(b) => {
            if *b {
                String::from_str("true")
            } else {
                String::from_str("false")
            }
        },
        JsonValue::Num(t) => t.clone(),
        JsonValue::Str(s) => {
            let mut out = String::new();
            out.push('"');
            let body = escape_str(s.as_str());
            out.append(body.as_str());
            out.push('"');
            proof {
                assert(out@ =~= seq!['"'] + escape_string(s@) + seq!['"']);
            }
            out
        },
        JsonValue::Array(items) => {
            let mut out = String::new();
            out.push('[');
            let body = render_list_from(items, 0);
            out.append(body.as_str());
            out.push(']');
            proof {
                assert(items_model(items@).skip(0) =~= items_model(items@));
                assert(out@ =~= seq!['['] + render_list(items_model(items@)) + seq![']']);
            }
            out
        },
        JsonValue::Object(fields) => {
            let mut out = String::new();
            out.push('{');
            let body = render_entries_from(fields, 0);
            out.append(body.as_str());
            out.push('}');
            proof {
                assert(fields_model(fields@).skip(0) =~= fields_model(fields@));
                assert(out@ =~= seq!['{'] + render_entries(fields_model(fields@)) + seq!['}']);
            }
            out
        },
    }
}

fn render_list_from(items: &Vec<JsonValue>, start: usize) -> (r: String)
    requires
        start <= items@.len(),
    ensures
        r@ == render_list(items_model(items@).skip(start as int)),
    decreases items, items@.len() - start,
{
    proof {
        lemma_items_model_index(items@);
    }
    let n = items.len();
    if start == n {
        proof {
            assert(items_model(items@).skip(start as int) =~= Seq::<JsonModel>::empty());
        }
        return String::new();
    }
    proof {
        assert(items_model(items@).skip(start as int)[0] == items_model(items@)[start as int]);
        assert(decreases_to!(items => items@));
        assert(decreases_to!(items@ => items@[start as int]));
    }
    let mut out = render_json(&items[start]);
    if start + 1 == n {
        proof {
            assert(items_model(items@).skip(start as int).len() == 1);
        }
        return out;
    }
    out.push(',');
    let rest = render_list_from(items, start + 1);
    out.append(rest.as_str());
    proof {
        assert(items_model(items@).skip(start as int).drop_first() =~= items_model(
            items@,
        ).skip(start as int + 1));
        assert(out@ =~= render_list(items_model(items@).skip(start as int)));
    }
    out
}

fn render_entries_from(fields: &Vec<(String, JsonValue)>, start: usize) -> (r: String)
    requires
        start <= fields@.len(),
    ensures
        r@ == render_entries(fields_model(fields@).skip(start as int)),
    decreases fields, fields@.len() - start,
{
    proof {
        lemma_fields_model_index(fields@);
    }
    let n = fields.len();
    if start == n {
        proof {
            assert(fields_model(fields@).skip(start as int) =~= Seq::<
                (Seq<char>, JsonModel),
            >::empty());
        }
        return String::new();
    }
    proof {
        assert(fields_model(fields@).skip(start as int)[0] == fields_model(fields@)[start as int]);
        assert(decreases_to!(fields => fields@));
        assert(decreases_to!(fields@ => fields@[start as int]));
        assert(decreases_to!(fields@[start as int] => fields@[start as int].1));
    }
    let mut out = String::new();
    out.push('"');
    let key = escape_str(fields[start].0.as_str());
    out.append(key.as_str());
    out.push('"');
    out.push(':');
    let val = render_json(&fields[start].1);
    out.append(val.as_str());
    proof {
        assert(out@ =~= seq!['"'] + escape_string(fields@[start as int].0@) + seq!['"', ':']
            + render_model(to_model(fields@[start as int].1)));
    }
    if start + 1 == n {
        proof {
            assert(fields_model(fields@).skip(start as int).len() == 1);
        }
        return out;
    }
    out.push(',');
    let rest = render_entries_from(fields, start + 1);
    out.append(rest.as_str());
    proof {
        assert(fields_model(fields@).skip(start as int).drop_first() =~= fields_model(
            fields@,
        ).skip(start as int + 1));
        assert(out@ =~= render_entries(fields_model(fields@).skip(start as int)));
    }
    out
}

#[verifier::external_type_specification]
#[verifier::external_body]
pub struct ExSerdeValue(serde_json::Value);

/// The document that parsing a text as JSON yields, if the text is one JSON
/// document; the result is a function of the text alone.
pub uninterp spec fn json_doc_of(s: Seq<char>) -> Option<JsonModel>;

/// Relies on serde_json::Value: moves each variant of the parsed document into
/// the library's own document type, field by field; a number is kept as the
/// literal text serde_json prints for it.
#[verifier::external_body]
fn value_to_json(v: &serde_json::Value) -> JsonValue {
    match v {
        serde_json::Value::Null => JsonValue::Null,
        serde_json::Value::Bool(b) => JsonValue::Bool(*b),
        serde_json::Value::Number(n) => JsonValue::Num(n.to_string()),
        serde_json::Value::String(s) => JsonValue::Str(s.clone()),
        serde_json::Value::Array(items) => JsonValue::Array(
            items.iter().map(value_to_json).collect(),
        ),
        serde_json::Value::Object(fields) => JsonValue::Object(
            fields.iter().map(|(k, x)| (k.clone(), value_to_json(x))).collect(),
        ),
    }
}

/// Relies on serde_json::from_str: parses the text as one JSON document and
/// yields it as a plain value, or nothing when the text is not valid JSON.
/// `json_doc_of` names the parsed document.
#[verifier::external_body]
pub fn parse_json(body: &str) -> (r: Option<JsonValue>)
    ensures
        match r {
            Some(v) => json_doc_of(body@) == Some(v@),
            None => json_doc_of(body@) is None,
        },
{
    match serde_json::from_str::<serde_json::Value>(body) {
        Ok(v) => Some(value_to_json(&v)),
        Err(_) => None,
    }
}

/// The plain-text form of an extracted node: a string as its content, every
/// other scalar as its literal text, arrays and objects as compact JSON text.
pub open spec fn scalar_text(m: JsonModel) -> Seq<char> {
    match m {
        JsonModel::Str(s) => s,
        _ => render_model(m),
    }
}

/// Renders a node as plain text: a string yields its content, everything else
/// its compact JSON text.
pub fn scalar_to_text(v: &JsonValue) -> (r: String)
    ensures
        r@ == scalar_text(v@),
{
    match v {
        JsonValue::Str(s) => s.clone(),
        _ => render_json(v),
    }
}

} // verus!
