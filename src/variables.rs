use vstd::prelude::*;

use crate::substitute::{ColorEntry, apply_colors, entries_view, substitute_spec};

verus! {

#[verifier::external_type_specification]
#[verifier::external_body]
pub struct ExTomlValue(toml::Value);

#[verifier::external_type_specification]
#[verifier::external_body]
#[verifier::reject_recursive_types(K)]
#[verifier::reject_recursive_types(V)]
pub struct ExTomlMap<K, V>(toml::map::Map<K, V>);

#[verifier::external_type_specification]
#[verifier::external_body]
pub struct ExTomlError(toml::de::Error);

/// The document that a text parses to as TOML, if it is valid TOML.
pub uninterp spec fn toml_document(s: Seq<char>) -> Option<toml::Value>;

/// The value stored under `key`, if `v` is a table that has that key.
pub uninterp spec fn toml_member(v: toml::Value, key: Seq<char>) -> Option<toml::Value>;

/// The table that `v` is, if it is a table.
pub uninterp spec fn toml_table(v: toml::Value) -> Option<toml::map::Map<String, toml::Value>>;

/// The entries of a table, in the order in which the table hands them out.
pub uninterp spec fn table_contents(t: toml::map::Map<String, toml::Value>) -> Seq<(Seq<char>, toml::Value)>;

/// The string that `v` is, if it is a string.
pub uninterp spec fn toml_string(v: toml::Value) -> Option<Seq<char>>;

/// Relies on `toml::from_str` into `toml::Value`: the outcome depends on the text alone.
#[verifier::external_body]
fn parse_document(text: &str) -> (r: Result<toml::Value, toml::de::Error>)
    ensures
        match r {
            Ok(d) => toml_document(text@) == Some(d),
            Err(_) => toml_document(text@) is None,
        },
{
    toml::from_str(text)
}

/// Relies on `toml::Value::get` with a string key: the member under that key of a table.
#[verifier::external_body]
fn member<'a>(v: &'a toml::Value, key: &str) -> (r: Option<&'a toml::Value>)
    ensures
        match r {
            Some(m) => toml_member(*v, key@) == Some(*m),
            None => toml_member(*v, key@) is None,
        },
{
    v.get(key)
}

/// Relies on `toml::Value::as_table`: the table that the value is, if any.
#[verifier::external_body]
fn as_table<'a>(v: &'a toml::Value) -> (r: Option<&'a toml::map::Map<String, toml::Value>>)
    ensures
        match r {
            Some(t) => toml_table(*v) == Some(*t),
            None => toml_table(*v) is None,
        },
{
    v.as_table()
}

/// Relies on `toml::map::Map::iter`: each key and value of the table, in its order.
#[verifier::external_body]
fn entries<'a>(t: &'a toml::map::Map<String, toml::Value>) -> (r: Vec<(&'a String, &'a toml::Value)>)
    ensures
        r@.len() == table_contents(*t).len(),
        forall|i: int|
            0 <= i < r@.len() ==> r@[i].0@ == table_contents(*t)[i].0 && *r@[i].1
                == table_contents(*t)[i].1,
{
    t.iter().collect()
}

/// Relies on `toml::Value::as_str`: the string that the value is, if any.
#[verifier::external_body]
fn as_str(v: &toml::Value) -> (r: Option<String>)
    ensures
        match r {
            Some(s) => toml_string(*v) == Some(s@),
            None => toml_string(*v) is None,
        },
{
    v.as_str().map(|s| s.to_string())
}

/// Why a variables document could not be used.
#[derive(Debug, Clone, Copy, PartialEq, Eq, Structural)]
pub enum VariablesError {
    /// The text is not a valid TOML document.
    InvalidToml,
}

/// The color entries of a table: each key, with its value where that is a string.
pub open spec fn table_colors(t: toml::map::Map<String, toml::Value>) -> Seq<(Seq<char>, Option<Seq<char>>)> {
    table_contents(t).map_values(|e: (Seq<char>, toml::Value)| (e.0, toml_string(e.1)))
}

/// The color entries of a document: those of its `colors` table, or none
/// where it has no `colors` member or that member is not a table.
pub open spec fn document_colors(doc: toml::Value) -> Seq<(Seq<char>, Option<Seq<char>>)> {
    match toml_member(doc, "colors"@) {
        Some(c) => match toml_table(c) {
            Some(t) => table_colors(t),
            None => seq![],
        },
        None => seq![],
    }
}

/// Whether the document has a `colors` member that is a table.
pub open spec fn has_colors_table(doc: toml::Value) -> bool {
    match toml_member(doc, "colors"@) {
        Some(c) => toml_table(c) is Some,
        None => false,
    }
}

/// The color entries of a table, in the table's order.
pub fn table_entries(t: &toml::map::Map<String, toml::Value>) -> (r: Vec<ColorEntry>)
    ensures
        entries_view(r@) == table_colors(*t),
{
    let es = entries(t);
    let ghost want = table_colors(*t);
    let mut r: Vec<ColorEntry> = Vec::new();
    let mut i: usize = 0;
    while i < es.len()
        invariant
            want == table_colors(*t),
            es@.len() == table_contents(*t).len(),
            forall|k: int|
                0 <= k < es@.len() ==> es@[k].0@ == table_contents(*t)[k].0 && *es@[k].1
                    == table_contents(*t)[k].1,
            i <= es@.len(),
            r@.len() == i,
            entries_view(r@) =~= want.subrange(0, i as int),
        decreases es@.len() - i,
    {
        let value = as_str(es[i].1);
        let key = es[i].0.clone();
        assert(key@ == table_contents(*t)[i as int].0);
        let entry = ColorEntry::new(key, value);
        assert(entry@ == want[i as int]);
        let ghost before = r@;
        r.push(entry);
        i += 1;
        assert forall|k: int| 0 <= k < i implies entries_view(r@)[k] == want.subrange(0, i as int)[k] by {
            if k < i - 1 {
                assert(r@[k] == before[k]);
                assert(entries_view(before)[k] == want.subrange(0, i - 1)[k]);
            }
        }
        assert(entries_view(r@) =~= want.subrange(0, i as int));
    }
    r
}

/// The color entries of a parsed document.
pub fn colors_of(doc: &toml::Value) -> (r: Vec<ColorEntry>)
    ensures
        entries_view(r@) == document_colors(*doc),
        !has_colors_table(*doc) ==> r@.len() == 0,
{
    match member(doc, "colors") {
        Some(c) => match as_table(c) {
            Some(t) => table_entries(t),
            None => Vec::new(),
        },
        None => Vec::new(),
    }
}

/// The color entries of a variables document given as text.
pub fn parse_colors(text: &str) -> (r: Result<Vec<ColorEntry>, VariablesError>)
    ensures
        match r {
            Ok(cs) => toml_document(text@) is Some && entries_view(cs@) == document_colors(
                toml_document(text@)->0,
            ),
            Err(e) => toml_document(text@) is None && e == VariablesError::InvalidToml,
        },
{
    match parse_document(text) {
        Ok(doc) => Ok(colors_of(&doc)),
        Err(_) => Err(VariablesError::InvalidToml),
    }
}

/// The template with the colors of the variables document substituted.
/// Where the document has no `colors` table, the template comes back as it is.
pub fn substitute_text(template: &str, variables: &str) -> (r: Result<String, VariablesError>)
    ensures
        match r {
            Ok(out) => toml_document(variables@) is Some && out@ == substitute_spec(
                template@,
                document_colors(toml_document(variables@)->0),
            ) && (!has_colors_table(toml_document(variables@)->0) ==> out@ == template@),
            Err(e) => toml_document(variables@) is None && e == VariablesError::InvalidToml,
        },
{
    let colors = parse_colors(variables)?;
    Ok(apply_colors(template, &colors))
}

} // verus!
