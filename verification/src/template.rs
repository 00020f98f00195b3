//! The template engine, as far as the library relies on it.
//!
//! The engine renders a named template over a context: a table from names to
//! values, each value a text, a number, a list of values or an object with
//! named fields. The library builds the context and names the template.
//! Running the engine is left to whoever runs the save: what the engine makes
//! of a context is the template's business, and a template can make it fail
//! in ways the library cannot foresee.

use vstd::prelude::*;

verus! {

/// The engine with the templates it has loaded.
#[verifier::external_type_specification]
#[verifier::external_body]
pub struct ExEngine(tera::Tera);

/// The table a template is rendered over.
#[verifier::external_type_specification]
#[verifier::external_body]
pub struct ExContext(tera::Context);

/// One value of a context.
#[verifier::external_type_specification]
#[verifier::external_body]
pub struct ExValue(tera::Value);

/// What a value of a context holds.
pub enum Json {
    /// A text.
    Text(Seq<char>),
    /// A whole number.
    Number(int),
    /// A list of values.
    Array(Seq<Json>),
    /// Values under names.
    Object(Map<Seq<char>, Json>),
    /// Anything else a value can be; the library builds none of these.
    Other,
}

/// What a value holds.
pub uninterp spec fn value_json(value: tera::Value) -> Json;

/// What a context holds under each of its names.
pub uninterp spec fn context_json(context: tera::Context) -> Map<Seq<char>, Json>;

/// The table that holds nothing.
pub open spec fn no_fields() -> Map<Seq<char>, Json> {
    Map::empty()
}

/// What each value of a list holds, in order.
pub open spec fn values_json(values: Seq<tera::Value>) -> Seq<Json> {
    values.map_values(|value: tera::Value| value_json(value))
}

/// The object that a list of named values makes up.
pub open spec fn fields_json(fields: Seq<(String, tera::Value)>) -> Map<Seq<char>, Json>
    decreases fields.len(),
{
    if fields.len() == 0 {
        no_fields()
    } else {
        fields_json(fields.drop_last()).insert(fields.last().0@, value_json(fields.last().1))
    }
}

/// Whether no name occurs twice in a list of named values.
pub open spec fn distinct_names(fields: Seq<(String, tera::Value)>) -> bool {
    forall|i: int, j: int| 0 <= i < j < fields.len() ==> fields[i].0@ != fields[j].0@
}

/// A text value, by `From<&str>` of `tera::Value`: the value is a JSON string
/// with the characters of `text`.
#[verifier::external_body]
pub(crate) fn text_value(text: &str) -> (value: tera::Value)
    ensures
        value_json(value) == Json::Text(text@),
{
    tera::Value::from(text)
}

/// A number value, by `From<u8>` of `tera::Value`: the value is the JSON
/// number `n`.
#[verifier::external_body]
pub(crate) fn number_value(n: u8) -> (value: tera::Value)
    ensures
        value_json(value) == Json::Number(n as int),
{
    tera::Value::from(n)
}

/// A list value, by the variant `tera::Value::Array`: the value is a JSON
/// array of the given values in their order.
#[verifier::external_body]
pub(crate) fn array_value(items: Vec<tera::Value>) -> (value: tera::Value)
    ensures
        value_json(value) == Json::Array(values_json(items@)),
{
    tera::Value::Array(items)
}

/// An object value, by `FromIterator<(K, V)>` of `tera::Value`: the value is a
/// JSON object with one field for each pair. Names must not repeat.
#[verifier::external_body]
pub(crate) fn object_value(fields: Vec<(String, tera::Value)>) -> (value: tera::Value)
    requires
        distinct_names(fields@),
    ensures
        value_json(value) == Json::Object(fields_json(fields@)),
{
    fields.into_iter().collect()
}

/// An empty context, by `tera::Context::new`.
#[verifier::external_body]
pub(crate) fn new_context() -> (context: tera::Context)
    ensures
        context_json(context) == no_fields(),
{
    tera::Context::new()
}

/// Puts a value into a context, by `tera::Context::insert`: afterwards the
/// context holds the value under `name`, in place of what it held there, and
/// everything else as before.
#[verifier::external_body]
pub(crate) fn context_insert(context: &mut tera::Context, name: &str, value: &tera::Value)
    ensures
        context_json(*final(context)) == context_json(*old(context)).insert(
            name@,
            value_json(*value),
        ),
{
    context.insert(name, value)
}

} // verus!
