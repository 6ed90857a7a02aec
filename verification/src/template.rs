//! The context that templates are rendered with.

use vstd::prelude::*;

verus! {

/// `tera::Context`, the context that the template engine renders with. What
/// it holds is spoken of through `context_entries` only.
#[verifier::external_type_specification]
#[verifier::external_body]
pub struct ExContext(tera::Context);

/// A value as a template reads it.
pub enum TemplateValue {
    Flag(bool),
    Number(int),
    Text(Seq<char>),
}

/// What a rendering context holds: the value of each key that was inserted.
pub uninterp spec fn context_entries(context: tera::Context) -> Map<Seq<char>, TemplateValue>;

/// The entries of a context into which nothing was inserted.
pub open spec fn no_entries() -> Map<Seq<char>, TemplateValue> {
    Map::empty()
}

/// `tera::Context::new`: a context that holds no entry.
#[verifier::external_body]
pub(crate) fn new_context() -> (created: tera::Context)
    ensures
        context_entries(created) == no_entries(),
{
    tera::Context::new()
}

/// `tera::Context::insert` with a text: the key then holds that text as a
/// string, whatever it held before, and the other keys are as they were.
#[verifier::external_body]
pub(crate) fn insert_text(context: &mut tera::Context, key: &str, value: &str)
    ensures
        context_entries(*final(context)) == context_entries(*old(context)).insert(
            key@,
            TemplateValue::Text(value@),
        ),
{
    context.insert(key, value)
}

/// `tera::Context::insert` with a boolean: the key then holds that boolean.
#[verifier::external_body]
pub(crate) fn insert_flag(context: &mut tera::Context, key: &str, value: bool)
    ensures
        context_entries(*final(context)) == context_entries(*old(context)).insert(
            key@,
            TemplateValue::Flag(value),
        ),
{
    context.insert(key, &value)
}

/// `tera::Context::insert` with an unsigned integer: the key then holds that
/// number.
#[verifier::external_body]
pub(crate) fn insert_number(context: &mut tera::Context, key: &str, value: u32)
    ensures
        context_entries(*final(context)) == context_entries(*old(context)).insert(
            key@,
            TemplateValue::Number(value as int),
        ),
{
    context.insert(key, &value)
}

} // verus!
