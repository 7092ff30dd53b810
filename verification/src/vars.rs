//! Template variables: the objects and values of the template engine.
//!
//! The engine's own types are kept as they are. Verus sees nothing inside
//! them; what an object holds and which value a constructor gives are spoken
//! of through the names declared here, and every function below is believed,
//! not proved.

use vstd::prelude::*;

verus! {

#[verifier::external_type_specification]
#[verifier::external_body]
pub struct ExObject(liquid::Object);

#[verifier::external_type_specification]
#[verifier::external_body]
pub struct ExValue(liquid::model::Value);

/// What an object holds, as a map from each key to its value.
pub type Entries = Map<Seq<char>, liquid::model::Value>;

/// The entries of an object: each key with the value stored under it.
pub uninterp spec fn object_entries(object: liquid::Object) -> Entries;

/// The scalar value that holds a text.
pub uninterp spec fn text_value(text: Seq<char>) -> liquid::model::Value;

/// The array value that holds the given items in their order.
pub uninterp spec fn array_value(items: Seq<liquid::model::Value>) -> liquid::model::Value;

/// The value that an object with the given entries is seen as by a template.
pub uninterp spec fn object_value(entries: Entries) -> liquid::model::Value;

/// The text of a scalar value; `None` of a value that is no scalar.
pub uninterp spec fn scalar_text(value: liquid::model::Value) -> Option<Seq<char>>;

/// `liquid::Object::new`: an object without entries.
#[verifier::external_body]
pub(crate) fn object_new() -> (out: liquid::Object)
    ensures
        object_entries(out) == Entries::empty(),
{
    liquid::Object::new()
}

/// `Clone::clone` of `liquid::Object`: the copy holds the entries of the
/// object it was made from.
pub assume_specification[ <liquid::Object as Clone>::clone ](object: &liquid::Object) -> (out:
    liquid::Object)
    ensures
        object_entries(out) == object_entries(*object),
;

/// `liquid::Object::insert`, with the key made by
/// `kstring::KString::from_ref`: the key holds the value afterwards, every
/// other key what it held before.
#[verifier::external_body]
pub(crate) fn object_insert(object: &mut liquid::Object, key: &str, value: liquid::model::Value)
    ensures
        object_entries(*final(object)) == object_entries(*old(object)).insert(key@, value),
{
    object.insert(kstring::KString::from_ref(key), value);
}

/// `Extend::extend` of `liquid::Object`, which inserts the entries of
/// `other` one by one: a key of `other` holds the value it has there, every
/// other key what it held before.
#[verifier::external_body]
pub(crate) fn object_extend(object: &mut liquid::Object, other: liquid::Object)
    ensures
        object_entries(*final(object)) == object_entries(*old(object)).union_prefer_right(
            object_entries(other),
        ),
{
    object.extend(other);
}

/// `liquid::Object::get`, with the value found copied out.
#[verifier::external_body]
pub(crate) fn object_get(object: &liquid::Object, key: &str) -> (found: Option<liquid::model::Value>)
    ensures
        found == if object_entries(*object).contains_key(key@) {
            Some(object_entries(*object)[key@])
        } else {
            None
        },
{
    object.get(key).cloned()
}

/// `liquid::model::Value::scalar` on a text.
#[verifier::external_body]
pub(crate) fn value_of_text(text: &str) -> (out: liquid::model::Value)
    ensures
        out == text_value(text@),
{
    liquid::model::Value::scalar(text.to_owned())
}

/// The variant `liquid::model::Value::Array` around the given items.
#[verifier::external_body]
pub(crate) fn value_of_array(items: Vec<liquid::model::Value>) -> (out: liquid::model::Value)
    ensures
        out == array_value(items@),
{
    liquid::model::Value::Array(items)
}

/// `liquid::model::to_value` on an object: the value under which a template
/// sees the object. It is a function of the entries alone.
#[verifier::external_body]
pub(crate) fn value_of_object(object: &liquid::Object) -> (out: liquid::model::Value)
    ensures
        out == object_value(object_entries(*object)),
{
    liquid::model::to_value(object).unwrap_or(liquid::model::Value::Nil)
}

/// `Clone::clone` of `liquid::model::Value`: the copy is the value it was
/// made from.
pub assume_specification[ <liquid::model::Value as Clone>::clone ](
    value: &liquid::model::Value,
) -> (out: liquid::model::Value)
    ensures
        out == *value,
;

/// `liquid::model::Value::into_scalar` and then `into_string` of the scalar:
/// the text of a scalar, whatever its kind, and nothing of any other value.
#[verifier::external_body]
pub(crate) fn value_scalar_text(value: &liquid::model::Value) -> (out: Option<String>)
    ensures
        match out {
            Some(text) => scalar_text(*value) == Some(text@),
            None => scalar_text(*value) is None,
        },
{
    value.clone().into_scalar().map(|scalar| scalar.into_string().into_string())
}

} // verus!
