//! Field resolution over an already-materialized tree of plain JSON data.
//!
//! The data-dict execution path hands the engine a tree that is already in
//! its final serialized shape. Resolving a field means looking the field
//! name up in the current object's entries and classifying what was found:
//! a scalar or null becomes the matching leaf, an array is passed through
//! whole as an opaque leaf, and a nested object becomes a child adapter
//! whose type name is taken from its `__typename` entry when that entry is
//! a string, and from the schema's field type otherwise.

use vstd::prelude::*;

verus! {

/// Declares `serde_json::Number`, the number payload of a parsed JSON
/// document. The resolution logic carries it through opaquely.
#[verifier::external_type_specification]
#[verifier::external_body]
pub struct ExJsonNumber(serde_json::Number);

/// Declares `serde_json::Value`, a parsed JSON tree. The resolution logic
/// carries whole arrays through opaquely as such values.
#[verifier::external_type_specification]
#[verifier::external_body]
pub struct ExJsonValue(serde_json::Value);

/// A node of the materialized data tree, as far as the resolution logic
/// reads it: scalars and nulls are leaves, an array is kept whole, and an
/// object is the list of its entries in document order.
pub enum JsonData {
    /// JSON `null`.
    Null,
    /// A JSON boolean.
    Bool(bool),
    /// A JSON number, carried through opaquely.
    Number(serde_json::Number),
    /// A JSON string.
    Str(String),
    /// A whole JSON array, carried through opaquely: the data-dict path does
    /// not descend into arrays.
    Array(serde_json::Value),
    /// A JSON object: its entries, keyed verbatim, in the order the source
    /// map yields them. A tree from parsed JSON has unique keys, so field
    /// lookup does not depend on that order; on equal keys the first entry
    /// wins.
    Object(Vec<(String, JsonData)>),
}

/// What resolving one field of a data object produces. Found values are
/// borrowed from the data tree; only the chosen type name is freshly built.
pub enum DataOutcome<'a> {
    /// The field name is absent from the object: the one field error.
    UnknownField,
    /// The engine's null value.
    NullLeaf,
    /// A boolean leaf.
    BoolLeaf(bool),
    /// A number leaf.
    NumberLeaf(&'a serde_json::Number),
    /// A string leaf.
    StrLeaf(&'a String),
    /// An array passed through whole as an opaque leaf.
    ArrayLeaf(&'a serde_json::Value),
    /// A nested object: the child data tree and the type name chosen for it.
    Object { ty_name: String, child: &'a JsonData },
}

/// The value of the first entry of `entries` whose key is `name`, if any.
pub open spec fn lookup_entry(entries: Seq<(String, JsonData)>, name: Seq<char>) -> Option<
    JsonData,
>
    decreases entries.len(),
{
    if entries.len() == 0 {
        Option::None
    } else if entries[0].0@ == name {
        Option::Some(entries[0].1)
    } else {
        lookup_entry(entries.drop_first(), name)
    }
}

/// The type name chosen for a nested data object: the string value of its
/// `__typename` entry when it has one, otherwise the inner named type of
/// the field being resolved, as the schema declares it.
pub open spec fn object_ty_name(entries: Seq<(String, JsonData)>, inferred: Seq<char>) -> Seq<
    char,
> {
    match lookup_entry(entries, "__typename"@) {
        Option::Some(JsonData::Str(t)) => t@,
        _ => inferred,
    }
}

/// Whether `r` is the outcome of classifying the found field value `child`,
/// with `inferred` the schema-inferred type name for nested objects.
pub open spec fn outcome_for(child: JsonData, inferred: Seq<char>, r: DataOutcome<'_>) -> bool {
    match child {
        JsonData::Null => r == DataOutcome::NullLeaf,
        JsonData::Bool(b) => r == DataOutcome::BoolLeaf(b),
        JsonData::Number(n) => r matches DataOutcome::NumberLeaf(m) && *m == n,
        JsonData::Str(s) => r matches DataOutcome::StrLeaf(t) && *t == s,
        JsonData::Array(a) => r matches DataOutcome::ArrayLeaf(b) && *b == a,
        JsonData::Object(ce) => r matches DataOutcome::Object { ty_name, child: c } && *c == child
            && ty_name@ == object_ty_name(ce@, inferred),
    }
}

/// Resolves one field of the data tree `data`.
///
/// When `data` is not an object, or its entries hold no key equal to
/// `field`, the outcome is [`DataOutcome::UnknownField`]; otherwise the
/// first entry with that key decides the outcome as [`outcome_for`] states.
#[verifier::loop_isolation(false)]
pub fn resolve_data_field<'a>(data: &'a JsonData, field: &str, inferred: &str) -> (r: DataOutcome<
    'a,
>)
    ensures
        !(*data matches JsonData::Object(_)) ==> r == DataOutcome::UnknownField,
        *data matches JsonData::Object(entries) ==> match lookup_entry(entries@, field@) {
            Option::None => r == DataOutcome::UnknownField,
            Option::Some(child) => outcome_for(child, inferred@, r),
        },
{
    match data {
        JsonData::Object(entries) => {
            let field_key: String = field.to_owned();
            let n = entries.len();
            let mut i: usize = 0;
            proof {
                assert(entries@.skip(0) =~= entries@);
            }
            while i < n
                invariant
                    n == entries@.len(),
                    i <= n,
                    field_key@ == field@,
                    lookup_entry(entries@, field@) == lookup_entry(
                        entries@.skip(i as int),
                        field@,
                    ),
                decreases n - i,
            {
                let pair = &entries[i];
                proof {
                    assert(entries@.skip(i as int)[0] == entries@[i as int]);
                }
                if pair.0 == field_key {
                    proof {
                        assert(lookup_entry(entries@.skip(i as int), field@)
                            == Option::Some(entries@[i as int].1));
                    }
                    return classify_found(&pair.1, inferred);
                }
                proof {
                    assert(entries@.skip(i as int).drop_first() =~= entries@.skip(i + 1));
                }
                i += 1;
            }
            DataOutcome::UnknownField
        },
        _ => DataOutcome::UnknownField,
    }
}

/// Classifies the value found for a field, as [`outcome_for`] states.
fn classify_found<'a>(value: &'a JsonData, inferred: &str) -> (r: DataOutcome<'a>)
    ensures
        outcome_for(*value, inferred@, r),
{
    match value {
        JsonData::Null => DataOutcome::NullLeaf,
        JsonData::Bool(b) => DataOutcome::BoolLeaf(*b),
        JsonData::Number(n) => DataOutcome::NumberLeaf(n),
        JsonData::Str(s) => DataOutcome::StrLeaf(s),
        JsonData::Array(a) => DataOutcome::ArrayLeaf(a),
        JsonData::Object(ce) => {
            let ty_name = object_ty_lookup(ce, inferred);
            DataOutcome::Object { ty_name, child: value }
        },
    }
}

/// Reads the type name of a data object from its entries, as
/// [`object_ty_name`] states.
#[verifier::loop_isolation(false)]
fn object_ty_lookup(entries: &Vec<(String, JsonData)>, inferred: &str) -> (r: String)
    ensures
        r@ == object_ty_name(entries@, inferred@),
{
    let marker: String = "__typename".to_owned();
    let n = entries.len();
    let mut i: usize = 0;
    proof {
        assert(entries@.skip(0) =~= entries@);
    }
    while i < n
        invariant
            n == entries@.len(),
            i <= n,
            marker@ == "__typename"@,
            lookup_entry(entries@, "__typename"@) == lookup_entry(
                entries@.skip(i as int),
                "__typename"@,
            ),
        decreases n - i,
    {
        let pair = &entries[i];
        proof {
            assert(entries@.skip(i as int)[0] == entries@[i as int]);
        }
        if pair.0 == marker {
            proof {
                assert(lookup_entry(entries@.skip(i as int), "__typename"@)
                    == Option::Some(entries@[i as int].1));
            }
            match &pair.1 {
                JsonData::Str(t) => {
                    return t.clone();
                },
                _ => {
                    return inferred.to_owned();
                },
            }
        }
        proof {
            assert(entries@.skip(i as int).drop_first() =~= entries@.skip(i + 1));
        }
        i += 1;
    }
    inferred.to_owned()
}

/// A `__typename` entry with a string value overrides schema inference: the
/// chosen type name is that string, whatever the schema would have said.
pub proof fn lemma_typename_overrides_inference(
    entries: Seq<(String, JsonData)>,
    t: String,
    inferred_a: Seq<char>,
    inferred_b: Seq<char>,
)
    requires
        lookup_entry(entries, "__typename"@) == Option::Some(JsonData::Str(t)),
    ensures
        object_ty_name(entries, inferred_a) == t@,
        object_ty_name(entries, inferred_a) == object_ty_name(entries, inferred_b),
{
}

} // verus!
