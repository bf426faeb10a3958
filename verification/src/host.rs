//! Classification and marshaling of host values.
//!
//! A value coming out of the host runtime is one of: a null sentinel, a
//! string, a 64-bit signed integer, a 64-bit float (carried as its bit
//! pattern), a boolean, a list of host values, or an arbitrary host object
//! held through an opaque handle `H`. Marshaling maps it to the shape the
//! engine's resolver protocol expects: a null, a scalar leaf, an empty
//! array, a list of marshaled items, or a nested object adapter.

use vstd::prelude::*;
use crate::data::DataOutcome;
use crate::data::JsonData;
use crate::data::outcome_for;
use crate::names::snake_of;

verus! {

/// A host value, as far as the marshaling logic reads it. The handle type
/// `H` stands for the host runtime's reference-counted object handle and is
/// opaque to the logic; only an object's class name is read from it, and it
/// is read before marshaling.
pub enum HostValue<H> {
    /// The host's null sentinel.
    Null,
    /// A value that extracts as a string.
    Str(String),
    /// A value that extracts as a 64-bit signed integer.
    Int(i64),
    /// A value that extracts as a 64-bit float, carried by its bit pattern.
    FloatBits(u64),
    /// A value that extracts as a boolean.
    Bool(bool),
    /// A host list, element by element.
    List(Vec<HostValue<H>>),
    /// Any other host value: an object to be wrapped in a nested adapter.
    Object { class_name: Option<String>, handle: H },
}

/// What marshaling produces: the engine-side resolved-value shape, with
/// nested objects kept as a handle plus the type name chosen for them.
pub enum Marshaled<H> {
    /// The engine's null value.
    Null,
    /// A string leaf.
    StrLeaf(String),
    /// An integer leaf.
    IntLeaf(i64),
    /// A float leaf, carried by its bit pattern.
    FloatLeaf(u64),
    /// A boolean leaf.
    BoolLeaf(bool),
    /// The leaf holding an empty JSON array, produced for an empty host list.
    EmptyArray,
    /// A list of marshaled items, in the order of the host list.
    List(Vec<Marshaled<H>>),
    /// A nested object adapter: the handle to wrap and its type name.
    Object { ty_name: String, handle: H },
}

/// The type name chosen for a nested object adapter: the host object's class
/// name when it is known and non-empty, otherwise the inner named type of
/// the field being resolved, as the schema declares it.
pub open spec fn chosen_ty_name(class_name: Option<String>, inferred: Seq<char>) -> Seq<char> {
    match class_name {
        Option::Some(n) => if n@.len() > 0 {
            n@
        } else {
            inferred
        },
        Option::None => inferred,
    }
}

/// Whether `r` is the marshaled form of the host value `v`, with `inferred`
/// the schema-inferred type name for objects that do not expose a class
/// name. Each host value has exactly one marshaled form.
pub open spec fn marshals_to<H>(v: HostValue<H>, inferred: Seq<char>, r: Marshaled<H>) -> bool
    decreases v,
{
    match v {
        HostValue::Null => r == Marshaled::<H>::Null,
        HostValue::Str(s) => r == Marshaled::<H>::StrLeaf(s),
        HostValue::Int(i) => r == Marshaled::<H>::IntLeaf(i),
        HostValue::FloatBits(b) => r == Marshaled::<H>::FloatLeaf(b),
        HostValue::Bool(b) => r == Marshaled::<H>::BoolLeaf(b),
        HostValue::List(items) => if items@.len() == 0 {
            r == Marshaled::<H>::EmptyArray
        } else {
            match r {
                Marshaled::List(rs) => rs@.len() == items@.len() && (forall|i: int|
                    0 <= i < items@.len() ==> marshals_to(items@[i], inferred, #[trigger] rs@[i])),
                _ => false,
            }
        },
        HostValue::Object { class_name, handle } => match r {
            Marshaled::Object { ty_name, handle: h } => h == handle && ty_name@
                == chosen_ty_name(class_name, inferred),
            _ => false,
        },
    }
}

/// Marshals a host value into the engine's resolved-value shape.
///
/// The classification order of the host value is fixed: null, string,
/// integer, float, boolean, list, object — and is carried by the variants of
/// [`HostValue`], which the host boundary must fill by testing in that
/// order. A null marshals to null and an empty list to the empty-array
/// leaf; a non-empty list is marshaled element by element, preserving
/// order; any other value becomes a nested object adapter whose type name
/// follows [`chosen_ty_name`]. Marshaling never fails.
pub fn marshal<H>(v: HostValue<H>, inferred: &str) -> (r: Marshaled<H>)
    ensures
        marshals_to(v, inferred@, r),
        v matches HostValue::Null ==> r matches Marshaled::Null,
        (v matches HostValue::List(items) && items@.len() == 0) ==> r matches Marshaled::EmptyArray,
    decreases v,
{
    match v {
        HostValue::Null => Marshaled::Null,
        HostValue::Str(s) => Marshaled::StrLeaf(s),
        HostValue::Int(i) => Marshaled::IntLeaf(i),
        HostValue::FloatBits(b) => Marshaled::FloatLeaf(b),
        HostValue::Bool(b) => Marshaled::BoolLeaf(b),
        HostValue::List(items) => if items.len() == 0 {
            Marshaled::EmptyArray
        } else {
            Marshaled::List(marshal_items(items, inferred))
        },
        HostValue::Object { class_name, handle } => {
            let ty_name = match class_name {
                Option::Some(n) => if !n.as_str().is_empty() {
                    n
                } else {
                    inferred.to_owned()
                },
                Option::None => inferred.to_owned(),
            };
            Marshaled::Object { ty_name, handle }
        },
    }
}

/// Marshals the items of a host list one by one, preserving their order.
fn marshal_items<H>(items: Vec<HostValue<H>>, inferred: &str) -> (r: Vec<Marshaled<H>>)
    ensures
        r@.len() == items@.len(),
        forall|i: int| 0 <= i < items@.len() ==> marshals_to(items@[i], inferred@, #[trigger] r@[i]),
    decreases items@,
{
    let mut items = items;
    if items.len() == 0 {
        Vec::new()
    } else {
        let ghost items0 = items@;
        let head = items.remove(0);
        let head_m = marshal(head, inferred);
        let mut rest_m = marshal_items(items, inferred);
        let mut r: Vec<Marshaled<H>> = Vec::new();
        r.push(head_m);
        r.append(&mut rest_m);
        proof {
            assert(forall|i: int|
                0 < i < items0.len() ==> marshals_to(items0[i], inferred@, #[trigger] r@[i]));
        }
        r
    }
}

/// Whether the host value `v` and the data-tree node `d` carry the same
/// scalar: the host's null sentinel and JSON `null`, equal strings, or
/// equal booleans. Numbers, arrays and objects are outside this relation:
/// the data tree carries them in engine-opaque form.
pub open spec fn scalar_matches<H>(v: HostValue<H>, d: JsonData) -> bool {
    match v {
        HostValue::Null => d matches JsonData::Null,
        HostValue::Str(s) => d matches JsonData::Str(t) && t@ == s@,
        HostValue::Bool(b) => d matches JsonData::Bool(c) && c == b,
        _ => false,
    }
}

/// On scalar values the live path and the data-dict path agree: a host
/// value and its materialized JSON counterpart yield the same leaf, so the
/// engine is handed the same result whichever path resolved the field.
pub proof fn lemma_paths_agree_on_scalars<H>(
    v: HostValue<H>,
    d: JsonData,
    inferred: Seq<char>,
    m: Marshaled<H>,
    r: DataOutcome<'_>,
)
    requires
        scalar_matches(v, d),
        marshals_to(v, inferred, m),
        outcome_for(d, inferred, r),
    ensures
        (m matches Marshaled::Null) == (r matches DataOutcome::NullLeaf),
        m matches Marshaled::StrLeaf(s) ==> (r matches DataOutcome::StrLeaf(t) && t@ == s@),
        m matches Marshaled::BoolLeaf(b) ==> r == DataOutcome::BoolLeaf(b),
{
}

/// The attribute names the live adapter tries on the host object, in order:
/// first the field name exactly as the schema declares it, then its
/// snake-case translation.
pub fn attr_candidates(field: &str) -> (r: (String, String))
    ensures
        r.0@ == field@,
        r.1@ == snake_of(field@),
{
    (field.to_owned(), crate::names::camel_to_snake(field))
}

} // verus!
