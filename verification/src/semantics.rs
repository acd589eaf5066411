//! The meaning of the emitted dispatch code, and the round-trip laws.
//!
//! A generated [`crate::generate::Binding`] dispatches the uniform operation
//! on "optional of the mode-wrapped source record": a present value goes
//! through the conversion, which fills every projected field with the present
//! state wrapping the mode-applied source field, and an absent value yields
//! the empty instance, with every field absent. With a source instance
//! modelled as the sequence of its field values (mode-applied, so the value
//! type `V` stands for the field value itself, a shared reference to it, or
//! an exclusive reference to it), that behaviour is the function below, and
//! the round-trip laws hold of it for every schema and every mode.

use vstd::prelude::*;

use crate::generate::OwnershipMode;
use crate::generate::spec_conversion;
use crate::schema::SchemaV;

verus! {

/// The empty instance of a projected type with `n` fields: every field absent.
pub open spec fn empty_projection<V>(n: nat) -> Seq<Option<V>> {
    Seq::new(n, |i: int| None)
}

/// The conversion applied to a present source instance: every field present,
/// wrapping the source field's value, in source order.
pub open spec fn conversion_projection<V>(vals: Seq<V>) -> Seq<Option<V>> {
    Seq::new(vals.len(), |i: int| Some(vals[i]))
}

/// What the emitted dispatch code computes on an optional source instance
/// with `n` fields.
pub open spec fn project_semantics<V>(src: Option<Seq<V>>, n: nat) -> Seq<Option<V>> {
    match src {
        Option::Some(vals) => conversion_projection(vals),
        Option::None => empty_projection(n),
    }
}

/// Projecting an absent source yields a projection with every field absent,
/// one per field the schema's conversion lists.
pub proof fn law_project_absent<V>(s: SchemaV, m: OwnershipMode)
    ensures
        spec_conversion(s, m).fields.len() == s.fields.len(),
        project_semantics::<V>(None, s.fields.len()).len() == s.fields.len(),
        forall|i: int|
            0 <= i < s.fields.len() ==> (#[trigger] project_semantics::<V>(
                None,
                s.fields.len(),
            )[i]) is None,
{
}

/// Projecting a present source yields every field present with the
/// mode-applied source field's value, in source order. Instantiating `V` at
/// the field value type gives the by-value round trip; at a shared or an
/// exclusive reference to it, the two borrowed round trips.
pub proof fn law_project_present<V>(s: SchemaV, m: OwnershipMode, vals: Seq<V>)
    requires
        vals.len() == s.fields.len(),
    ensures
        spec_conversion(s, m).fields.len() == s.fields.len(),
        project_semantics::<V>(Some(vals), s.fields.len()).len() == s.fields.len(),
        forall|i: int|
            0 <= i < s.fields.len() ==> (#[trigger] project_semantics::<V>(
                Some(vals),
                s.fields.len(),
            )[i]) == Some(vals[i]),
{
}

/// Two absent projections of the same shape are structurally equal: the empty
/// instance is canonical. (That each construction is also storage-independent
/// is a fact about the host language's value semantics, not about this model.)
pub proof fn law_empty_instances_equal<V>(n: nat)
    ensures
        project_semantics::<V>(None, n) == empty_projection::<V>(n),
        empty_projection::<V>(n).len() == n,
{
}

} // verus!
