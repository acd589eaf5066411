//! The schema model: the validated shape of a record declaration, and the
//! plain model of an external declaration from which it is extracted.
//!
//! Identifiers, visibility modifiers and type expressions are carried as
//! source text; the pipeline preserves them and never interprets them.

use vstd::prelude::*;

use crate::error::ProjectionError;

verus! {

/// One named field of a record: name, visibility modifier (source text,
/// possibly empty) and type expression (source text, kept opaque).
#[derive(Debug, Clone, PartialEq, Eq)]
pub struct Field {
    pub name: String,
    pub vis: String,
    pub ty: String,
}

/// The mathematical value of a [`Field`].
#[verifier::ext_equal]
pub ghost struct FieldV {
    pub name: Seq<char>,
    pub vis: Seq<char>,
    pub ty: Seq<char>,
}

impl View for Field {
    type V = FieldV;

    open spec fn view(&self) -> FieldV {
        FieldV { name: self.name@, vis: self.vis@, ty: self.ty@ }
    }
}

/// The value of a sequence of fields, element by element.
pub open spec fn fields_view(s: Seq<Field>) -> Seq<FieldV> {
    Seq::new(s.len(), |i: int| s[i]@)
}

/// The value of a sequence of strings, element by element.
pub open spec fn strings_view(s: Seq<String>) -> Seq<Seq<char>> {
    Seq::new(s.len(), |i: int| s[i]@)
}

/// The shape of an external record declaration, reduced to what shape
/// validation needs. Only named fields can be projected; the other shapes
/// are kept so that they can be recognized and rejected.
#[derive(Debug, Clone, PartialEq, Eq)]
pub enum DeclData {
    /// A plain record with named fields.
    NamedFields(Vec<Field>),
    /// A positional-field (tuple-like) record; only the field types remain.
    PositionalFields(Vec<String>),
    /// A sum type; only the variant names remain.
    Variants(Vec<String>),
    /// A record with no field list at all.
    Unit,
}

/// The mathematical value of a [`DeclData`].
#[verifier::ext_equal]
pub ghost enum DeclDataV {
    NamedFields(Seq<FieldV>),
    PositionalFields(Seq<Seq<char>>),
    Variants(Seq<Seq<char>>),
    Unit,
}

impl View for DeclData {
    type V = DeclDataV;

    open spec fn view(&self) -> DeclDataV {
        match self {
            DeclData::NamedFields(fields) => DeclDataV::NamedFields(fields_view(fields@)),
            DeclData::PositionalFields(tys) => DeclDataV::PositionalFields(strings_view(tys@)),
            DeclData::Variants(names) => DeclDataV::Variants(strings_view(names@)),
            DeclData::Unit => DeclDataV::Unit,
        }
    }
}

/// An external record declaration handed to the pipeline: its name, its
/// visibility modifier and its shape.
#[derive(Debug, Clone, PartialEq, Eq)]
pub struct Decl {
    pub name: String,
    pub vis: String,
    pub data: DeclData,
}

/// The mathematical value of a [`Decl`].
#[verifier::ext_equal]
pub ghost struct DeclV {
    pub name: Seq<char>,
    pub vis: Seq<char>,
    pub data: DeclDataV,
}

impl View for Decl {
    type V = DeclV;

    open spec fn view(&self) -> DeclV {
        DeclV { name: self.name@, vis: self.vis@, data: self.data@ }
    }
}

/// Field names are pairwise distinct.
pub open spec fn unique_field_names(fields: Seq<FieldV>) -> bool {
    forall|i: int, j: int|
        0 <= i < j < fields.len() ==> fields[i].name != fields[j].name
}

/// A declaration has an acceptable shape exactly when it is a plain
/// named-field record whose field names are distinct.
pub open spec fn acceptable_shape(d: DeclV) -> bool {
    d.data is NamedFields && unique_field_names(d.data->NamedFields_0)
}

/// The extracted, validated shape of a record declaration: name, visibility
/// and the ordered fields, exactly as declared.
#[derive(Debug, Clone, PartialEq, Eq)]
pub struct Schema {
    pub name: String,
    pub vis: String,
    pub fields: Vec<Field>,
}

/// The mathematical value of a [`Schema`].
#[verifier::ext_equal]
pub ghost struct SchemaV {
    pub name: Seq<char>,
    pub vis: Seq<char>,
    pub fields: Seq<FieldV>,
}

impl View for Schema {
    type V = SchemaV;

    open spec fn view(&self) -> SchemaV {
        SchemaV { name: self.name@, vis: self.vis@, fields: fields_view(self.fields@) }
    }
}

impl SchemaV {
    /// Invariant of an extracted schema: field names are distinct.
    pub open spec fn wf(self) -> bool {
        unique_field_names(self.fields)
    }
}

/// The schema an acceptable declaration extracts to.
pub open spec fn schema_of(d: DeclV) -> SchemaV {
    SchemaV { name: d.name, vis: d.vis, fields: d.data->NamedFields_0 }
}

/// Copy one field.
fn clone_field(f: &Field) -> (r: Field)
    ensures
        r@ == f@,
{
    Field { name: f.name.clone(), vis: f.vis.clone(), ty: f.ty.clone() }
}

/// Copy a field list, preserving order and every field's value.
fn clone_fields(fields: &Vec<Field>) -> (r: Vec<Field>)
    ensures
        fields_view(r@) == fields_view(fields@),
{
    let mut out: Vec<Field> = Vec::new();
    let n: usize = fields.len();
    for i in 0..n
        invariant
            n == fields@.len(),
            out@.len() == i,
            forall|j: int| 0 <= j < i ==> out@[j]@ == fields@[j]@,
    {
        out.push(clone_field(&fields[i]));
    }
    proof {
        assert(fields_view(out@) =~= fields_view(fields@));
    }
    out
}

/// Decide whether the field names are pairwise distinct.
fn names_unique(fields: &Vec<Field>) -> (r: bool)
    ensures
        r == unique_field_names(fields_view(fields@)),
{
    let n: usize = fields.len();
    for i in 0..n
        invariant
            n == fields@.len(),
            forall|p: int, q: int|
                0 <= p < q < i ==> fields_view(fields@)[p].name != fields_view(fields@)[q].name,
    {
        for j in 0..i
            invariant
                i < n == fields@.len(),
                forall|p: int, q: int|
                    0 <= p < q < i ==> fields_view(fields@)[p].name != fields_view(fields@)[q].name,
                forall|q: int| 0 <= q < j ==> fields_view(fields@)[q].name != fields_view(fields@)[i as int].name,
        {
            if fields[j].name == fields[i].name {
                assert(fields_view(fields@)[j as int].name == fields_view(fields@)[i as int].name);
                return false;
            }
        }
    }
    true
}

impl Schema {
    /// Schema extraction: accepts only a plain named-field record with
    /// distinct field names, and returns its shape with the declared field
    /// order, per-field visibility and per-field type expression preserved.
    /// Every other shape is an `UnsupportedShape` failure.
    pub fn extract(decl: &Decl) -> (r: Result<Schema, ProjectionError>)
        ensures
            r is Ok <==> acceptable_shape(decl@),
            r is Ok ==> r->Ok_0@ == schema_of(decl@),
            r is Ok ==> r->Ok_0@.wf(),
            r is Err ==> r->Err_0 is UnsupportedShape,
    {
        match &decl.data {
            DeclData::NamedFields(fields) => {
                if names_unique(fields) {
                    let schema = Schema {
                        name: decl.name.clone(),
                        vis: decl.vis.clone(),
                        fields: clone_fields(fields),
                    };
                    proof {
                        assert(schema@ =~= schema_of(decl@));
                    }
                    Ok(schema)
                } else {
                    Err(ProjectionError::UnsupportedShape)
                }
            },
            _ => Err(ProjectionError::UnsupportedShape),
        }
    }
}

} // verus!
