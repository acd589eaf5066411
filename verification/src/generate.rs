//! The variant generator, dispatch binder and emitter.
//!
//! For each ownership mode the generator derives a projected record type
//! (every source field wrapped as "optional of the mode-applied type"), a
//! conversion from a mode-wrapped instance of the source record, and the
//! dispatch binding that lets the uniform `project()` operation resolve to
//! them at compile time. The emitter concatenates the generated definitions
//! with the unchanged original declaration, or fails with a diagnostic and
//! emits nothing.

use vstd::prelude::*;

use crate::config::ConfigItem;
use crate::config::ProjectionArgs;
use crate::config::flag_of;
use crate::config::items_view;
use crate::config::wf_config;
use crate::error::ProjectionError;
use crate::schema::Decl;
use crate::schema::DeclV;
use crate::schema::Field;
use crate::schema::FieldV;
use crate::schema::Schema;
use crate::schema::SchemaV;
use crate::schema::acceptable_shape;
use crate::schema::fields_view;
use crate::schema::schema_of;
use crate::schema::strings_view;

verus! {

/// How the projected type holds the source record: by value, behind a shared
/// reference, or behind an exclusive reference. The reference modes carry an
/// implicit borrow lifetime tied to the source value.
#[derive(Debug, Clone, Copy, PartialEq, Eq, Structural)]
pub enum OwnershipMode {
    ByValue,
    BySharedRef,
    ByExclusiveRef,
}

/// The text a mode prepends to a field's type inside the optional wrapper.
pub open spec fn mode_prefix(m: OwnershipMode) -> Seq<char> {
    match m {
        OwnershipMode::ByValue => Seq::empty(),
        OwnershipMode::BySharedRef => "&'a "@,
        OwnershipMode::ByExclusiveRef => "&'a mut "@,
    }
}

/// A projected field's type: optional of the mode-applied source type.
pub open spec fn wrapped_type(m: OwnershipMode, ty: Seq<char>) -> Seq<char> {
    "Option<"@ + mode_prefix(m) + ty + ">"@
}

/// The suffix that qualifies a projected type's name per mode.
pub open spec fn mode_suffix(m: OwnershipMode) -> Seq<char> {
    match m {
        OwnershipMode::ByValue => Seq::empty(),
        OwnershipMode::BySharedRef => "_ref"@,
        OwnershipMode::ByExclusiveRef => "_ref_mut"@,
    }
}

/// The deterministic, mode-qualified name of the projected type derived from
/// a record named `base`.
pub open spec fn projected_name(base: Seq<char>, m: OwnershipMode) -> Seq<char> {
    "__projection_internal_Option_"@ + base + "_projected"@ + mode_suffix(m)
}

/// Mode-qualified names never collide across modes for the same record:
/// their suffixes give them pairwise different lengths.
pub proof fn law_projected_names_distinct(base: Seq<char>, m1: OwnershipMode, m2: OwnershipMode)
    requires
        m1 != m2,
    ensures
        projected_name(base, m1) != projected_name(base, m2),
{
    reveal_strlit("_ref");
    reveal_strlit("_ref_mut");
    assert(mode_suffix(m1).len() != mode_suffix(m2).len());
    assert(projected_name(base, m1).len() != projected_name(base, m2).len());
}

/// A mode-qualified name never collides with the source record's own name:
/// the qualification makes it strictly longer.
pub proof fn law_projected_name_fresh(base: Seq<char>, m: OwnershipMode)
    ensures
        projected_name(base, m) != base,
        projected_name(base, m).len() > base.len(),
{
    reveal_strlit("__projection_internal_Option_");
    reveal_strlit("_projected");
}

/// One field of a projected type, derived from a source field: same name,
/// same visibility, optional mode-applied type.
pub open spec fn spec_projected_field(m: OwnershipMode, f: FieldV) -> FieldV {
    FieldV { name: f.name, vis: f.vis, ty: wrapped_type(m, f.ty) }
}

/// A record type derived from a schema and an ownership mode: the
/// mode-qualified name, the schema's visibility, and one projected field per
/// source field, in source order. Its default construction is the empty
/// instance, with every field absent.
#[derive(Debug, Clone, PartialEq, Eq)]
pub struct ProjectedType {
    pub name: String,
    pub vis: String,
    pub mode: OwnershipMode,
    pub fields: Vec<Field>,
}

/// The mathematical value of a [`ProjectedType`].
#[verifier::ext_equal]
pub ghost struct ProjectedTypeV {
    pub name: Seq<char>,
    pub vis: Seq<char>,
    pub mode: OwnershipMode,
    pub fields: Seq<FieldV>,
}

impl View for ProjectedType {
    type V = ProjectedTypeV;

    open spec fn view(&self) -> ProjectedTypeV {
        ProjectedTypeV {
            name: self.name@,
            vis: self.vis@,
            mode: self.mode,
            fields: fields_view(self.fields@),
        }
    }
}

/// The projected type a schema and a mode determine.
pub open spec fn spec_projected_type(s: SchemaV, m: OwnershipMode) -> ProjectedTypeV {
    ProjectedTypeV {
        name: projected_name(s.name, m),
        vis: s.vis,
        mode: m,
        fields: Seq::new(s.fields.len(), |i: int| spec_projected_field(m, s.fields[i])),
    }
}

/// The conversion from a mode-wrapped instance of the source record into the
/// projected type: every listed field, in source order, is filled with the
/// present state wrapping the mode-applied source field of the same name.
#[derive(Debug, Clone, PartialEq, Eq)]
pub struct Conversion {
    pub mode: OwnershipMode,
    pub source: String,
    pub target: String,
    pub fields: Vec<String>,
}

/// The mathematical value of a [`Conversion`].
#[verifier::ext_equal]
pub ghost struct ConversionV {
    pub mode: OwnershipMode,
    pub source: Seq<char>,
    pub target: Seq<char>,
    pub fields: Seq<Seq<char>>,
}

impl View for Conversion {
    type V = ConversionV;

    open spec fn view(&self) -> ConversionV {
        ConversionV {
            mode: self.mode,
            source: self.source@,
            target: self.target@,
            fields: strings_view(self.fields@),
        }
    }
}

/// The conversion a schema and a mode determine.
pub open spec fn spec_conversion(s: SchemaV, m: OwnershipMode) -> ConversionV {
    ConversionV {
        mode: m,
        source: s.name,
        target: projected_name(s.name, m),
        fields: Seq::new(s.fields.len(), |i: int| s.fields[i].name),
    }
}

/// The capability implementation on "optional of the mode-wrapped source":
/// its `project` operation returns the conversion of a present value and the
/// empty instance (every field absent) of an absent one, with the projected
/// type fixed per mode as an associated type.
#[derive(Debug, Clone, PartialEq, Eq)]
pub struct Binding {
    pub mode: OwnershipMode,
    pub source: String,
    pub target: String,
}

/// The mathematical value of a [`Binding`].
#[verifier::ext_equal]
pub ghost struct BindingV {
    pub mode: OwnershipMode,
    pub source: Seq<char>,
    pub target: Seq<char>,
}

impl View for Binding {
    type V = BindingV;

    open spec fn view(&self) -> BindingV {
        BindingV { mode: self.mode, source: self.source@, target: self.target@ }
    }
}

/// The binding a schema and a mode determine.
pub open spec fn spec_binding(s: SchemaV, m: OwnershipMode) -> BindingV {
    BindingV { mode: m, source: s.name, target: projected_name(s.name, m) }
}

/// One definition of the emitted unit.
#[derive(Debug, Clone, PartialEq, Eq)]
pub enum Item {
    /// A projected record type declaration.
    TypeDef(ProjectedType),
    /// A conversion implementation from a mode-wrapped source instance.
    ConvImpl(Conversion),
    /// A capability implementation dispatching the uniform operation.
    BindImpl(Binding),
    /// The original record declaration, passed through unchanged.
    Original(Decl),
}

/// The mathematical value of an [`Item`].
#[verifier::ext_equal]
pub ghost enum ItemV {
    TypeDef(ProjectedTypeV),
    ConvImpl(ConversionV),
    BindImpl(BindingV),
    Original(DeclV),
}

impl View for Item {
    type V = ItemV;

    open spec fn view(&self) -> ItemV {
        match self {
            Item::TypeDef(t) => ItemV::TypeDef(t@),
            Item::ConvImpl(c) => ItemV::ConvImpl(c@),
            Item::BindImpl(b) => ItemV::BindImpl(b@),
            Item::Original(d) => ItemV::Original(d@),
        }
    }
}

/// The value of an emitted unit, definition by definition.
pub open spec fn output_view(s: Seq<Item>) -> Seq<ItemV> {
    Seq::new(s.len(), |i: int| s[i]@)
}

/// The three definitions one mode contributes, in emission order.
pub open spec fn mode_items(s: SchemaV, m: OwnershipMode) -> Seq<ItemV> {
    seq![
        ItemV::TypeDef(spec_projected_type(s, m)),
        ItemV::ConvImpl(spec_conversion(s, m)),
        ItemV::BindImpl(spec_binding(s, m)),
    ]
}

/// Everything the optional-projection family emits for one schema: the
/// shared-reference, exclusive-reference and by-value variants, in order.
pub open spec fn option_items(s: SchemaV) -> Seq<ItemV> {
    mode_items(s, OwnershipMode::BySharedRef) + mode_items(s, OwnershipMode::ByExclusiveRef)
        + mode_items(s, OwnershipMode::ByValue)
}

/// The emitted unit of a successful run: the generated definitions (none when
/// the `option` flag is off) followed by the unchanged original declaration.
pub open spec fn spec_output(d: DeclV, option_flag: bool) -> Seq<ItemV> {
    (if option_flag {
        option_items(schema_of(d))
    } else {
        Seq::<ItemV>::empty()
    }) + seq![ItemV::Original(d)]
}

/// Render a projected field's type.
fn wrap_type(m: OwnershipMode, ty: &String) -> (r: String)
    ensures
        r@ == wrapped_type(m, ty@),
{
    let mut s = String::from_str("Option<");
    match m {
        OwnershipMode::ByValue => {},
        OwnershipMode::BySharedRef => s.append("&'a "),
        OwnershipMode::ByExclusiveRef => s.append("&'a mut "),
    }
    s.append(ty.as_str());
    s.append(">");
    proof {
        assert(s@ =~= wrapped_type(m, ty@));
    }
    s
}

/// Render the mode-qualified name of the projected type.
fn projected_type_name(base: &String, m: OwnershipMode) -> (r: String)
    ensures
        r@ == projected_name(base@, m),
{
    let mut s = String::from_str("__projection_internal_Option_");
    s.append(base.as_str());
    s.append("_projected");
    match m {
        OwnershipMode::ByValue => {},
        OwnershipMode::BySharedRef => s.append("_ref"),
        OwnershipMode::ByExclusiveRef => s.append("_ref_mut"),
    }
    proof {
        assert(s@ =~= projected_name(base@, m));
    }
    s
}

/// Derive the projected record type for one ownership mode: exactly one field
/// per source field, with the same name, the same visibility and the same
/// order, each typed "optional of the mode-applied source type".
pub fn project_type(p: &Schema, m: OwnershipMode) -> (r: ProjectedType)
    ensures
        r@ == spec_projected_type(p@, m),
        r@.fields.len() == p@.fields.len(),
        forall|i: int|
            0 <= i < p@.fields.len() ==> (#[trigger] r@.fields[i]).name == p@.fields[i].name,
        forall|i: int|
            0 <= i < p@.fields.len() ==> (#[trigger] r@.fields[i]).vis == p@.fields[i].vis,
        forall|i: int|
            0 <= i < p@.fields.len() ==> (#[trigger] r@.fields[i]).ty == wrapped_type(
                m,
                p@.fields[i].ty,
            ),
{
    let name = projected_type_name(&p.name, m);
    let vis = p.vis.clone();
    let mut fields: Vec<Field> = Vec::new();
    let n: usize = p.fields.len();
    for i in 0..n
        invariant
            n == p.fields@.len(),
            fields@.len() == i,
            forall|j: int|
                0 <= j < i ==> (#[trigger] fields@[j])@ == spec_projected_field(m, p@.fields[j]),
    {
        let f = &p.fields[i];
        fields.push(
            Field { name: f.name.clone(), vis: f.vis.clone(), ty: wrap_type(m, &f.ty) },
        );
    }
    let r = ProjectedType { name, vis, mode: m, fields };
    proof {
        assert(r@ =~~= spec_projected_type(p@, m));
    }
    r
}

/// Build the conversion for one ownership mode: the listed fields are the
/// schema's field names, in source order.
fn make_conversion(p: &Schema, m: OwnershipMode) -> (r: Conversion)
    ensures
        r@ == spec_conversion(p@, m),
{
    let mut names: Vec<String> = Vec::new();
    let n: usize = p.fields.len();
    for i in 0..n
        invariant
            n == p.fields@.len(),
            names@.len() == i,
            forall|j: int| 0 <= j < i ==> (#[trigger] names@[j])@ == p@.fields[j].name,
    {
        names.push(p.fields[i].name.clone());
    }
    let r = Conversion {
        mode: m,
        source: p.name.clone(),
        target: projected_type_name(&p.name, m),
        fields: names,
    };
    proof {
        assert(r@ =~~= spec_conversion(p@, m));
    }
    r
}

/// Build the dispatch binding for one ownership mode.
fn make_binding(p: &Schema, m: OwnershipMode) -> (r: Binding)
    ensures
        r@ == spec_binding(p@, m),
{
    Binding { mode: m, source: p.name.clone(), target: projected_type_name(&p.name, m) }
}

/// Emit the three definitions of one ownership mode.
fn generate_mode(p: &Schema, m: OwnershipMode, out: &mut Vec<Item>)
    ensures
        output_view(final(out)@) == output_view(old(out)@) + mode_items(p@, m),
{
    let t = project_type(p, m);
    let c = make_conversion(p, m);
    let b = make_binding(p, m);
    out.push(Item::TypeDef(t));
    out.push(Item::ConvImpl(c));
    out.push(Item::BindImpl(b));
    proof {
        assert(output_view(out@) =~~= output_view(old(out)@) + mode_items(p@, m));
    }
}

/// Emit the optional-projection family: for the shared-reference, the
/// exclusive-reference and the by-value mode, in that order, the projected
/// type, its conversion and its dispatch binding.
pub fn generate_option_impl(p: &Schema, out: &mut Vec<Item>)
    ensures
        output_view(final(out)@) == output_view(old(out)@) + option_items(p@),
{
    generate_mode(p, OwnershipMode::BySharedRef, out);
    generate_mode(p, OwnershipMode::ByExclusiveRef, out);
    generate_mode(p, OwnershipMode::ByValue, out);
    proof {
        assert(output_view(out@) =~~= output_view(old(out)@) + option_items(p@));
    }
}

/// The result-projection family is reserved: it is accepted in the
/// configuration but deliberately generates nothing.
pub fn generate_result_impl(_p: &Schema, out: &mut Vec<Item>)
    ensures
        final(out)@ == old(out)@,
{
}

/// The whole pipeline for one annotated declaration: extract the schema,
/// read the configuration, generate the projection family the flags ask for,
/// and append the unchanged original declaration.
///
/// Fails with `UnsupportedShape` when the declaration is not a plain
/// named-field record, and with `MalformedConfig` when the configuration list
/// is malformed; on failure nothing is emitted, the original declaration
/// included. With `option` off, only the original declaration passes through.
pub fn projection(attr: &Vec<ConfigItem>, input: Decl) -> (r: Result<Vec<Item>, ProjectionError>)
    ensures
        r is Ok <==> acceptable_shape(input@) && wf_config(items_view(attr@)),
        !acceptable_shape(input@) ==> r is Err && r->Err_0 is UnsupportedShape,
        acceptable_shape(input@) && !wf_config(items_view(attr@)) ==> r is Err
            && r->Err_0 is MalformedConfig,
        r is Ok ==> output_view(r->Ok_0@) == spec_output(
            input@,
            flag_of(items_view(attr@), "option"@),
        ),
        r is Ok && !flag_of(items_view(attr@), "option"@) ==> output_view(r->Ok_0@) == seq![
            ItemV::Original(input@),
        ],
{
    let schema = match Schema::extract(&input) {
        Ok(s) => s,
        Err(e) => {
            return Err(e);
        },
    };
    let args = match ProjectionArgs::from_list(attr) {
        Ok(a) => a,
        Err(e) => {
            return Err(e);
        },
    };
    let mut ret: Vec<Item> = Vec::new();
    if args.option {
        generate_option_impl(&schema, &mut ret);
    }
    if args.result {
        generate_result_impl(&schema, &mut ret);
    }
    ret.push(Item::Original(input));
    proof {
        assert(output_view(ret@) =~~= spec_output(input@, flag_of(items_view(attr@), "option"@)));
        if !flag_of(items_view(attr@), "option"@) {
            assert(output_view(ret@) =~~= seq![ItemV::Original(input@)]);
        }
    }
    Ok(ret)
}

} // verus!
