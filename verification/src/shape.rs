//! The shape inspector: classifies a type definition into field or
//! variant descriptors and resolves the facts the emitters need (the
//! display label, the recognized scalar class of a field type, the
//! ordinal of an enumeration variant).

use crate::attributes::parse_failures;
use crate::attributes::parsed_attrs;
use crate::attributes::with_docs;
use crate::attributes::AttrModel;
use crate::attributes::Attributes;
use crate::error::GenError;
use crate::error::GenErrorModel;
use crate::strutil::find_from;
use crate::strutil::rfind2_from;
use crate::strutil::str_eq;
use crate::strutil::str_find;
use crate::strutil::str_rfind2;
use crate::strutil::str_trim;
use crate::strutil::trim_seq;
use vstd::prelude::*;
use vstd::string::*;

verus! {

/// One field of a struct as the generation request describes it: the
/// declared name (absent for a tuple position), the declared type as
/// text, the raw annotation strings, and the doc-comment lines.
#[derive(Debug, Clone, PartialEq, Eq)]
pub struct FieldInput {
    /// The declared field name; `None` for a tuple position.
    pub name: Option<String>,
    /// The declared type, as written.
    pub declared_type: String,
    /// The raw annotation strings attached to the field.
    pub annotations: Vec<String>,
    /// The doc-comment lines attached to the field.
    pub docs: Vec<String>,
}

/// The mathematical model of a [`FieldInput`].
pub struct FieldInputModel {
    /// The declared field name.
    pub name: Option<Seq<char>>,
    /// The declared type text.
    pub declared_type: Seq<char>,
    /// The raw annotation strings.
    pub annotations: Seq<Seq<char>>,
    /// The doc-comment lines.
    pub docs: Seq<Seq<char>>,
}

impl View for FieldInput {
    type V = FieldInputModel;

    open spec fn view(&self) -> FieldInputModel {
        FieldInputModel {
            name: match self.name {
                Some(n) => Some(n@),
                None => None,
            },
            declared_type: self.declared_type@,
            annotations: self.annotations.deep_view(),
            docs: self.docs.deep_view(),
        }
    }
}

/// One variant of an enumeration as the generation request describes
/// it.
#[derive(Debug, Clone, PartialEq, Eq)]
pub struct VariantInput {
    /// The variant's identifier.
    pub name: String,
    /// The explicit discriminant, if one is declared.
    pub discriminant: Option<u64>,
    /// Whether the variant carries any payload.
    pub has_payload: bool,
}

/// The mathematical model of a [`VariantInput`].
pub struct VariantInputModel {
    /// The variant's identifier.
    pub name: Seq<char>,
    /// The explicit discriminant, if one is declared.
    pub discriminant: Option<u64>,
    /// Whether the variant carries any payload.
    pub has_payload: bool,
}

impl View for VariantInput {
    type V = VariantInputModel;

    open spec fn view(&self) -> VariantInputModel {
        VariantInputModel {
            name: self.name@,
            discriminant: self.discriminant,
            has_payload: self.has_payload,
        }
    }
}

/// The structural shape of a type definition.
#[derive(Debug, Clone, PartialEq, Eq)]
pub enum ShapeInput {
    /// A struct with named fields.
    Named(Vec<FieldInput>),
    /// A tuple struct with positional fields.
    Tuple(Vec<FieldInput>),
    /// A unit struct, with no fields at all.
    Unit,
    /// An enumeration.
    Enum(Vec<VariantInput>),
}

/// The mathematical model of a [`ShapeInput`].
pub enum ShapeInputModel {
    /// Model of [`ShapeInput::Named`].
    Named(Seq<FieldInputModel>),
    /// Model of [`ShapeInput::Tuple`].
    Tuple(Seq<FieldInputModel>),
    /// Model of [`ShapeInput::Unit`].
    Unit,
    /// Model of [`ShapeInput::Enum`].
    Enum(Seq<VariantInputModel>),
}

/// The models of a sequence of field inputs.
pub open spec fn field_input_views(s: Seq<FieldInput>) -> Seq<FieldInputModel> {
    s.map_values(|f: FieldInput| f@)
}

/// The models of a sequence of variant inputs.
pub open spec fn variant_input_views(s: Seq<VariantInput>) -> Seq<VariantInputModel> {
    s.map_values(|v: VariantInput| v@)
}

impl View for ShapeInput {
    type V = ShapeInputModel;

    open spec fn view(&self) -> ShapeInputModel {
        match self {
            ShapeInput::Named(fs) => ShapeInputModel::Named(field_input_views(fs@)),
            ShapeInput::Tuple(fs) => ShapeInputModel::Tuple(field_input_views(fs@)),
            ShapeInput::Unit => ShapeInputModel::Unit,
            ShapeInput::Enum(vs) => ShapeInputModel::Enum(variant_input_views(vs@)),
        }
    }
}

/// One annotated type definition: the whole input of a generation
/// request.
#[derive(Debug, Clone, PartialEq, Eq)]
pub struct TypeInput {
    /// The type's own name.
    pub name: String,
    /// The raw annotation strings attached to the type itself.
    pub annotations: Vec<String>,
    /// The doc-comment lines attached to the type itself.
    pub docs: Vec<String>,
    /// The structural shape of the definition.
    pub shape: ShapeInput,
}

/// The mathematical model of a [`TypeInput`].
pub struct TypeInputModel {
    /// The type's own name.
    pub name: Seq<char>,
    /// The raw annotation strings attached to the type itself.
    pub annotations: Seq<Seq<char>>,
    /// The doc-comment lines attached to the type itself.
    pub docs: Seq<Seq<char>>,
    /// The structural shape of the definition.
    pub shape: ShapeInputModel,
}

impl View for TypeInput {
    type V = TypeInputModel;

    open spec fn view(&self) -> TypeInputModel {
        TypeInputModel {
            name: self.name@,
            annotations: self.annotations.deep_view(),
            docs: self.docs.deep_view(),
            shape: self.shape@,
        }
    }
}

/// One inspected struct field: the declared name, the resolved type
/// label, the zero-based position among all declared fields, and the
/// field's resolved attribute set.
#[derive(Debug, Clone, PartialEq, Eq)]
pub struct FieldDescriptor {
    /// The declared field name; `None` for a tuple position.
    pub name: Option<String>,
    /// The last segment of the declared type path.
    pub type_label: String,
    /// The zero-based position among all declared fields, skipped
    /// ones included.
    pub position: usize,
    /// The field's resolved attributes.
    pub attributes: Attributes,
}

/// The mathematical model of a [`FieldDescriptor`].
pub struct FieldDescModel {
    /// The declared field name.
    pub name: Option<Seq<char>>,
    /// The last segment of the declared type path.
    pub type_label: Seq<char>,
    /// The zero-based position among all declared fields.
    pub position: int,
    /// The field's resolved attributes.
    pub attributes: Seq<AttrModel>,
}

impl View for FieldDescriptor {
    type V = FieldDescModel;

    open spec fn view(&self) -> FieldDescModel {
        FieldDescModel {
            name: match self.name {
                Some(n) => Some(n@),
                None => None,
            },
            type_label: self.type_label@,
            position: self.position as int,
            attributes: self.attributes@,
        }
    }
}

/// One inspected enumeration variant: its identifier and its ordinal,
/// the explicit discriminant if one was declared, else its zero-based
/// declaration position.
#[derive(Debug, Clone, PartialEq, Eq)]
pub struct VariantDescriptor {
    /// The variant's identifier.
    pub name: String,
    /// The explicit discriminant, else the declaration position.
    pub ordinal: u64,
}

/// The mathematical model of a [`VariantDescriptor`].
pub struct VariantDescModel {
    /// The variant's identifier.
    pub name: Seq<char>,
    /// The explicit discriminant, else the declaration position.
    pub ordinal: u64,
}

impl View for VariantDescriptor {
    type V = VariantDescModel;

    open spec fn view(&self) -> VariantDescModel {
        VariantDescModel { name: self.name@, ordinal: self.ordinal }
    }
}

/// The models of a sequence of field descriptors.
pub open spec fn field_desc_views(s: Seq<FieldDescriptor>) -> Seq<FieldDescModel> {
    s.map_values(|f: FieldDescriptor| f@)
}

/// The models of a sequence of variant descriptors.
pub open spec fn variant_desc_views(s: Seq<VariantDescriptor>) -> Seq<VariantDescModel> {
    s.map_values(|v: VariantDescriptor| v@)
}

/// Whether `c` can begin an identifier.
pub open spec fn is_ident_start(c: char) -> bool {
    (65 <= c as u32 <= 90) || (97 <= c as u32 <= 122) || c == '_'
}

/// Whether `c` can stand in an identifier.
pub open spec fn is_ident_char(c: char) -> bool {
    is_ident_start(c) || (48 <= c as u32 <= 57)
}

/// Whether `s` is a plain identifier.
pub open spec fn is_ident(s: Seq<char>) -> bool {
    s.len() > 0 && is_ident_start(s[0]) && forall|i: int| 0 <= i < s.len() ==> is_ident_char(s[i])
}

/// The single-segment label of a declared type: generic arguments are
/// cut off, the last path segment is taken, and the result must be a
/// plain identifier; any other declared type is not expressible as a
/// simple path.
pub open spec fn resolve_type_label(s: Seq<char>) -> Option<Seq<char>> {
    let t = trim_seq(s);
    let cut = find_from(t, 0, '<');
    let body = if cut == -1 {
        t
    } else {
        trim_seq(t.subrange(0, cut))
    };
    let sep = rfind2_from(body, body.len() - 2, ':', ':');
    let seg = if sep == -1 {
        body
    } else {
        trim_seq(body.subrange(sep + 2, body.len() as int))
    };
    if is_ident(seg) {
        Some(seg)
    } else {
        None
    }
}

/// Whether `s` is a plain identifier.
fn is_ident_exec(s: &str) -> (r: bool)
    ensures
        r == is_ident(s@),
{
    let n = s.unicode_len();
    if n == 0 {
        return false;
    }
    let c0 = s.get_char(0);
    let c0u = c0 as u32;
    if !((65 <= c0u && c0u <= 90) || (97 <= c0u && c0u <= 122) || c0 == '_') {
        return false;
    }
    let mut i: usize = 0;
    while i < n
        invariant
            i <= n,
            n == s@.len(),
            forall|j: int| 0 <= j < i ==> is_ident_char(s@[j]),
        decreases n - i,
    {
        let c = s.get_char(i);
        let cu = c as u32;
        if !((65 <= cu && cu <= 90) || (97 <= cu && cu <= 122) || c == '_' || (48 <= cu && cu
            <= 57)) {
            return false;
        }
        i = i + 1;
    }
    true
}

/// Resolves a declared type to its single-segment label, or fails for
/// a type that a simple path cannot express.
pub fn get_type(declared_type: &str) -> (r: Result<String, GenError>)
    ensures
        match r {
            Ok(label) => resolve_type_label(declared_type@) == Some(label@),
            Err(e) => resolve_type_label(declared_type@) is None && e@ == GenErrorModel::ComplexType(
                declared_type@,
            ),
        },
{
    let t = str_trim(declared_type);
    let body = match str_find(t, 0, '<') {
        Some(cut) => str_trim(t.substring_char(0, cut)),
        None => t,
    };
    let bn = body.unicode_len();
    let seg = match str_rfind2(body, ':', ':') {
        Some(sep) => str_trim(body.substring_char(sep + 2, bn)),
        None => body,
    };
    if is_ident_exec(seg) {
        Ok(seg.to_owned())
    } else {
        Err(GenError::ComplexType(declared_type.to_owned()))
    }
}

/// Whether the type label names a recognized numeric primitive.
pub open spec fn is_numeric_name(s: Seq<char>) -> bool {
    ||| s == "usize"@
    ||| s == "isize"@
    ||| s == "u64"@
    ||| s == "i64"@
    ||| s == "f64"@
    ||| s == "f32"@
    ||| s == "u32"@
    ||| s == "i32"@
    ||| s == "u16"@
    ||| s == "i16"@
    ||| s == "u8"@
    ||| s == "i8"@
}

/// Whether the type label names a floating-point primitive.
pub open spec fn is_float_name(s: Seq<char>) -> bool {
    s == "f32"@ || s == "f64"@
}

/// Whether the type label names the boolean primitive.
pub open spec fn is_bool_name(s: Seq<char>) -> bool {
    s == "bool"@
}

/// Whether the type label names a plain text type.
pub open spec fn is_text_name(s: Seq<char>) -> bool {
    s == "String"@ || s == "str"@
}

/// Whether the type label names a recognized numeric primitive.
pub fn is_numeric_primitive(label: &str) -> (r: bool)
    ensures
        r == is_numeric_name(label@),
{
    str_eq(label, "usize") || str_eq(label, "isize") || str_eq(label, "u64") || str_eq(
        label,
        "i64",
    ) || str_eq(label, "f64") || str_eq(label, "f32") || str_eq(label, "u32") || str_eq(
        label,
        "i32",
    ) || str_eq(label, "u16") || str_eq(label, "i16") || str_eq(label, "u8") || str_eq(label, "i8")
}

/// The widget category of one field, decided by its type label alone.
#[derive(Debug, Clone, Copy, PartialEq, Eq, Structural)]
pub enum FieldClass {
    /// A recognized numeric primitive: a drag widget.
    Numeric,
    /// The boolean primitive: a toggle widget.
    Boolean,
    /// A plain text type: an editable line or a label.
    Text,
    /// Anything else: delegation to the nested value's own rendering.
    Nested,
}

/// The widget category that a type label falls under.
pub open spec fn classify_name(s: Seq<char>) -> FieldClass {
    if is_numeric_name(s) {
        FieldClass::Numeric
    } else if is_bool_name(s) {
        FieldClass::Boolean
    } else if is_text_name(s) {
        FieldClass::Text
    } else {
        FieldClass::Nested
    }
}

/// The widget category that a type label falls under.
pub fn classify(label: &str) -> (r: FieldClass)
    ensures
        r == classify_name(label@),
{
    if is_numeric_primitive(label) {
        FieldClass::Numeric
    } else if str_eq(label, "bool") {
        FieldClass::Boolean
    } else if str_eq(label, "String") || str_eq(label, "str") {
        FieldClass::Text
    } else {
        FieldClass::Nested
    }
}

/// What inspecting one field at `position` yields: its resolved
/// attributes and type label, or the first failure.
pub open spec fn inspect_field(f: FieldInputModel, position: int) -> Result<
    FieldDescModel,
    GenErrorModel,
> {
    if parse_failures(f.annotations).len() > 0 {
        Err(GenErrorModel::Attributes(parse_failures(f.annotations)))
    } else {
        match resolve_type_label(f.declared_type) {
            Some(label) => Ok(
                FieldDescModel {
                    name: f.name,
                    type_label: label,
                    position,
                    attributes: with_docs(parsed_attrs(f.annotations), f.docs),
                },
            ),
            None => Err(GenErrorModel::ComplexType(f.declared_type)),
        }
    }
}

/// What inspecting all fields from `i` on yields: descriptors in
/// order, positions assigned before any filtering, or the first
/// failure.
pub open spec fn inspect_fields_from(fs: Seq<FieldInputModel>, i: int) -> Result<
    Seq<FieldDescModel>,
    GenErrorModel,
>
    decreases fs.len() - i,
{
    if i < 0 || i >= fs.len() {
        Ok(Seq::empty())
    } else {
        match inspect_field(fs[i], i) {
            Ok(d) => match inspect_fields_from(fs, i + 1) {
                Ok(rest) => Ok(seq![d] + rest),
                Err(e) => Err(e),
            },
            Err(e) => Err(e),
        }
    }
}

/// Inspects every declared field of a struct, in order. Positions are
/// assigned before any skip filtering, so a skipped field never
/// renumbers its neighbours.
pub fn inspect_struct_fields(fields: &Vec<FieldInput>) -> (r: Result<
    Vec<FieldDescriptor>,
    GenError,
>)
    ensures
        ({
            let m = inspect_fields_from(field_input_views(fields@), 0);
            match r {
                Ok(ds) => m == Ok::<Seq<FieldDescModel>, GenErrorModel>(field_desc_views(ds@)),
                Err(e) => m == Err::<Seq<FieldDescModel>, GenErrorModel>(e@),
            }
        }),
{
    let ghost fvs = field_input_views(fields@);
    let n = fields.len();
    let mut out: Vec<FieldDescriptor> = Vec::new();
    let mut i: usize = 0;
    while i < n
        invariant
            i <= n,
            n == fields@.len(),
            fvs == field_input_views(fields@),
            ({
                let whole = inspect_fields_from(fvs, 0);
                match inspect_fields_from(fvs, i as int) {
                    Ok(rest) => whole == Ok::<Seq<FieldDescModel>, GenErrorModel>(
                        field_desc_views(out@) + rest,
                    ),
                    Err(e) => whole == Err::<Seq<FieldDescModel>, GenErrorModel>(e),
                }
            }),
        decreases n - i,
    {
        let f = &fields[i];
        let anns = f.annotations.as_slice();
        let dcs = f.docs.as_slice();
        match Attributes::parse_many(anns, dcs) {
            Err(e) => {
                proof {
                    assert(fvs[i as int].annotations =~= anns.deep_view());
                }
                return Err(GenError::Attributes(e));
            },
            Ok(attrs) => {
                match get_type(f.declared_type.as_str()) {
                    Err(e) => {
                        proof {
                            assert(fvs[i as int].annotations =~= anns.deep_view());
                        }
                        return Err(e);
                    },
                    Ok(label) => {
                        let name = match &f.name {
                            Some(s) => Some(s.clone()),
                            None => None,
                        };
                        let d = FieldDescriptor {
                            name,
                            type_label: label,
                            position: i,
                            attributes: attrs,
                        };
                        proof {
                            assert(fvs[i as int].annotations =~= anns.deep_view());
                            assert(fvs[i as int].docs =~= dcs.deep_view());
                            assert(inspect_field(fvs[i as int], i as int) == Ok::<
                                FieldDescModel,
                                GenErrorModel,
                            >(d@));
                        }
                        let ghost prev = field_desc_views(out@);
                        out.push(d);
                        proof {
                            assert(field_desc_views(out@) =~= prev.push(d@));
                            if let Ok(rest2) = inspect_fields_from(fvs, i + 1) {
                                assert(prev.push(d@) + rest2 =~= prev + (seq![d@] + rest2));
                            }
                        }
                    },
                }
            },
        }
        i = i + 1;
    }
    proof {
        assert(field_desc_views(out@) + Seq::<FieldDescModel>::empty() =~= field_desc_views(
            out@,
        ));
    }
    Ok(out)
}

/// Whether every variant is payload-free.
pub open spec fn all_plain(vs: Seq<VariantInputModel>) -> bool {
    forall|i: int| 0 <= i < vs.len() ==> !vs[i].has_payload
}

/// The descriptor of one variant at declaration position `index`.
pub open spec fn variant_desc(v: VariantInputModel, index: int) -> VariantDescModel {
    VariantDescModel {
        name: v.name,
        ordinal: match v.discriminant {
            Some(d) => d,
            None => index as u64,
        },
    }
}

/// The descriptors of all variants from `i` on, in declaration order.
pub open spec fn inspect_variants_from(vs: Seq<VariantInputModel>, i: int) -> Seq<VariantDescModel>
    decreases vs.len() - i,
{
    if i < 0 || i >= vs.len() {
        Seq::empty()
    } else {
        seq![variant_desc(vs[i], i)] + inspect_variants_from(vs, i + 1)
    }
}

/// Inspects every variant of an enumeration. Any payload-carrying
/// variant rejects the whole enumeration.
pub fn inspect_enum_variants(variants: &Vec<VariantInput>) -> (r: Result<
    Vec<VariantDescriptor>,
    GenError,
>)
    ensures
        ({
            let vvs = variant_input_views(variants@);
            match r {
                Ok(ds) => all_plain(vvs) && variant_desc_views(ds@) == inspect_variants_from(
                    vvs,
                    0,
                ),
                Err(e) => !all_plain(vvs) && e@ == GenErrorModel::NonPlainEnum,
            }
        }),
{
    let ghost vvs = variant_input_views(variants@);
    let n = variants.len();
    let mut out: Vec<VariantDescriptor> = Vec::new();
    let mut i: usize = 0;
    while i < n
        invariant
            i <= n,
            n == variants@.len(),
            vvs == variant_input_views(variants@),
            forall|j: int| 0 <= j < i ==> !vvs[j].has_payload,
            inspect_variants_from(vvs, 0) == variant_desc_views(out@) + inspect_variants_from(
                vvs,
                i as int,
            ),
        decreases n - i,
    {
        let v = &variants[i];
        if v.has_payload {
            return Err(GenError::NonPlainEnum);
        }
        let ordinal = match v.discriminant {
            Some(d) => d,
            None => i as u64,
        };
        out.push(VariantDescriptor { name: v.name.clone(), ordinal });
        proof {
            assert(inspect_variants_from(vvs, 0) =~= variant_desc_views(out@)
                + inspect_variants_from(vvs, i + 1));
        }
        i = i + 1;
    }
    proof {
        assert(variant_desc_views(out@) + inspect_variants_from(vvs, n as int)
            =~= variant_desc_views(out@));
    }
    Ok(out)
}

/// The first position at or after `i` whose variant carries `ord`, or
/// -1.
pub open spec fn spec_resolve_ordinal(vs: Seq<VariantDescModel>, ord: u64, i: int) -> int
    decreases vs.len() - i,
{
    if i < 0 || i >= vs.len() {
        -1
    } else if vs[i].ordinal == ord {
        i
    } else {
        spec_resolve_ordinal(vs, ord, i + 1)
    }
}

/// The declaration position of the first variant carrying `ordinal`,
/// as the generated selection code resolves a chosen ordinal back to
/// a variant.
pub fn resolve_ordinal(variants: &Vec<VariantDescriptor>, ordinal: u64) -> (r: Option<usize>)
    ensures
        ({
            let f = spec_resolve_ordinal(variant_desc_views(variants@), ordinal, 0);
            match r {
                Some(j) => f == j as int && j < variants@.len(),
                None => f == -1,
            }
        }),
{
    let n = variants.len();
    let mut i: usize = 0;
    while i < n
        invariant
            i <= n,
            n == variants@.len(),
            spec_resolve_ordinal(variant_desc_views(variants@), ordinal, 0) == spec_resolve_ordinal(
                variant_desc_views(variants@),
                ordinal,
                i as int,
            ),
        decreases n - i,
    {
        if variants[i].ordinal == ordinal {
            return Some(i);
        }
        i = i + 1;
    }
    None
}

/// The ordinal of the variant at declaration position `index`.
pub fn variant_ordinal(variants: &Vec<VariantDescriptor>, index: usize) -> (r: u64)
    requires
        index < variants@.len(),
    ensures
        r == variant_desc_views(variants@)[index as int].ordinal,
{
    variants[index].ordinal
}

/// Selecting the combo option at `index` yields the variant declared
/// at that position.
pub fn select_variant(variants: &Vec<VariantDescriptor>, index: usize) -> (r: Option<
    &VariantDescriptor,
>)
    ensures
        match r {
            Some(v) => index < variants@.len() && v@ == variant_desc_views(variants@)[index as int],
            None => index >= variants@.len(),
        },
{
    if index < variants.len() {
        Some(&variants[index])
    } else {
        None
    }
}

/// Round trip of the generated selection code: with pairwise distinct
/// ordinals, resolving the ordinal of any variant finds that variant
/// again, so mapping a variant to its ordinal and back is the
/// identity.
pub proof fn lemma_ordinal_round_trip(vs: Seq<VariantDescModel>, i: int)
    requires
        0 <= i < vs.len(),
        forall|a: int, b: int| 0 <= a < b < vs.len() ==> vs[a].ordinal != vs[b].ordinal,
    ensures
        spec_resolve_ordinal(vs, vs[i].ordinal, 0) == i,
{
    lemma_resolve_ordinal_below(vs, vs[i].ordinal, 0, i);
}

/// Helper: resolving from `j` finds `i` when no variant in `[j, i)`
/// carries the ordinal and the variant at `i` does.
proof fn lemma_resolve_ordinal_below(vs: Seq<VariantDescModel>, ord: u64, j: int, i: int)
    requires
        0 <= j <= i < vs.len(),
        vs[i].ordinal == ord,
        forall|k: int| j <= k < i ==> vs[k].ordinal != ord,
    ensures
        spec_resolve_ordinal(vs, ord, j) == i,
    decreases i - j,
{
    if j < i {
        lemma_resolve_ordinal_below(vs, ord, j + 1, i);
    }
}

} // verus!
