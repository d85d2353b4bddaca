//! The backend emitters: combine the inspected shape and the resolved
//! attributes into a structured description of the rendering
//! procedures that a generation request yields, one pair of read-only
//! and mutable procedures per selected backend.

use crate::attributes::backends_from;
use crate::attributes::buttons_from;
use crate::attributes::first_format_from;
use crate::attributes::first_range_from;
use crate::attributes::first_rename_from;
use crate::attributes::first_speed_from;
use crate::attributes::menu_items_from;
use crate::attributes::parse_failures;
use crate::attributes::parsed_attrs;
use crate::attributes::tooltip_or_docs;
use crate::attributes::with_docs;
use crate::attributes::AttrModel;
use crate::attributes::Attributes;
use crate::attributes::Button;
use crate::attributes::ButtonModel;
use crate::attributes::MainMenuItem;
use crate::attributes::MainMenuItemModel;
use crate::error::GenError;
use crate::error::GenErrorModel;
use crate::shape::all_plain;
use crate::shape::classify;
use crate::shape::classify_name;
use crate::shape::field_desc_views;
use crate::shape::inspect_enum_variants;
use crate::shape::inspect_fields_from;
use crate::shape::inspect_struct_fields;
use crate::shape::inspect_variants_from;
use crate::shape::is_float_name;
use crate::shape::FieldClass;
use crate::shape::FieldDescModel;
use crate::shape::FieldDescriptor;
use crate::shape::ShapeInput;
use crate::shape::ShapeInputModel;
use crate::shape::TypeInput;
use crate::shape::TypeInputModel;
use crate::shape::VariantDescModel;
use crate::shape::VariantDescriptor;
use crate::shape::variant_desc_views;
use crate::strutil::dec_str;
use crate::strutil::str_eq;
use crate::strutil::usize_to_string;
use crate::Backend;
use vstd::prelude::*;
use vstd::string::*;

verus! {

/// How the generated code reaches one field of the presented value: by
/// its identifier, or by its tuple position.
#[derive(Debug, Clone, PartialEq, Eq)]
pub enum FieldKey {
    /// A named field, reached by its identifier.
    Named(String),
    /// A tuple field, reached by its position.
    Index(usize),
}

/// The mathematical model of a [`FieldKey`].
pub enum FieldKeyModel {
    /// Model of [`FieldKey::Named`].
    Named(Seq<char>),
    /// Model of [`FieldKey::Index`].
    Index(int),
}

impl View for FieldKey {
    type V = FieldKeyModel;

    open spec fn view(&self) -> FieldKeyModel {
        match self {
            FieldKey::Named(s) => FieldKeyModel::Named(s@),
            FieldKey::Index(i) => FieldKeyModel::Index(*i as int),
        }
    }
}

/// The control emitted for one field, decided by the field's widget
/// category.
#[derive(Debug, Clone, PartialEq, Eq)]
pub enum WidgetControl {
    /// A numeric drag widget, with the resolved display format, the
    /// editing range and the per-drag increment. An absent format
    /// means the default display; an absent range bound means the
    /// type's own natural bound. All modifier payloads are the
    /// literal texts that end up in the generated code.
    NumericDrag {
        /// The numeric primitive the widget edits.
        type_label: String,
        /// The explicit display format, if any.
        format: Option<String>,
        /// The explicit editing range, if any.
        range: Option<(Option<String>, Option<String>)>,
        /// The resolved per-drag increment.
        speed: String,
    },
    /// A toggle widget with a textual yes/no label companion.
    Toggle,
    /// A single-line text widget: editable on the interactive path, a
    /// plain label otherwise.
    Text,
    /// Delegation to the nested value's own rendering entry point.
    Nested,
}

/// The mathematical model of a [`WidgetControl`].
pub enum WidgetControlModel {
    /// Model of [`WidgetControl::NumericDrag`].
    NumericDrag {
        /// The numeric primitive the widget edits.
        type_label: Seq<char>,
        /// The explicit display format, if any.
        format: Option<Seq<char>>,
        /// The explicit editing range, if any.
        range: Option<(Option<Seq<char>>, Option<Seq<char>>)>,
        /// The resolved per-drag increment.
        speed: Seq<char>,
    },
    /// Model of [`WidgetControl::Toggle`].
    Toggle,
    /// Model of [`WidgetControl::Text`].
    Text,
    /// Model of [`WidgetControl::Nested`].
    Nested,
}

impl View for WidgetControl {
    type V = WidgetControlModel;

    open spec fn view(&self) -> WidgetControlModel {
        match self {
            WidgetControl::NumericDrag { type_label, format, range, speed } => {
                WidgetControlModel::NumericDrag {
                    type_label: type_label@,
                    format: match format {
                        Some(f) => Some(f@),
                        None => None,
                    },
                    range: match range {
                        Some(p) => Some(
                            (
                                match &p.0 {
                                    Some(l) => Some(l@),
                                    None => None,
                                },
                                match &p.1 {
                                    Some(h) => Some(h@),
                                    None => None,
                                },
                            ),
                        ),
                        None => None,
                    },
                    speed: speed@,
                }
            },
            WidgetControl::Toggle => WidgetControlModel::Toggle,
            WidgetControl::Text => WidgetControlModel::Text,
            WidgetControl::Nested => WidgetControlModel::Nested,
        }
    }
}

/// Everything emitted for one field: the collapsible group label, the
/// stable field key, the tooltip rendered with reduced emphasis
/// before the control, the control itself, and whether the control is
/// interactive or inert.
#[derive(Debug, Clone, PartialEq, Eq)]
pub struct FieldWidget {
    /// The resolved display name, labelling the field's group.
    pub label: String,
    /// How the generated code reaches the field.
    pub key: FieldKey,
    /// The tooltip text, if the field carries one.
    pub tooltip: Option<String>,
    /// The control emitted for the field.
    pub control: WidgetControl,
    /// Whether the control accepts input.
    pub interactive: bool,
}

/// The mathematical model of a [`FieldWidget`].
pub struct FieldWidgetModel {
    /// The resolved display name.
    pub label: Seq<char>,
    /// How the generated code reaches the field.
    pub key: FieldKeyModel,
    /// The tooltip text, if the field carries one.
    pub tooltip: Option<Seq<char>>,
    /// The control emitted for the field.
    pub control: WidgetControlModel,
    /// Whether the control accepts input.
    pub interactive: bool,
}

impl View for FieldWidget {
    type V = FieldWidgetModel;

    open spec fn view(&self) -> FieldWidgetModel {
        FieldWidgetModel {
            label: self.label@,
            key: self.key@,
            tooltip: match self.tooltip {
                Some(t) => Some(t@),
                None => None,
            },
            control: self.control@,
            interactive: self.interactive,
        }
    }
}

/// The single combination control emitted for a plain enumeration.
#[derive(Debug, Clone, PartialEq, Eq)]
pub struct ComboWidget {
    /// The enumeration's own name, labelling the control.
    pub enum_name: String,
    /// The selectable options: the variant names in declaration
    /// order.
    pub options: Vec<String>,
    /// Whether the control accepts input; the read-only path uses the
    /// identical control disabled for interaction.
    pub interactive: bool,
}

/// The mathematical model of a [`ComboWidget`].
pub struct ComboWidgetModel {
    /// The enumeration's own name.
    pub enum_name: Seq<char>,
    /// The variant names in declaration order.
    pub options: Seq<Seq<char>>,
    /// Whether the control accepts input.
    pub interactive: bool,
}

impl View for ComboWidget {
    type V = ComboWidgetModel;

    open spec fn view(&self) -> ComboWidgetModel {
        ComboWidgetModel {
            enum_name: self.enum_name@,
            options: self.options.deep_view(),
            interactive: self.interactive,
        }
    }
}

/// The body of one rendering procedure: a widget per kept field, or
/// one combination control for a plain enumeration.
#[derive(Debug, Clone, PartialEq, Eq)]
pub enum ProcBody {
    /// One widget per kept field, in declaration order.
    Fields(Vec<FieldWidget>),
    /// The single combination control of a plain enumeration.
    Combo(ComboWidget),
}

/// The mathematical model of a [`ProcBody`].
pub enum ProcBodyModel {
    /// Model of [`ProcBody::Fields`].
    Fields(Seq<FieldWidgetModel>),
    /// Model of [`ProcBody::Combo`].
    Combo(ComboWidgetModel),
}

/// The models of a sequence of field widgets.
pub open spec fn widget_views(s: Seq<FieldWidget>) -> Seq<FieldWidgetModel> {
    s.map_values(|w: FieldWidget| w@)
}

impl View for ProcBody {
    type V = ProcBodyModel;

    open spec fn view(&self) -> ProcBodyModel {
        match self {
            ProcBody::Fields(ws) => ProcBodyModel::Fields(widget_views(ws@)),
            ProcBody::Combo(c) => ProcBodyModel::Combo(c@),
        }
    }
}

/// One generated rendering procedure: the menu-bar items (mutable
/// path only), the item-level tooltip, the body, and the buttons
/// (mutable path only).
#[derive(Debug, Clone, PartialEq, Eq)]
pub struct RenderProc {
    /// Whether this is the mutable path.
    pub mutable: bool,
    /// The type-level tooltip, if one is present.
    pub tooltip: Option<String>,
    /// The main-menu items, in order; empty on the read-only path.
    pub menu_items: Vec<MainMenuItem>,
    /// The body of the procedure.
    pub body: ProcBody,
    /// The buttons, in order; empty on the read-only path.
    pub buttons: Vec<Button>,
}

/// The mathematical model of a [`RenderProc`].
pub struct RenderProcModel {
    /// Whether this is the mutable path.
    pub mutable: bool,
    /// The type-level tooltip, if one is present.
    pub tooltip: Option<Seq<char>>,
    /// The main-menu items, in order.
    pub menu_items: Seq<MainMenuItemModel>,
    /// The body of the procedure.
    pub body: ProcBodyModel,
    /// The buttons, in order.
    pub buttons: Seq<ButtonModel>,
}

impl View for RenderProc {
    type V = RenderProcModel;

    open spec fn view(&self) -> RenderProcModel {
        RenderProcModel {
            mutable: self.mutable,
            tooltip: match self.tooltip {
                Some(t) => Some(t@),
                None => None,
            },
            menu_items: self.menu_items@.map_values(|m: MainMenuItem| m@),
            body: self.body@,
            buttons: self.buttons@.map_values(|b: Button| b@),
        }
    }
}

/// The per-backend output of one generation request: the read-only
/// procedure, the mutable procedure unless the type is read-only, and
/// whether the standalone-window wrapper must enable the menu bar.
#[derive(Debug, Clone, PartialEq, Eq)]
pub struct GeneratedPresentation {
    /// The backend the code is generated for.
    pub backend: Backend,
    /// The name of the presented type.
    pub target_name: String,
    /// The read-only rendering procedure.
    pub read_proc: RenderProc,
    /// The mutable rendering procedure; absent when the type carries
    /// the `readonly` flag.
    pub mut_proc: Option<RenderProc>,
    /// Whether the standalone-window wrapper enables the menu bar.
    pub has_menu_bar: bool,
}

/// The mathematical model of a [`GeneratedPresentation`].
pub struct PresentationModel {
    /// The backend the code is generated for.
    pub backend: Backend,
    /// The name of the presented type.
    pub target_name: Seq<char>,
    /// The read-only rendering procedure.
    pub read_proc: RenderProcModel,
    /// The mutable rendering procedure.
    pub mut_proc: Option<RenderProcModel>,
    /// Whether the standalone-window wrapper enables the menu bar.
    pub has_menu_bar: bool,
}

impl View for GeneratedPresentation {
    type V = PresentationModel;

    open spec fn view(&self) -> PresentationModel {
        PresentationModel {
            backend: self.backend,
            target_name: self.target_name@,
            read_proc: self.read_proc@,
            mut_proc: match &self.mut_proc {
                Some(p) => Some(p@),
                None => None,
            },
            has_menu_bar: self.has_menu_bar,
        }
    }
}

/// The display label of one field. A named field uses its rename
/// override if present, else its identifier. The only field of a
/// one-field tuple struct is labelled with the type's own name; a
/// field of a wider tuple struct is labelled `TypeName.position`.
pub open spec fn display_label(struct_name: Seq<char>, f: FieldDescModel, total: int) -> Seq<
    char,
> {
    match f.name {
        Some(id) => match first_rename_from(f.attributes, 0) {
            Some(r) => r,
            None => id,
        },
        None => if total == 1 {
            struct_name
        } else {
            struct_name + "."@ + dec_str(f.position)
        },
    }
}

/// How the generated code reaches one field.
pub open spec fn field_key_model(f: FieldDescModel) -> FieldKeyModel {
    match f.name {
        Some(id) => FieldKeyModel::Named(id),
        None => FieldKeyModel::Index(f.position),
    }
}

/// The control emitted for one field. A numeric primitive gets a drag
/// widget whose format and range come from the field's attributes and
/// whose increment falls back to a type-dependent default, smaller
/// for floating-point than for integer widgets.
pub open spec fn control_model(f: FieldDescModel) -> WidgetControlModel {
    match classify_name(f.type_label) {
        FieldClass::Numeric => WidgetControlModel::NumericDrag {
            type_label: f.type_label,
            format: first_format_from(f.attributes, 0),
            range: first_range_from(f.attributes, 0),
            speed: match first_speed_from(f.attributes, 0) {
                Some(s) => s,
                None => if is_float_name(f.type_label) {
                    "0.001f32"@
                } else {
                    "0.2f32"@
                },
            },
        },
        FieldClass::Boolean => WidgetControlModel::Toggle,
        FieldClass::Text => WidgetControlModel::Text,
        FieldClass::Nested => WidgetControlModel::Nested,
    }
}

/// Everything emitted for one field: label, key, tooltip, control,
/// and whether it is interactive. A field-level `readonly` forces the
/// inert rendering branch even on the mutable path.
pub open spec fn widget_model(
    struct_name: Seq<char>,
    total: int,
    f: FieldDescModel,
    mutable: bool,
) -> FieldWidgetModel {
    FieldWidgetModel {
        label: display_label(struct_name, f, total),
        key: field_key_model(f),
        tooltip: tooltip_or_docs(f.attributes),
        control: control_model(f),
        interactive: mutable && !f.attributes.contains(AttrModel::ReadOnly),
    }
}

/// The widgets of all fields from `i` on: a field carrying `skip`
/// contributes nothing and changes nothing else, since positions were
/// assigned before filtering.
pub open spec fn widgets_model_from(
    struct_name: Seq<char>,
    total: int,
    fs: Seq<FieldDescModel>,
    mutable: bool,
    i: int,
) -> Seq<FieldWidgetModel>
    decreases fs.len() - i,
{
    if i < 0 || i >= fs.len() {
        Seq::empty()
    } else if fs[i].attributes.contains(AttrModel::Skip) {
        widgets_model_from(struct_name, total, fs, mutable, i + 1)
    } else {
        seq![widget_model(struct_name, total, fs[i], mutable)] + widgets_model_from(
            struct_name,
            total,
            fs,
            mutable,
            i + 1,
        )
    }
}

/// Emits the widget for one struct field.
pub fn generate_ui_field_for_struct(
    struct_name: &str,
    field: &FieldDescriptor,
    total_field_count: usize,
    mutable: bool,
) -> (r: FieldWidget)
    ensures
        r@ == widget_model(struct_name@, total_field_count as int, field@, mutable),
{
    let label = match &field.name {
        Some(id) => match field.attributes.get_rename() {
            Some(rn) => rn.to_owned(),
            None => id.clone(),
        },
        None => if total_field_count == 1 {
            struct_name.to_owned()
        } else {
            let mut l = struct_name.to_owned();
            l.append(".");
            l.append(usize_to_string(field.position).as_str());
            proof {
                assert(l@ =~= struct_name@ + "."@ + dec_str(field.position as int));
            }
            l
        },
    };
    let key = match &field.name {
        Some(id) => FieldKey::Named(id.clone()),
        None => FieldKey::Index(field.position),
    };
    let tooltip = field.attributes.get_tooltip_or_documentation();
    let control = match classify(field.type_label.as_str()) {
        FieldClass::Numeric => {
            let format = match field.attributes.get_format() {
                Some(f) => Some(f.to_owned()),
                None => None,
            };
            let range = field.attributes.get_range();
            let speed = match field.attributes.get_speed() {
                Some(s) => s.to_owned(),
                None => {
                    if str_eq(field.type_label.as_str(), "f32") || str_eq(
                        field.type_label.as_str(),
                        "f64",
                    ) {
                        String::from_str("0.001f32")
                    } else {
                        String::from_str("0.2f32")
                    }
                },
            };
            WidgetControl::NumericDrag {
                type_label: field.type_label.clone(),
                format,
                range,
                speed,
            }
        },
        FieldClass::Boolean => WidgetControl::Toggle,
        FieldClass::Text => WidgetControl::Text,
        FieldClass::Nested => WidgetControl::Nested,
    };
    let interactive = mutable && !field.attributes.has_readonly();
    FieldWidget { label, key, tooltip, control, interactive }
}

/// Emits the widgets of all kept fields, in declaration order.
fn build_widgets(
    struct_name: &str,
    fields: &Vec<FieldDescriptor>,
    mutable: bool,
) -> (r: Vec<FieldWidget>)
    ensures
        widget_views(r@) == widgets_model_from(
            struct_name@,
            fields@.len() as int,
            field_desc_views(fields@),
            mutable,
            0,
        ),
{
    let ghost fvs = field_desc_views(fields@);
    let ghost total = fields@.len() as int;
    let total_field_count = fields.len();
    let n = fields.len();
    let mut out: Vec<FieldWidget> = Vec::new();
    let mut i: usize = 0;
    while i < n
        invariant
            i <= n,
            n == fields@.len(),
            total_field_count == n,
            fvs == field_desc_views(fields@),
            total == n as int,
            widgets_model_from(struct_name@, total, fvs, mutable, 0) == widget_views(out@)
                + widgets_model_from(struct_name@, total, fvs, mutable, i as int),
        decreases n - i,
    {
        if !fields[i].attributes.has_skip() {
            let w = generate_ui_field_for_struct(struct_name, &fields[i], total_field_count, mutable);
            let ghost prev = widget_views(out@);
            out.push(w);
            proof {
                assert(widget_views(out@) =~= prev.push(w@));
                assert(prev.push(w@) + widgets_model_from(struct_name@, total, fvs, mutable, i + 1)
                    =~= prev + (seq![w@] + widgets_model_from(
                    struct_name@,
                    total,
                    fvs,
                    mutable,
                    i + 1,
                )));
            }
        }
        i = i + 1;
    }
    proof {
        assert(widget_views(out@) + Seq::<FieldWidgetModel>::empty() =~= widget_views(out@));
    }
    out
}

/// The read-only procedure of a struct: no menu items, no buttons.
pub open spec fn struct_read_proc_model(
    name: Seq<char>,
    fs: Seq<FieldDescModel>,
    type_attrs: Seq<AttrModel>,
) -> RenderProcModel {
    RenderProcModel {
        mutable: false,
        tooltip: tooltip_or_docs(type_attrs),
        menu_items: Seq::empty(),
        body: ProcBodyModel::Fields(widgets_model_from(name, fs.len() as int, fs, false, 0)),
        buttons: Seq::empty(),
    }
}

/// The mutable procedure of a struct: menu items and buttons are only
/// rendered here.
pub open spec fn struct_mut_proc_model(
    name: Seq<char>,
    fs: Seq<FieldDescModel>,
    type_attrs: Seq<AttrModel>,
) -> RenderProcModel {
    RenderProcModel {
        mutable: true,
        tooltip: tooltip_or_docs(type_attrs),
        menu_items: menu_items_from(type_attrs, 0),
        body: ProcBodyModel::Fields(widgets_model_from(name, fs.len() as int, fs, true, 0)),
        buttons: buttons_from(type_attrs, 0),
    }
}

/// The presentation of a struct for one backend. A type-level
/// `readonly` suppresses the mutable procedure altogether; menu-bar
/// items override the standalone-window wrapper.
pub open spec fn gen_struct_model(
    name: Seq<char>,
    fs: Seq<FieldDescModel>,
    type_attrs: Seq<AttrModel>,
    backend: Backend,
) -> PresentationModel {
    PresentationModel {
        backend,
        target_name: name,
        read_proc: struct_read_proc_model(name, fs, type_attrs),
        mut_proc: if type_attrs.contains(AttrModel::ReadOnly) {
            None
        } else {
            Some(struct_mut_proc_model(name, fs, type_attrs))
        },
        has_menu_bar: menu_items_from(type_attrs, 0).len() > 0,
    }
}

/// Emits the presentation of a struct for one backend.
pub fn generate_for_backend(
    struct_name: &str,
    fields: &Vec<FieldDescriptor>,
    struct_attributes: &Attributes,
    backend: Backend,
) -> (r: GeneratedPresentation)
    ensures
        r@ == gen_struct_model(
            struct_name@,
            field_desc_views(fields@),
            struct_attributes@,
            backend,
        ),
{
    let tooltip = struct_attributes.get_tooltip_or_documentation();
    let mut_tooltip = match &tooltip {
        Some(t) => Some(t.clone()),
        None => None,
    };
    let read_widgets = build_widgets(struct_name, fields, false);
    let no_menu: Vec<MainMenuItem> = Vec::new();
    let no_buttons: Vec<Button> = Vec::new();
    proof {
        assert(no_menu@.map_values(|m: MainMenuItem| m@) =~= Seq::<MainMenuItemModel>::empty());
        assert(no_buttons@.map_values(|b: Button| b@) =~= Seq::<ButtonModel>::empty());
    }
    let read_proc = RenderProc {
        mutable: false,
        tooltip,
        menu_items: no_menu,
        body: ProcBody::Fields(read_widgets),
        buttons: no_buttons,
    };
    let menu_items = struct_attributes.get_main_menu_items();
    let has_menu_bar = menu_items.len() > 0;
    let mut_proc = if struct_attributes.has_readonly() {
        None
    } else {
        let mut_widgets = build_widgets(struct_name, fields, true);
        Some(
            RenderProc {
                mutable: true,
                tooltip: mut_tooltip,
                menu_items,
                body: ProcBody::Fields(mut_widgets),
                buttons: struct_attributes.get_buttons(),
            },
        )
    };
    GeneratedPresentation {
        backend,
        target_name: struct_name.to_owned(),
        read_proc,
        mut_proc,
        has_menu_bar,
    }
}

/// The variant names in declaration order: the selectable options of
/// the combination control.
pub open spec fn options_model(vs: Seq<VariantDescModel>) -> Seq<Seq<char>> {
    vs.map_values(|v: VariantDescModel| v.name)
}

/// The combination control of a plain enumeration.
pub open spec fn combo_model(
    name: Seq<char>,
    vs: Seq<VariantDescModel>,
    interactive: bool,
) -> ComboWidgetModel {
    ComboWidgetModel { enum_name: name, options: options_model(vs), interactive }
}

/// Emits the combination control for a plain enumeration: one control
/// whose options are the variant names in declaration order. The
/// read-only path uses the identical control disabled for
/// interaction.
pub fn generate_ui_field_for_pod_enum(
    enum_name: &str,
    variants: &Vec<VariantDescriptor>,
    mutable: bool,
) -> (r: ComboWidget)
    ensures
        r@ == combo_model(enum_name@, variant_desc_views(variants@), mutable),
{
    let ghost vvs = variant_desc_views(variants@);
    let n = variants.len();
    let mut options: Vec<String> = Vec::new();
    let mut i: usize = 0;
    while i < n
        invariant
            i <= n,
            n == variants@.len(),
            vvs == variant_desc_views(variants@),
            options.deep_view() == options_model(vvs).take(i as int),
        decreases n - i,
    {
        let ghost prev = options.deep_view();
        options.push(variants[i].name.clone());
        proof {
            assert(options.deep_view() =~= prev.push(vvs[i as int].name));
            assert(prev.push(vvs[i as int].name) =~= options_model(vvs).take(i + 1));
        }
        i = i + 1;
    }
    proof {
        assert(options_model(vvs).take(n as int) =~= options_model(vvs));
    }
    ComboWidget { enum_name: enum_name.to_owned(), options, interactive: mutable }
}

/// The read-only procedure of a plain enumeration.
pub open spec fn enum_read_proc_model(
    name: Seq<char>,
    vs: Seq<VariantDescModel>,
    type_attrs: Seq<AttrModel>,
) -> RenderProcModel {
    RenderProcModel {
        mutable: false,
        tooltip: tooltip_or_docs(type_attrs),
        menu_items: Seq::empty(),
        body: ProcBodyModel::Combo(combo_model(name, vs, false)),
        buttons: Seq::empty(),
    }
}

/// The mutable procedure of a plain enumeration.
pub open spec fn enum_mut_proc_model(
    name: Seq<char>,
    vs: Seq<VariantDescModel>,
    type_attrs: Seq<AttrModel>,
) -> RenderProcModel {
    RenderProcModel {
        mutable: true,
        tooltip: tooltip_or_docs(type_attrs),
        menu_items: menu_items_from(type_attrs, 0),
        body: ProcBodyModel::Combo(combo_model(name, vs, true)),
        buttons: buttons_from(type_attrs, 0),
    }
}

/// The presentation of a plain enumeration for one backend.
pub open spec fn gen_enum_model(
    name: Seq<char>,
    vs: Seq<VariantDescModel>,
    type_attrs: Seq<AttrModel>,
    backend: Backend,
) -> PresentationModel {
    PresentationModel {
        backend,
        target_name: name,
        read_proc: enum_read_proc_model(name, vs, type_attrs),
        mut_proc: if type_attrs.contains(AttrModel::ReadOnly) {
            None
        } else {
            Some(enum_mut_proc_model(name, vs, type_attrs))
        },
        has_menu_bar: menu_items_from(type_attrs, 0).len() > 0,
    }
}

/// Emits the presentation of a plain enumeration for one backend.
fn generate_enum_for_backend(
    enum_name: &str,
    variants: &Vec<VariantDescriptor>,
    type_attributes: &Attributes,
    backend: Backend,
) -> (r: GeneratedPresentation)
    ensures
        r@ == gen_enum_model(
            enum_name@,
            variant_desc_views(variants@),
            type_attributes@,
            backend,
        ),
{
    let tooltip = type_attributes.get_tooltip_or_documentation();
    let mut_tooltip = match &tooltip {
        Some(t) => Some(t.clone()),
        None => None,
    };
    let read_combo = generate_ui_field_for_pod_enum(enum_name, variants, false);
    let no_menu: Vec<MainMenuItem> = Vec::new();
    let no_buttons: Vec<Button> = Vec::new();
    proof {
        assert(no_menu@.map_values(|m: MainMenuItem| m@) =~= Seq::<MainMenuItemModel>::empty());
        assert(no_buttons@.map_values(|b: Button| b@) =~= Seq::<ButtonModel>::empty());
    }
    let read_proc = RenderProc {
        mutable: false,
        tooltip,
        menu_items: no_menu,
        body: ProcBody::Combo(read_combo),
        buttons: no_buttons,
    };
    let menu_items = type_attributes.get_main_menu_items();
    let has_menu_bar = menu_items.len() > 0;
    let mut_proc = if type_attributes.has_readonly() {
        None
    } else {
        let mut_combo = generate_ui_field_for_pod_enum(enum_name, variants, true);
        Some(
            RenderProc {
                mutable: true,
                tooltip: mut_tooltip,
                menu_items,
                body: ProcBody::Combo(mut_combo),
                buttons: type_attributes.get_buttons(),
            },
        )
    };
    GeneratedPresentation {
        backend,
        target_name: enum_name.to_owned(),
        read_proc,
        mut_proc,
        has_menu_bar,
    }
}

/// The backends to emit for: the configured ones, narrowed to the
/// chosen ones when the type declares any `backend` attribute.
pub open spec fn selected_backends_from(
    configured: Seq<Backend>,
    chosen: Seq<Backend>,
    i: int,
) -> Seq<Backend>
    decreases configured.len() - i,
{
    if i < 0 || i >= configured.len() {
        Seq::empty()
    } else if chosen.len() == 0 || chosen.contains(configured[i]) {
        seq![configured[i]] + selected_backends_from(configured, chosen, i + 1)
    } else {
        selected_backends_from(configured, chosen, i + 1)
    }
}

/// Whether `b` stands among `v`.
fn contains_backend(v: &Vec<Backend>, b: Backend) -> (r: bool)
    ensures
        r == v@.contains(b),
{
    let n = v.len();
    let mut i: usize = 0;
    while i < n
        invariant
            i <= n,
            n == v@.len(),
            forall|j: int| 0 <= j < i ==> v@[j] != b,
        decreases n - i,
    {
        if v[i] == b {
            return true;
        }
        i = i + 1;
    }
    false
}

/// Narrows the configured backends to the chosen ones; with no choice
/// declared, every configured backend is kept.
fn select_backends(configured: &Vec<Backend>, chosen: &Vec<Backend>) -> (r: Vec<Backend>)
    ensures
        r@ == selected_backends_from(configured@, chosen@, 0),
{
    let n = configured.len();
    let mut out: Vec<Backend> = Vec::new();
    let mut i: usize = 0;
    while i < n
        invariant
            i <= n,
            n == configured@.len(),
            selected_backends_from(configured@, chosen@, 0) == out@ + selected_backends_from(
                configured@,
                chosen@,
                i as int,
            ),
        decreases n - i,
    {
        if chosen.len() == 0 || contains_backend(chosen, configured[i]) {
            out.push(configured[i]);
            proof {
                assert(selected_backends_from(configured@, chosen@, 0) =~= out@
                    + selected_backends_from(configured@, chosen@, i + 1));
            }
        }
        i = i + 1;
    }
    proof {
        assert(out@ + Seq::<Backend>::empty() =~= out@);
    }
    out
}

/// The struct presentations for the selected backends, in order.
pub open spec fn struct_presentations_from(
    name: Seq<char>,
    fs: Seq<FieldDescModel>,
    type_attrs: Seq<AttrModel>,
    sel: Seq<Backend>,
    i: int,
) -> Seq<PresentationModel>
    decreases sel.len() - i,
{
    if i < 0 || i >= sel.len() {
        Seq::empty()
    } else {
        seq![gen_struct_model(name, fs, type_attrs, sel[i])] + struct_presentations_from(
            name,
            fs,
            type_attrs,
            sel,
            i + 1,
        )
    }
}

/// The enumeration presentations for the selected backends, in order.
pub open spec fn enum_presentations_from(
    name: Seq<char>,
    vs: Seq<VariantDescModel>,
    type_attrs: Seq<AttrModel>,
    sel: Seq<Backend>,
    i: int,
) -> Seq<PresentationModel>
    decreases sel.len() - i,
{
    if i < 0 || i >= sel.len() {
        Seq::empty()
    } else {
        seq![gen_enum_model(name, vs, type_attrs, sel[i])] + enum_presentations_from(
            name,
            vs,
            type_attrs,
            sel,
            i + 1,
        )
    }
}

/// The models of a sequence of generated presentations.
pub open spec fn presentation_views(s: Seq<GeneratedPresentation>) -> Seq<PresentationModel> {
    s.map_values(|p: GeneratedPresentation| p@)
}

/// What one whole generation request yields for the configured
/// backends: the attribute failures of the type itself, the
/// validation of its shape, and one presentation per selected
/// backend; or the diagnostic that rejects the request.
pub open spec fn derive_model(t: TypeInputModel, backends: Seq<Backend>) -> Result<
    Seq<PresentationModel>,
    GenErrorModel,
> {
    if parse_failures(t.annotations).len() > 0 {
        Err(GenErrorModel::Attributes(parse_failures(t.annotations)))
    } else {
        let type_attrs = with_docs(parsed_attrs(t.annotations), t.docs);
        if type_attrs.contains(AttrModel::Skip) {
            Err(GenErrorModel::SkipOnType)
        } else {
            let sel = selected_backends_from(backends, backends_from(type_attrs, 0), 0);
            match t.shape {
                ShapeInputModel::Named(fs) => if fs.len() == 0 {
                    Err(GenErrorModel::EmptyType)
                } else {
                    match inspect_fields_from(fs, 0) {
                        Ok(ds) => Ok(struct_presentations_from(t.name, ds, type_attrs, sel, 0)),
                        Err(e) => Err(e),
                    }
                },
                ShapeInputModel::Tuple(fs) => if fs.len() == 0 {
                    Err(GenErrorModel::EmptyType)
                } else {
                    match inspect_fields_from(fs, 0) {
                        Ok(ds) => Ok(struct_presentations_from(t.name, ds, type_attrs, sel, 0)),
                        Err(e) => Err(e),
                    }
                },
                ShapeInputModel::Unit => Err(GenErrorModel::EmptyType),
                ShapeInputModel::Enum(vs) => if vs.len() == 0 {
                    Err(GenErrorModel::EmptyType)
                } else if !all_plain(vs) {
                    Err(GenErrorModel::NonPlainEnum)
                } else {
                    Ok(
                        enum_presentations_from(
                            t.name,
                            inspect_variants_from(vs, 0),
                            type_attrs,
                            sel,
                            0,
                        ),
                    )
                },
            }
        }
    }
}

/// Emits the presentations of a plain enumeration for every selected
/// backend.
pub fn derive_for_pod_enum(
    enum_name: &str,
    variants: &Vec<VariantDescriptor>,
    type_attributes: &Attributes,
    backends: &Vec<Backend>,
) -> (r: Vec<GeneratedPresentation>)
    ensures
        presentation_views(r@) == enum_presentations_from(
            enum_name@,
            variant_desc_views(variants@),
            type_attributes@,
            selected_backends_from(backends@, backends_from(type_attributes@, 0), 0),
            0,
        ),
{
    let chosen = type_attributes.get_backends();
    let sel = select_backends(backends, &chosen);
    let ghost selg = sel@;
    let n = sel.len();
    let mut out: Vec<GeneratedPresentation> = Vec::new();
    let mut i: usize = 0;
    while i < n
        invariant
            i <= n,
            n == sel@.len(),
            selg == sel@,
            enum_presentations_from(
                enum_name@,
                variant_desc_views(variants@),
                type_attributes@,
                selg,
                0,
            ) == presentation_views(out@) + enum_presentations_from(
                enum_name@,
                variant_desc_views(variants@),
                type_attributes@,
                selg,
                i as int,
            ),
        decreases n - i,
    {
        let p = generate_enum_for_backend(enum_name, variants, type_attributes, sel[i]);
        let ghost prev = presentation_views(out@);
        out.push(p);
        proof {
            assert(presentation_views(out@) =~= prev.push(p@));
            assert(prev.push(p@) + enum_presentations_from(
                enum_name@,
                variant_desc_views(variants@),
                type_attributes@,
                selg,
                i + 1,
            ) =~= prev + (seq![p@] + enum_presentations_from(
                enum_name@,
                variant_desc_views(variants@),
                type_attributes@,
                selg,
                i + 1,
            )));
        }
        i = i + 1;
    }
    proof {
        assert(presentation_views(out@) + Seq::<PresentationModel>::empty() =~= presentation_views(
            out@,
        ));
    }
    out
}

/// Derives the presentations of a struct: validates the type-level
/// attributes and the shape, inspects the fields, and emits one
/// presentation per selected backend.
pub fn derive_for_struct(input: &TypeInput, backends: &Vec<Backend>) -> (r: Result<
    Vec<GeneratedPresentation>,
    GenError,
>)
    requires
        !(input@.shape is Enum),
    ensures
        ({
            let m = derive_model(input@, backends@);
            match r {
                Ok(ps) => m == Ok::<Seq<PresentationModel>, GenErrorModel>(
                    presentation_views(ps@),
                ),
                Err(e) => m == Err::<Seq<PresentationModel>, GenErrorModel>(e@),
            }
        }),
{
    let anns = input.annotations.as_slice();
    let dcs = input.docs.as_slice();
    proof {
        assert(input@.annotations =~= anns.deep_view());
        assert(input@.docs =~= dcs.deep_view());
    }
    let type_attrs = match Attributes::parse_many(anns, dcs) {
        Ok(a) => a,
        Err(e) => {
            return Err(GenError::Attributes(e));
        },
    };
    if type_attrs.has_skip() {
        return Err(GenError::SkipOnType);
    }
    let fields = match &input.shape {
        ShapeInput::Named(fs) => fs,
        ShapeInput::Tuple(fs) => fs,
        ShapeInput::Unit => {
            return Err(GenError::EmptyType);
        },
        ShapeInput::Enum(_) => {
            proof {
                assert(false);
            }
            return Err(GenError::EmptyType);
        },
    };
    if fields.len() == 0 {
        return Err(GenError::EmptyType);
    }
    let descriptors = match inspect_struct_fields(fields) {
        Ok(d) => d,
        Err(e) => {
            return Err(e);
        },
    };
    let chosen = type_attrs.get_backends();
    let sel = select_backends(backends, &chosen);
    let ghost selg = sel@;
    let ghost dvs = field_desc_views(descriptors@);
    let n = sel.len();
    let mut out: Vec<GeneratedPresentation> = Vec::new();
    let mut i: usize = 0;
    while i < n
        invariant
            i <= n,
            n == sel@.len(),
            selg == sel@,
            dvs == field_desc_views(descriptors@),
            struct_presentations_from(input@.name, dvs, type_attrs@, selg, 0)
                == presentation_views(out@) + struct_presentations_from(
                input@.name,
                dvs,
                type_attrs@,
                selg,
                i as int,
            ),
        decreases n - i,
    {
        let p = generate_for_backend(input.name.as_str(), &descriptors, &type_attrs, sel[i]);
        let ghost prev = presentation_views(out@);
        out.push(p);
        proof {
            assert(presentation_views(out@) =~= prev.push(p@));
            assert(prev.push(p@) + struct_presentations_from(
                input@.name,
                dvs,
                type_attrs@,
                selg,
                i + 1,
            ) =~= prev + (seq![p@] + struct_presentations_from(
                input@.name,
                dvs,
                type_attrs@,
                selg,
                i + 1,
            )));
        }
        i = i + 1;
    }
    proof {
        assert(presentation_views(out@) + Seq::<PresentationModel>::empty() =~= presentation_views(
            out@,
        ));
    }
    Ok(out)
}

/// Derives the presentations of an enumeration: validates the
/// type-level attributes, rejects empty and payload-carrying
/// enumerations, and emits one presentation per selected backend.
pub fn derive_for_enum(input: &TypeInput, backends: &Vec<Backend>) -> (r: Result<
    Vec<GeneratedPresentation>,
    GenError,
>)
    requires
        input@.shape is Enum,
    ensures
        ({
            let m = derive_model(input@, backends@);
            match r {
                Ok(ps) => m == Ok::<Seq<PresentationModel>, GenErrorModel>(
                    presentation_views(ps@),
                ),
                Err(e) => m == Err::<Seq<PresentationModel>, GenErrorModel>(e@),
            }
        }),
{
    let anns = input.annotations.as_slice();
    let dcs = input.docs.as_slice();
    proof {
        assert(input@.annotations =~= anns.deep_view());
        assert(input@.docs =~= dcs.deep_view());
    }
    let type_attrs = match Attributes::parse_many(anns, dcs) {
        Ok(a) => a,
        Err(e) => {
            return Err(GenError::Attributes(e));
        },
    };
    if type_attrs.has_skip() {
        return Err(GenError::SkipOnType);
    }
    let variants = match &input.shape {
        ShapeInput::Enum(vs) => vs,
        _ => {
            proof {
                assert(false);
            }
            return Err(GenError::EmptyType);
        },
    };
    if variants.len() == 0 {
        return Err(GenError::EmptyType);
    }
    let descriptors = match inspect_enum_variants(variants) {
        Ok(d) => d,
        Err(e) => {
            return Err(e);
        },
    };
    proof {
        assert(variant_desc_views(descriptors@) == inspect_variants_from(
            crate::shape::variant_input_views(variants@),
            0,
        ));
    }
    Ok(derive_for_pod_enum(input.name.as_str(), &descriptors, &type_attrs, backends))
}

/// Derives the presentations of a type definition for the given
/// configured backends.
pub fn derive_imgui_presentable_impl_for_backends(
    input: &TypeInput,
    backends: &Vec<Backend>,
) -> (r: Result<Vec<GeneratedPresentation>, GenError>)
    ensures
        ({
            let m = derive_model(input@, backends@);
            match r {
                Ok(ps) => m == Ok::<Seq<PresentationModel>, GenErrorModel>(
                    presentation_views(ps@),
                ),
                Err(e) => m == Err::<Seq<PresentationModel>, GenErrorModel>(e@),
            }
        }),
{
    let is_enum = matches!(&input.shape, ShapeInput::Enum(_));
    if is_enum {
        derive_for_enum(input, backends)
    } else {
        derive_for_struct(input, backends)
    }
}

/// Derives the presentations of a type definition with both backends
/// configured, the default configuration.
pub fn derive_imgui_presentable_impl(input: &TypeInput) -> (r: Result<
    Vec<GeneratedPresentation>,
    GenError,
>)
    ensures
        ({
            let m = derive_model(input@, seq![Backend::Imgui, Backend::Egui]);
            match r {
                Ok(ps) => m == Ok::<Seq<PresentationModel>, GenErrorModel>(
                    presentation_views(ps@),
                ),
                Err(e) => m == Err::<Seq<PresentationModel>, GenErrorModel>(e@),
            }
        }),
{
    let mut backends: Vec<Backend> = Vec::new();
    backends.push(Backend::Imgui);
    backends.push(Backend::Egui);
    proof {
        assert(backends@ =~= seq![Backend::Imgui, Backend::Egui]);
    }
    derive_imgui_presentable_impl_for_backends(input, &backends)
}

} // verus!
