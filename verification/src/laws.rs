//! Laws of the pipeline that relate several functions: proved here,
//! once and for all inputs, over the same models that the functions'
//! own contracts use.

use crate::attributes::error_line;
use crate::attributes::message_model;
use crate::attributes::parsed_attrs;
use crate::attributes::with_docs;
use crate::attributes::AttrModel;
use crate::attributes::AttributeErrorModel;
use crate::emit::derive_model;
use crate::emit::enum_presentations_from;
use crate::emit::gen_enum_model;
use crate::emit::gen_struct_model;
use crate::emit::struct_presentations_from;
use crate::emit::widgets_model_from;
use crate::shape::FieldDescModel;
use crate::shape::TypeInputModel;
use crate::Backend;
use vstd::prelude::*;

verus! {

/// `needle` stands somewhere inside `hay`.
pub open spec fn occurs_in(hay: Seq<char>, needle: Seq<char>) -> bool {
    exists|i: int|
        0 <= i && i + needle.len() <= hay.len() && #[trigger] hay.subrange(i, i + needle.len())
            == needle
}

/// An occurrence in either part survives concatenation.
proof fn lemma_occurs_in_concat(x: Seq<char>, y: Seq<char>, needle: Seq<char>)
    requires
        occurs_in(x, needle) || occurs_in(y, needle),
    ensures
        occurs_in(x + y, needle),
{
    if occurs_in(x, needle) {
        let i = choose|i: int|
            0 <= i && i + needle.len() <= x.len() && #[trigger] x.subrange(i, i + needle.len())
                == needle;
        assert((x + y).subrange(i, i + needle.len() as int) =~= x.subrange(
            i,
            i + needle.len() as int,
        ));
        assert((x + y).subrange(i, i + needle.len() as int) == needle);
    } else {
        let i = choose|i: int|
            0 <= i && i + needle.len() <= y.len() && #[trigger] y.subrange(i, i + needle.len())
                == needle;
        let j = x.len() as int + i;
        assert((x + y).subrange(j, j + needle.len() as int) =~= y.subrange(
            i,
            i + needle.len() as int,
        ));
        assert((x + y).subrange(j, j + needle.len() as int) == needle);
    }
}

/// The payload a failure reports: the unknown key, or the malformed
/// declaration.
pub open spec fn failure_payload(e: AttributeErrorModel) -> Seq<char> {
    match e {
        AttributeErrorModel::Unknown(k) => k,
        AttributeErrorModel::Malformed(d) => d,
    }
}

/// The diagnostic line of one failure holds its payload.
proof fn lemma_line_holds_payload(e: AttributeErrorModel)
    ensures
        occurs_in(error_line(e), failure_payload(e)),
{
    let line = error_line(e);
    let p = failure_payload(e);
    let start = line.len() - p.len();
    assert(line.subrange(start as int, start as int + p.len() as int) =~= p);
}

/// Report everything, fix once: the combined diagnostic of a set of
/// parse failures names every one of them, not only the first. In
/// particular every unrecognized key stands in the failure message.
pub proof fn lemma_message_names_every_failure(fs: Seq<AttributeErrorModel>, j: int)
    requires
        0 <= j < fs.len(),
    ensures
        occurs_in(message_model(fs), failure_payload(fs[j])),
    decreases fs.len(),
{
    if fs.len() == 1 {
        lemma_line_holds_payload(fs[0]);
    } else if j == fs.len() - 1 {
        lemma_line_holds_payload(fs[j]);
        lemma_occurs_in_concat(
            message_model(fs.drop_last()) + "\n"@,
            error_line(fs.last()),
            failure_payload(fs[j]),
        );
        assert(message_model(fs.drop_last()) + "\n"@ + error_line(fs.last())
            =~= (message_model(fs.drop_last()) + "\n"@) + error_line(fs.last()));
    } else {
        lemma_message_names_every_failure(fs.drop_last(), j);
        lemma_occurs_in_concat(
            message_model(fs.drop_last()),
            "\n"@,
            failure_payload(fs[j]),
        );
        lemma_occurs_in_concat(
            message_model(fs.drop_last()) + "\n"@,
            error_line(fs.last()),
            failure_payload(fs[j]),
        );
        assert(message_model(fs.drop_last()) + "\n"@ + error_line(fs.last())
            =~= (message_model(fs.drop_last()) + "\n"@) + error_line(fs.last()));
    }
}

/// The length and the elements of the struct presentation sequence:
/// one presentation per selected backend, in order.
pub proof fn lemma_struct_presentations_props(
    name: Seq<char>,
    fs: Seq<FieldDescModel>,
    type_attrs: Seq<AttrModel>,
    sel: Seq<Backend>,
    i: int,
)
    requires
        0 <= i <= sel.len(),
    ensures
        ({
            let r = struct_presentations_from(name, fs, type_attrs, sel, i);
            &&& r.len() == sel.len() - i
            &&& forall|j: int|
                0 <= j < r.len() ==> r[j] == gen_struct_model(name, fs, type_attrs, sel[i + j])
        }),
    decreases sel.len() - i,
{
    if i < sel.len() {
        lemma_struct_presentations_props(name, fs, type_attrs, sel, i + 1);
    }
}

/// The length and the elements of the enumeration presentation
/// sequence: one presentation per selected backend, in order.
pub proof fn lemma_enum_presentations_props(
    name: Seq<char>,
    vs: Seq<crate::shape::VariantDescModel>,
    type_attrs: Seq<AttrModel>,
    sel: Seq<Backend>,
    i: int,
)
    requires
        0 <= i <= sel.len(),
    ensures
        ({
            let r = enum_presentations_from(name, vs, type_attrs, sel, i);
            &&& r.len() == sel.len() - i
            &&& forall|j: int|
                0 <= j < r.len() ==> r[j] == gen_enum_model(name, vs, type_attrs, sel[i + j])
        }),
    decreases sel.len() - i,
{
    if i < sel.len() {
        lemma_enum_presentations_props(name, vs, type_attrs, sel, i + 1);
    }
}

/// A type carrying the `readonly` flag gets no mutable entry point:
/// when generation succeeds, every emitted presentation exposes only
/// the read-only procedure.
pub proof fn lemma_readonly_suppresses_mutable(t: TypeInputModel, backends: Seq<Backend>, i: int)
    requires
        derive_model(t, backends) is Ok,
        with_docs(parsed_attrs(t.annotations), t.docs).contains(AttrModel::ReadOnly),
        0 <= i < derive_model(t, backends)->Ok_0.len(),
    ensures
        derive_model(t, backends)->Ok_0[i].mut_proc is None,
{
    let type_attrs = with_docs(parsed_attrs(t.annotations), t.docs);
    let sel = crate::emit::selected_backends_from(
        backends,
        crate::attributes::backends_from(type_attrs, 0),
        0,
    );
    match t.shape {
        crate::shape::ShapeInputModel::Named(fs) => {
            let ds = crate::shape::inspect_fields_from(fs, 0)->Ok_0;
            lemma_struct_presentations_props(t.name, ds, type_attrs, sel, 0);
        },
        crate::shape::ShapeInputModel::Tuple(fs) => {
            let ds = crate::shape::inspect_fields_from(fs, 0)->Ok_0;
            lemma_struct_presentations_props(t.name, ds, type_attrs, sel, 0);
        },
        crate::shape::ShapeInputModel::Unit => {},
        crate::shape::ShapeInputModel::Enum(vs) => {
            let ds = crate::shape::inspect_variants_from(vs, 0);
            lemma_enum_presentations_props(t.name, ds, type_attrs, sel, 0);
        },
    }
}

/// Helper for the skip law: walking the field list with the skipped
/// field present, or with it removed, emits the same widgets. The
/// total field count is the declared one either way, since positions
/// and labels were fixed before filtering.
proof fn lemma_skip_helper(
    name: Seq<char>,
    total: int,
    fs: Seq<FieldDescModel>,
    mutable: bool,
    k: int,
    i: int,
)
    requires
        0 <= k < fs.len(),
        fs[k].attributes.contains(AttrModel::Skip),
        0 <= i <= fs.len(),
    ensures
        i <= k ==> widgets_model_from(name, total, fs, mutable, i) == widgets_model_from(
            name,
            total,
            fs.remove(k),
            mutable,
            i,
        ),
        i > k ==> widgets_model_from(name, total, fs, mutable, i) == widgets_model_from(
            name,
            total,
            fs.remove(k),
            mutable,
            i - 1,
        ),
    decreases fs.len() - i,
{
    let g = fs.remove(k);
    fs.remove_ensures(k);
    if i == fs.len() {
    } else {
        lemma_skip_helper(name, total, fs, mutable, k, i + 1);
        if i == k {
        } else if i < k {
            assert(g[i] == fs[i]);
        } else {
            assert(g[i - 1] == fs[i]);
        }
    }
}

/// A field carrying `skip` produces zero widgets on both the
/// read-only and the mutable path, and does not affect the widgets of
/// any other field: the emission equals the emission of the field
/// list with that field left out, labels and positions included.
pub proof fn lemma_skip_field_contributes_nothing(
    name: Seq<char>,
    total: int,
    fs: Seq<FieldDescModel>,
    mutable: bool,
    k: int,
)
    requires
        0 <= k < fs.len(),
        fs[k].attributes.contains(AttrModel::Skip),
    ensures
        widgets_model_from(name, total, fs, mutable, 0) == widgets_model_from(
            name,
            total,
            fs.remove(k),
            mutable,
            0,
        ),
{
    lemma_skip_helper(name, total, fs, mutable, k, 0);
}

} // verus!
