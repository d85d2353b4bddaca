//! Generation succeeds for the same kinds of annotated types that the
//! presentation derive is meant for.

use imgui_presentation::emit::derive_imgui_presentable_impl;
use imgui_presentation::emit::ProcBody;
use imgui_presentation::shape::FieldInput;
use imgui_presentation::shape::ShapeInput;
use imgui_presentation::shape::TypeInput;
use imgui_presentation::shape::VariantInput;

fn named_field(name: &str, declared_type: &str) -> FieldInput {
    FieldInput {
        name: Some(name.to_string()),
        declared_type: declared_type.to_string(),
        annotations: Vec::new(),
        docs: Vec::new(),
    }
}

fn tuple_field(declared_type: &str) -> FieldInput {
    FieldInput {
        name: None,
        declared_type: declared_type.to_string(),
        annotations: Vec::new(),
        docs: Vec::new(),
    }
}

fn named_struct(name: &str, fields: Vec<FieldInput>) -> TypeInput {
    TypeInput {
        name: name.to_string(),
        annotations: Vec::new(),
        docs: Vec::new(),
        shape: ShapeInput::Named(fields),
    }
}

fn variant(name: &str) -> VariantInput {
    VariantInput { name: name.to_string(), discriminant: None, has_payload: false }
}

fn check_that_generates(input: &TypeInput) {
    let generated = derive_imgui_presentable_impl(input).expect("generation should succeed");
    assert_eq!(generated.len(), 2);
    for presentation in &generated {
        assert_eq!(presentation.target_name, input.name);
        assert!(!presentation.read_proc.mutable);
    }
}

#[test]
fn scalar_types() {
    let s = named_struct(
        "ScalarsStruct",
        vec![
            named_field("value_i8", "i8"),
            named_field("value_u8", "u8"),
            named_field("value_i16", "i16"),
            named_field("value_u16", "u16"),
            named_field("value_i32", "i32"),
            named_field("value_u32", "u32"),
            named_field("value_i64", "i64"),
            named_field("value_u64", "u64"),
            named_field("value_isize", "isize"),
            named_field("value_usize", "usize"),
            named_field("value_f32", "f32"),
            named_field("value_f64", "f64"),
            named_field("value_bool", "bool"),
        ],
    );
    check_that_generates(&s);
    let s = TypeInput {
        name: "ScalarsTuple".to_string(),
        annotations: Vec::new(),
        docs: Vec::new(),
        shape: ShapeInput::Tuple(vec![
            tuple_field("i8"),
            tuple_field("u8"),
            tuple_field("i16"),
            tuple_field("u16"),
            tuple_field("i32"),
            tuple_field("u32"),
            tuple_field("i64"),
            tuple_field("u64"),
            tuple_field("f32"),
            tuple_field("f64"),
            tuple_field("isize"),
            tuple_field("usize"),
            tuple_field("bool"),
        ]),
    };
    check_that_generates(&s);
}

#[test]
fn strings() {
    let s = named_struct("StringsOwned", vec![named_field("string_owned", "String")]);
    check_that_generates(&s);
    let s = TypeInput {
        name: "StringsOwnedTuple".to_string(),
        annotations: Vec::new(),
        docs: Vec::new(),
        shape: ShapeInput::Tuple(vec![tuple_field("String"), tuple_field("String")]),
    };
    check_that_generates(&s);
}

#[test]
fn sequential() {
    let s = named_struct(
        "Sequential",
        vec![
            named_field("vector_i8", "Vec<i8>"),
            named_field("btree_set", "BTreeSet<String>"),
            named_field("hash_set", "HashSet<String>"),
        ],
    );
    check_that_generates(&s);
}

#[test]
fn maps() {
    let s = named_struct(
        "Maps",
        vec![
            named_field("btree_map", "BTreeMap<i8, String>"),
            named_field("hash_map", "HashMap<i8, String>"),
        ],
    );
    check_that_generates(&s);
}

#[test]
fn inner_types() {
    let s = named_struct("InnerTypes", vec![named_field("inner_maps", "Maps")]);
    check_that_generates(&s);
    let s = named_struct(
        "InnerTypes2",
        vec![named_field("inner_maps", "BTreeMap<String, InnerTypes>")],
    );
    check_that_generates(&s);
    let s = named_struct("InnerTypes3", vec![named_field("field", "StrictType")]);
    check_that_generates(&s);
}

#[test]
fn pod_enums() {
    let e = TypeInput {
        name: "PodEnum1".to_string(),
        annotations: Vec::new(),
        docs: Vec::new(),
        shape: ShapeInput::Enum(vec![
            variant("Variant1"),
            variant("Variant2"),
            variant("Variant3"),
        ]),
    };
    check_that_generates(&e);
    let e = TypeInput {
        name: "PodEnum2".to_string(),
        annotations: Vec::new(),
        docs: Vec::new(),
        shape: ShapeInput::Enum(vec![
            VariantInput {
                name: "Variant1".to_string(),
                discriminant: Some(2),
                has_payload: false,
            },
            VariantInput {
                name: "Variant2".to_string(),
                discriminant: Some(4),
                has_payload: false,
            },
            VariantInput {
                name: "Variant3".to_string(),
                discriminant: Some(1),
                has_payload: false,
            },
            VariantInput {
                name: "Variant4".to_string(),
                discriminant: Some(100),
                has_payload: false,
            },
        ]),
    };
    check_that_generates(&e);
}

#[test]
fn options() {
    let s = named_struct("Options", vec![named_field("option_string", "Option<String>")]);
    check_that_generates(&s);
}

#[test]
fn collection_is_not_used() {
    let s = TypeInput {
        name: "CollectionIsNotUsedClippy".to_string(),
        annotations: Vec::new(),
        docs: vec![" Doc-comment".to_string()],
        shape: ShapeInput::Named(vec![
            named_field("a", "Option<f32>"),
            named_field("b", "Option<String>"),
        ]),
    };
    check_that_generates(&s);
}

#[test]
fn skip_and_readonly_fields() {
    let s = TypeInput {
        name: "SkipAndReadOnlyFields".to_string(),
        annotations: Vec::new(),
        docs: Vec::new(),
        shape: ShapeInput::Named(vec![
            named_field("do_not_skip_field", "bool"),
            FieldInput {
                name: Some("_skip_field".to_string()),
                declared_type: "bool".to_string(),
                annotations: vec!["skip".to_string()],
                docs: Vec::new(),
            },
            FieldInput {
                name: Some("readonly_field".to_string()),
                declared_type: "bool".to_string(),
                annotations: vec!["readonly".to_string()],
                docs: Vec::new(),
            },
            FieldInput {
                name: Some("_skip_readonly_field".to_string()),
                declared_type: "bool".to_string(),
                annotations: vec!["skip".to_string(), "readonly".to_string()],
                docs: Vec::new(),
            },
        ]),
    };
    let generated = derive_imgui_presentable_impl(&s).expect("generation should succeed");
    for presentation in &generated {
        match &presentation.read_proc.body {
            ProcBody::Fields(widgets) => {
                assert_eq!(widgets.len(), 2);
                assert!(widgets.iter().all(|w| !w.interactive));
            }
            ProcBody::Combo(_) => panic!("a struct renders fields, not a combo"),
        }
        let mutable = presentation.mut_proc.as_ref().expect("not readonly");
        match &mutable.body {
            ProcBody::Fields(widgets) => {
                assert_eq!(widgets.len(), 2);
                assert_eq!(widgets[0].label, "do_not_skip_field");
                assert!(widgets[0].interactive);
                assert_eq!(widgets[1].label, "readonly_field");
                assert!(!widgets[1].interactive);
            }
            ProcBody::Combo(_) => panic!("a struct renders fields, not a combo"),
        }
    }
}

#[test]
fn readonly_struct() {
    let s = TypeInput {
        name: "ReadOnlyStruct".to_string(),
        annotations: vec!["readonly".to_string()],
        docs: Vec::new(),
        shape: ShapeInput::Named(vec![named_field("value", "f32")]),
    };
    let generated = derive_imgui_presentable_impl(&s).expect("generation should succeed");
    assert_eq!(generated.len(), 2);
    for presentation in &generated {
        assert!(presentation.mut_proc.is_none());
    }
}

#[test]
fn struct_with_formatted_field() {
    let s = TypeInput {
        name: "StructWithFormattedField".to_string(),
        annotations: Vec::new(),
        docs: Vec::new(),
        shape: ShapeInput::Named(vec![FieldInput {
            name: Some("value".to_string()),
            declared_type: "f32".to_string(),
            annotations: vec!["format = \"%.2f dollars\"".to_string()],
            docs: Vec::new(),
        }]),
    };
    let generated = derive_imgui_presentable_impl(&s).expect("generation should succeed");
    for presentation in &generated {
        match &presentation.read_proc.body {
            ProcBody::Fields(widgets) => match &widgets[0].control {
                imgui_presentation::emit::WidgetControl::NumericDrag { format, .. } => {
                    assert_eq!(format.as_deref(), Some("%.2f dollars"));
                }
                _ => panic!("an f32 field renders a numeric drag"),
            },
            ProcBody::Combo(_) => panic!("a struct renders fields, not a combo"),
        }
    }
}

#[test]
fn struct_with_doc_comment_field() {
    let s = TypeInput {
        name: "StructWithDocCommentField".to_string(),
        annotations: Vec::new(),
        docs: Vec::new(),
        shape: ShapeInput::Named(vec![FieldInput {
            name: Some("value".to_string()),
            declared_type: "f32".to_string(),
            annotations: vec!["format = \"%.2f dollars\"".to_string()],
            docs: vec![" This is the way.".to_string()],
        }]),
    };
    let generated = derive_imgui_presentable_impl(&s).expect("generation should succeed");
    for presentation in &generated {
        match &presentation.read_proc.body {
            ProcBody::Fields(widgets) => {
                assert_eq!(widgets[0].tooltip.as_deref(), Some("This is the way."));
            }
            ProcBody::Combo(_) => panic!("a struct renders fields, not a combo"),
        }
    }
}

#[test]
fn struct_with_tooltip() {
    let s = TypeInput {
        name: "StructWithToolTip".to_string(),
        annotations: vec!["tooltip = \"asd\"".to_string()],
        docs: Vec::new(),
        shape: ShapeInput::Named(vec![named_field("value", "f32")]),
    };
    let generated = derive_imgui_presentable_impl(&s).expect("generation should succeed");
    for presentation in &generated {
        assert_eq!(presentation.read_proc.tooltip.as_deref(), Some("asd"));
    }
}
