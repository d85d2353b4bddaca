//! Generation scenarios, end to end: the whole pipeline from an
//! annotated type definition to the structured presentation, and
//! every diagnostic that can reject a request.

use imgui_presentation::emit::derive_imgui_presentable_impl;
use imgui_presentation::emit::derive_imgui_presentable_impl_for_backends;
use imgui_presentation::emit::ProcBody;
use imgui_presentation::emit::WidgetControl;
use imgui_presentation::shape::select_variant;
use imgui_presentation::shape::FieldInput;
use imgui_presentation::shape::ShapeInput;
use imgui_presentation::shape::TypeInput;
use imgui_presentation::shape::VariantInput;
use imgui_presentation::Backend;

fn plain_struct(name: &str, fields: Vec<FieldInput>) -> TypeInput {
    TypeInput {
        name: name.to_string(),
        annotations: Vec::new(),
        docs: Vec::new(),
        shape: ShapeInput::Named(fields),
    }
}

fn bool_field(name: &str) -> FieldInput {
    FieldInput {
        name: Some(name.to_string()),
        declared_type: "bool".to_string(),
        annotations: Vec::new(),
        docs: Vec::new(),
    }
}

fn unit_variant(name: &str) -> VariantInput {
    VariantInput { name: name.to_string(), discriminant: None, has_payload: false }
}

#[test]
fn produces_error_for_an_empty_struct() {
    let input = TypeInput {
        name: "A".to_string(),
        annotations: Vec::new(),
        docs: Vec::new(),
        shape: ShapeInput::Unit,
    };
    let error = derive_imgui_presentable_impl(&input).expect_err("an empty type is rejected");
    assert!(error.message().contains("pointless"));
}

#[test]
fn produces_error_for_an_unknown_attribute() {
    let inputs = [
        TypeInput {
            name: "A".to_string(),
            annotations: vec!["abcd".to_string()],
            docs: Vec::new(),
            shape: ShapeInput::Named(vec![bool_field("field")]),
        },
        TypeInput {
            name: "A".to_string(),
            annotations: Vec::new(),
            docs: Vec::new(),
            shape: ShapeInput::Named(vec![FieldInput {
                name: Some("field".to_string()),
                declared_type: "bool".to_string(),
                annotations: vec!["abcd".to_string()],
                docs: Vec::new(),
            }]),
        },
        TypeInput {
            name: "A".to_string(),
            annotations: Vec::new(),
            docs: Vec::new(),
            shape: ShapeInput::Named(vec![FieldInput {
                name: Some("field".to_string()),
                declared_type: "bool".to_string(),
                annotations: vec![
                    "abcd".to_string(),
                    "abcd".to_string(),
                    "abcd = abcd".to_string(),
                ],
                docs: Vec::new(),
            }]),
        },
    ];
    for input in &inputs {
        let error = derive_imgui_presentable_impl(input).expect_err("unknown keys are rejected");
        let message = error.message();
        assert!(message.contains("unknown attributes"));
        assert!(message.contains("abcd"));
    }
}

#[test]
fn generates_for_struct_with_one_primitive_field() {
    for declared_type in ["bool", "i32"] {
        let input = plain_struct(
            "A",
            vec![FieldInput {
                name: Some("field".to_string()),
                declared_type: declared_type.to_string(),
                annotations: Vec::new(),
                docs: Vec::new(),
            }],
        );
        let generated =
            derive_imgui_presentable_impl_for_backends(&input, &vec![Backend::Imgui])
                .expect("generation should succeed");
        assert_eq!(generated.len(), 1);
        let presentation = &generated[0];
        assert_eq!(presentation.backend, Backend::Imgui);
        assert_eq!(presentation.target_name, "A");
        match &presentation.read_proc.body {
            ProcBody::Fields(widgets) => assert_eq!(widgets.len(), 1),
            ProcBody::Combo(_) => panic!("a struct renders fields, not a combo"),
        }
        let mutable = presentation.mut_proc.as_ref().expect("not readonly");
        match &mutable.body {
            ProcBody::Fields(widgets) => assert_eq!(widgets.len(), 1),
            ProcBody::Combo(_) => panic!("a struct renders fields, not a combo"),
        }
    }
}

#[test]
fn bool_field_generates_one_widget_on_each_path() {
    let input = plain_struct("A", vec![bool_field("value")]);
    let generated = derive_imgui_presentable_impl(&input).expect("generation should succeed");
    for presentation in &generated {
        match &presentation.read_proc.body {
            ProcBody::Fields(widgets) => {
                assert_eq!(widgets.len(), 1);
                assert_eq!(widgets[0].control, WidgetControl::Toggle);
                assert!(!widgets[0].interactive);
            }
            ProcBody::Combo(_) => panic!("a struct renders fields, not a combo"),
        }
        let mutable = presentation.mut_proc.as_ref().expect("not readonly");
        match &mutable.body {
            ProcBody::Fields(widgets) => {
                assert_eq!(widgets.len(), 1);
                assert_eq!(widgets[0].control, WidgetControl::Toggle);
                assert!(widgets[0].interactive);
            }
            ProcBody::Combo(_) => panic!("a struct renders fields, not a combo"),
        }
    }
}

#[test]
fn two_buttons_generate_two_clickable_controls() {
    let input = TypeInput {
        name: "A".to_string(),
        annotations: vec![
            "button(\"Hello world\": \"hello_world\")".to_string(),
            "button(\"Bye world\": \"bye\")".to_string(),
        ],
        docs: Vec::new(),
        shape: ShapeInput::Named(vec![bool_field("value")]),
    };
    let generated = derive_imgui_presentable_impl(&input).expect("generation should succeed");
    for presentation in &generated {
        assert!(presentation.read_proc.buttons.is_empty());
        let mutable = presentation.mut_proc.as_ref().expect("not readonly");
        assert_eq!(mutable.buttons.len(), 2);
        assert_eq!(mutable.buttons[0].title, "Hello world");
        assert_eq!(mutable.buttons[0].method_name, "hello_world");
        assert_eq!(mutable.buttons[1].title, "Bye world");
        assert_eq!(mutable.buttons[1].method_name, "bye");
    }
}

#[test]
fn enum_generates_combo_with_options_in_declaration_order() {
    let input = TypeInput {
        name: "Language".to_string(),
        annotations: Vec::new(),
        docs: Vec::new(),
        shape: ShapeInput::Enum(vec![
            unit_variant("English"),
            unit_variant("Dutch"),
            unit_variant("German"),
        ]),
    };
    let generated = derive_imgui_presentable_impl(&input).expect("generation should succeed");
    for presentation in &generated {
        match &presentation.read_proc.body {
            ProcBody::Combo(combo) => {
                assert_eq!(combo.enum_name, "Language");
                assert_eq!(combo.options, vec!["English", "Dutch", "German"]);
                assert!(!combo.interactive);
            }
            ProcBody::Fields(_) => panic!("an enum renders a combo, not fields"),
        }
        let mutable = presentation.mut_proc.as_ref().expect("not readonly");
        match &mutable.body {
            ProcBody::Combo(combo) => {
                assert_eq!(combo.options, vec!["English", "Dutch", "German"]);
                assert!(combo.interactive);
            }
            ProcBody::Fields(_) => panic!("an enum renders a combo, not fields"),
        }
    }
    let descriptors = imgui_presentation::shape::inspect_enum_variants(&vec![
        unit_variant("English"),
        unit_variant("Dutch"),
        unit_variant("German"),
    ])
    .expect("plain variants");
    let third = select_variant(&descriptors, 2).expect("three options");
    assert_eq!(third.name, "German");
}

#[test]
fn malformed_button_declarations_are_rejected() {
    let input = TypeInput {
        name: "A".to_string(),
        annotations: vec!["button(\"only a title\")".to_string()],
        docs: Vec::new(),
        shape: ShapeInput::Named(vec![bool_field("value")]),
    };
    let error =
        derive_imgui_presentable_impl(&input).expect_err("a malformed declaration is rejected");
    let message = error.message();
    assert!(message.contains("malformed declaration"));
    assert!(message.contains("button(\"only a title\")"));
}

#[test]
fn skip_on_a_whole_type_is_rejected() {
    let input = TypeInput {
        name: "A".to_string(),
        annotations: vec!["skip".to_string()],
        docs: Vec::new(),
        shape: ShapeInput::Named(vec![bool_field("value")]),
    };
    let error = derive_imgui_presentable_impl(&input).expect_err("skip on a type is rejected");
    assert_eq!(
        error.message(),
        "Structs shouldn't have the #[imgui_presentation(skip)] attribute."
    );
}

#[test]
fn complex_field_types_are_rejected() {
    for declared_type in ["&str", "(u8, u8)", "[u8; 4]", "dyn Render"] {
        let input = plain_struct(
            "A",
            vec![FieldInput {
                name: Some("field".to_string()),
                declared_type: declared_type.to_string(),
                annotations: Vec::new(),
                docs: Vec::new(),
            }],
        );
        let error =
            derive_imgui_presentable_impl(&input).expect_err("complex types are rejected");
        assert!(error.message().contains("Complex types aren't supported yet:"));
        assert!(error.message().contains(declared_type));
    }
}

#[test]
fn payload_carrying_enums_are_rejected() {
    let input = TypeInput {
        name: "A".to_string(),
        annotations: Vec::new(),
        docs: Vec::new(),
        shape: ShapeInput::Enum(vec![
            unit_variant("Empty"),
            VariantInput {
                name: "Payload".to_string(),
                discriminant: None,
                has_payload: true,
            },
        ]),
    };
    let error = derive_imgui_presentable_impl(&input).expect_err("payloads are rejected");
    assert_eq!(error.message(), "Only POD enums are supported as of this moment.");
}

#[test]
fn empty_enums_are_rejected() {
    let input = TypeInput {
        name: "A".to_string(),
        annotations: Vec::new(),
        docs: Vec::new(),
        shape: ShapeInput::Enum(Vec::new()),
    };
    let error = derive_imgui_presentable_impl(&input).expect_err("an empty enum is rejected");
    assert!(error.message().contains("pointless"));
}

#[test]
fn structs_with_no_fields_are_rejected() {
    let input = plain_struct("A", Vec::new());
    let error = derive_imgui_presentable_impl(&input).expect_err("no fields, nothing to render");
    assert!(error.message().contains("pointless"));
}

#[test]
fn backend_attribute_narrows_generation() {
    let input = TypeInput {
        name: "A".to_string(),
        annotations: vec!["backend = \"egui\"".to_string()],
        docs: Vec::new(),
        shape: ShapeInput::Named(vec![bool_field("value")]),
    };
    let generated = derive_imgui_presentable_impl(&input).expect("generation should succeed");
    assert_eq!(generated.len(), 1);
    assert_eq!(generated[0].backend, Backend::Egui);
}

#[test]
fn menu_items_override_the_window_wrapper() {
    let input = TypeInput {
        name: "A".to_string(),
        annotations: vec!["main_menu_item(\"File\": \"file_menu_clicked\")".to_string()],
        docs: Vec::new(),
        shape: ShapeInput::Named(vec![bool_field("value")]),
    };
    let generated = derive_imgui_presentable_impl(&input).expect("generation should succeed");
    for presentation in &generated {
        assert!(presentation.has_menu_bar);
        assert!(presentation.read_proc.menu_items.is_empty());
        let mutable = presentation.mut_proc.as_ref().expect("not readonly");
        assert_eq!(mutable.menu_items.len(), 1);
        assert_eq!(mutable.menu_items[0].title, "File");
        assert_eq!(mutable.menu_items[0].method_name, "file_menu_clicked");
        assert_eq!(mutable.menu_items[0].hot_key, None);
    }
    let without_menu = plain_struct("A", vec![bool_field("value")]);
    let generated = derive_imgui_presentable_impl(&without_menu).expect("generation succeeds");
    for presentation in &generated {
        assert!(!presentation.has_menu_bar);
    }
}

#[test]
fn skipped_field_leaves_neighbours_untouched() {
    let with_skip = plain_struct(
        "A",
        vec![
            bool_field("first"),
            FieldInput {
                name: Some("second".to_string()),
                declared_type: "u32".to_string(),
                annotations: vec!["skip".to_string()],
                docs: Vec::new(),
            },
            bool_field("third"),
        ],
    );
    let generated = derive_imgui_presentable_impl(&with_skip).expect("generation succeeds");
    for presentation in &generated {
        match &presentation.read_proc.body {
            ProcBody::Fields(widgets) => {
                assert_eq!(widgets.len(), 2);
                assert_eq!(widgets[0].label, "first");
                assert_eq!(widgets[1].label, "third");
            }
            ProcBody::Combo(_) => panic!("a struct renders fields, not a combo"),
        }
    }
}
