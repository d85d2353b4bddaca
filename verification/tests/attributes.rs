//! The attribute mini-language, the attribute set, and the facts the
//! shape inspector derives from them.

use imgui_presentation::attributes::Attribute;
use imgui_presentation::attributes::Attributes;
use imgui_presentation::bool_to_string;
use imgui_presentation::emit::derive_imgui_presentable_impl;
use imgui_presentation::emit::generate_ui_field_for_struct;
use imgui_presentation::emit::ProcBody;
use imgui_presentation::emit::WidgetControl;
use imgui_presentation::shape::resolve_ordinal;
use imgui_presentation::shape::variant_ordinal;
use imgui_presentation::shape::FieldDescriptor;
use imgui_presentation::shape::FieldInput;
use imgui_presentation::shape::ShapeInput;
use imgui_presentation::shape::TypeInput;
use imgui_presentation::shape::VariantDescriptor;
use imgui_presentation::Backend;

fn strings(texts: &[&str]) -> Vec<String> {
    texts.iter().map(|t| t.to_string()).collect()
}

#[test]
fn parsing_is_idempotent_on_canonical_texts() {
    let canonical = [
        "skip",
        "readonly",
        "rename = \"A great field\"",
        "format = \"%.2f\"",
        "tooltip = \"Hint text\"",
        "backend = \"imgui\"",
        "speed = 0.001f32",
        "range = 0..10",
        "button(\"Hello world\": \"hello_world\")",
        "main_menu_item(\"File\": \"file_menu_clicked\")",
    ];
    for text in canonical {
        let first = Attribute::from_str(text).expect("canonical text parses");
        let rebuilt = match &first {
            Attribute::Skip => "skip".to_string(),
            Attribute::ReadOnly => "readonly".to_string(),
            Attribute::Rename(s) => format!("rename = \"{s}\""),
            Attribute::Format(s) => format!("format = \"{s}\""),
            Attribute::Tooltip(s) => format!("tooltip = \"{s}\""),
            Attribute::Documentation(_) => unreachable!("doc lines have no annotation syntax"),
            Attribute::Button(b) => {
                format!("button(\"{}\": \"{}\")", b.title, b.method_name)
            }
            Attribute::Backend(Backend::Imgui) => "backend = \"imgui\"".to_string(),
            Attribute::Backend(Backend::Egui) => "backend = \"egui\"".to_string(),
            Attribute::MainMenuItem(m) => {
                format!("main_menu_item(\"{}\": \"{}\")", m.title, m.method_name)
            }
            Attribute::Range(lo, hi) => format!(
                "range = {}..{}",
                lo.as_deref().unwrap_or(""),
                hi.as_deref().unwrap_or(""),
            ),
            Attribute::Speed(s) => format!("speed = {s}"),
        };
        let second = Attribute::from_str(&rebuilt).expect("canonical text parses again");
        assert_eq!(first, second, "re-parsing {rebuilt:?} changed the attribute");
    }
}

#[test]
fn parse_recognizes_every_form() {
    assert_eq!(Attribute::from_str("skip"), Ok(Attribute::Skip));
    assert_eq!(Attribute::from_str("  READONLY  "), Ok(Attribute::ReadOnly));
    assert_eq!(
        Attribute::from_str("rename = \"Label\""),
        Ok(Attribute::Rename("Label".to_string()))
    );
    assert_eq!(
        Attribute::from_str("Format = \"%.3f\""),
        Ok(Attribute::Format("%.3f".to_string()))
    );
    assert_eq!(
        Attribute::from_str("tooltip = \"A hint\""),
        Ok(Attribute::Tooltip("A hint".to_string()))
    );
    assert_eq!(
        Attribute::from_str("backend = \"IMGUI\""),
        Ok(Attribute::Backend(Backend::Imgui))
    );
    assert_eq!(
        Attribute::from_str("backend = \"egui\""),
        Ok(Attribute::Backend(Backend::Egui))
    );
    assert_eq!(
        Attribute::from_str("speed = 0.5f32"),
        Ok(Attribute::Speed("0.5f32".to_string()))
    );
    assert_eq!(
        Attribute::from_str("range = 0.0f32..0.1f32"),
        Ok(Attribute::Range(
            Some("0.0f32".to_string()),
            Some("0.1f32".to_string())
        ))
    );
    assert_eq!(
        Attribute::from_str("range = ..10"),
        Ok(Attribute::Range(None, Some("10".to_string())))
    );
    assert_eq!(
        Attribute::from_str("range = 1.."),
        Ok(Attribute::Range(Some("1".to_string()), None))
    );
    assert_eq!(
        Attribute::from_str("button(\"Go\": \"on_go\")"),
        Ok(Attribute::Button(imgui_presentation::attributes::Button {
            title: "Go".to_string(),
            method_name: "on_go".to_string(),
        }))
    );
    assert_eq!(
        Attribute::from_str("main_menu_item(\"About\": \"about\")"),
        Ok(Attribute::MainMenuItem(
            imgui_presentation::attributes::MainMenuItem {
                title: "About".to_string(),
                method_name: "about".to_string(),
                hot_key: None,
            }
        ))
    );
}

#[test]
fn parse_rejects_unknown_keys_and_malformed_declarations() {
    assert!(Attribute::from_str("abcd").is_err());
    assert!(Attribute::from_str("abcd = \"x\"").is_err());
    assert!(Attribute::from_str("abcd(\"x\": \"y\")").is_err());
    assert!(Attribute::from_str("button(no quotes here)").is_err());
    assert!(Attribute::from_str("button(\"only a title\")").is_err());
    assert!(Attribute::from_str("range = 5").is_err());
    assert!(Attribute::from_str("backend = \"vulkan\"").is_err());
}

#[test]
fn every_unknown_key_is_reported_not_only_the_first() {
    let error = Attributes::new(&strings(&["abcd", "skip", "efgh"]))
        .expect_err("unknown keys are rejected");
    let message = error.message();
    assert!(message.contains("abcd"));
    assert!(message.contains("efgh"));
    assert_eq!(message.lines().count(), 2);
    for line in message.lines() {
        assert!(line.starts_with("#[imgui_presentation]: unknown attributes: "));
    }
}

#[test]
fn unknown_backend_names_the_offending_value() {
    let error = Attributes::new(&strings(&["backend = \"vulkan\""]))
        .expect_err("an unknown backend is rejected");
    assert!(error.message().contains("vulkan is an unknown backend."));
}

#[test]
fn duplicate_attributes_are_stored_once() {
    let once = Attributes::new(&strings(&["skip"])).expect("parses");
    let twice = Attributes::new(&strings(&["skip", "skip"])).expect("parses");
    assert_eq!(once, twice);
    let buttons = Attributes::new(&strings(&[
        "button(\"Go\": \"on_go\")",
        "button(\"Go\": \"on_go\")",
        "button(\"Stop\": \"on_stop\")",
    ]))
    .expect("parses");
    let list = buttons.get_buttons();
    assert_eq!(list.len(), 2);
    assert_eq!(list[0].title, "Go");
    assert_eq!(list[1].title, "Stop");
}

#[test]
fn documentation_lines_concatenate_in_source_order() {
    let set = Attributes::parse_many(
        &strings(&[]),
        &strings(&[" The first line. ", " The second line. "]),
    )
    .expect("doc lines always parse");
    assert_eq!(
        set.get_documentation().as_deref(),
        Some("The first line.The second line.")
    );
    assert_eq!(
        set.get_tooltip_or_documentation().as_deref(),
        Some("The first line.The second line.")
    );
}

#[test]
fn tooltip_overrides_documentation() {
    let set = Attributes::parse_many(
        &strings(&["tooltip = \"Short hint\""]),
        &strings(&[" Long documentation."]),
    )
    .expect("parses");
    assert_eq!(set.get_tooltip(), Some("Short hint"));
    assert_eq!(set.get_tooltip_or_documentation().as_deref(), Some("Short hint"));
}

#[test]
fn accessors_expose_each_attribute() {
    let set = Attributes::new(&strings(&[
        "skip",
        "readonly",
        "rename = \"Nice name\"",
        "format = \"%d\"",
        "speed = 2.0f32",
        "range = 1..5",
    ]))
    .expect("parses");
    assert!(set.has_skip());
    assert!(set.has_readonly());
    assert_eq!(set.get_rename(), Some("Nice name"));
    assert_eq!(set.get_format(), Some("%d"));
    assert_eq!(set.get_speed(), Some("2.0f32"));
    assert_eq!(
        set.get_range(),
        Some((Some("1".to_string()), Some("5".to_string())))
    );
    assert_eq!(set.get_tooltip(), None);
    assert_eq!(set.get_documentation(), None);
    let empty = Attributes::new(&strings(&[])).expect("empty parses");
    assert!(!empty.has_skip());
    assert!(!empty.has_readonly());
    assert_eq!(empty.get_rename(), None);
    assert_eq!(empty.get_backends(), Vec::<Backend>::new());
}

#[test]
fn single_tuple_field_is_labelled_with_the_type_name() {
    let input = TypeInput {
        name: "StrictType".to_string(),
        annotations: Vec::new(),
        docs: Vec::new(),
        shape: ShapeInput::Tuple(vec![FieldInput {
            name: None,
            declared_type: "u16".to_string(),
            annotations: Vec::new(),
            docs: Vec::new(),
        }]),
    };
    let generated = derive_imgui_presentable_impl(&input).expect("generation succeeds");
    for presentation in &generated {
        match &presentation.read_proc.body {
            ProcBody::Fields(widgets) => assert_eq!(widgets[0].label, "StrictType"),
            ProcBody::Combo(_) => panic!("a struct renders fields, not a combo"),
        }
    }
}

#[test]
fn wider_tuple_fields_are_labelled_with_their_positions() {
    let input = TypeInput {
        name: "Pair".to_string(),
        annotations: Vec::new(),
        docs: Vec::new(),
        shape: ShapeInput::Tuple(vec![
            FieldInput {
                name: None,
                declared_type: "u16".to_string(),
                annotations: Vec::new(),
                docs: Vec::new(),
            },
            FieldInput {
                name: None,
                declared_type: "u16".to_string(),
                annotations: Vec::new(),
                docs: Vec::new(),
            },
        ]),
    };
    let generated = derive_imgui_presentable_impl(&input).expect("generation succeeds");
    for presentation in &generated {
        match &presentation.read_proc.body {
            ProcBody::Fields(widgets) => {
                assert_eq!(widgets[0].label, "Pair.0");
                assert_eq!(widgets[1].label, "Pair.1");
            }
            ProcBody::Combo(_) => panic!("a struct renders fields, not a combo"),
        }
    }
}

#[test]
fn named_fields_use_their_identifier_or_rename() {
    let plain = FieldDescriptor {
        name: Some("speed_limit".to_string()),
        type_label: "u32".to_string(),
        position: 0,
        attributes: Attributes::new(&strings(&[])).expect("parses"),
    };
    let widget = generate_ui_field_for_struct("Road", &plain, 2, false);
    assert_eq!(widget.label, "speed_limit");
    let renamed = FieldDescriptor {
        name: Some("speed_limit".to_string()),
        type_label: "u32".to_string(),
        position: 0,
        attributes: Attributes::new(&strings(&["rename = \"Speed limit\""])).expect("parses"),
    };
    let widget = generate_ui_field_for_struct("Road", &renamed, 2, false);
    assert_eq!(widget.label, "Speed limit");
}

#[test]
fn numeric_widgets_fall_back_to_type_dependent_speeds() {
    let float_field = FieldDescriptor {
        name: Some("ratio".to_string()),
        type_label: "f32".to_string(),
        position: 0,
        attributes: Attributes::new(&strings(&[])).expect("parses"),
    };
    let widget = generate_ui_field_for_struct("A", &float_field, 1, true);
    match widget.control {
        WidgetControl::NumericDrag { speed, range, format, .. } => {
            assert_eq!(speed, "0.001f32");
            assert_eq!(range, None);
            assert_eq!(format, None);
        }
        _ => panic!("an f32 field renders a numeric drag"),
    }
    let int_field = FieldDescriptor {
        name: Some("count".to_string()),
        type_label: "u64".to_string(),
        position: 0,
        attributes: Attributes::new(&strings(&["speed = 5", "range = 0..100"]))
            .expect("parses"),
    };
    let widget = generate_ui_field_for_struct("A", &int_field, 1, true);
    match widget.control {
        WidgetControl::NumericDrag { speed, range, .. } => {
            assert_eq!(speed, "5");
            assert_eq!(range, Some((Some("0".to_string()), Some("100".to_string()))));
        }
        _ => panic!("a u64 field renders a numeric drag"),
    }
}

#[test]
fn explicit_discriminants_round_trip_through_selection() {
    let variants = vec![
        VariantDescriptor { name: "Variant1".to_string(), ordinal: 2 },
        VariantDescriptor { name: "Variant2".to_string(), ordinal: 4 },
        VariantDescriptor { name: "Variant3".to_string(), ordinal: 1 },
        VariantDescriptor { name: "Variant4".to_string(), ordinal: 100 },
    ];
    for index in 0..variants.len() {
        let ordinal = variant_ordinal(&variants, index);
        assert_eq!(resolve_ordinal(&variants, ordinal), Some(index));
    }
    assert_eq!(resolve_ordinal(&variants, 3), None);
}

#[test]
fn bool_labels_read_yes_or_no() {
    assert_eq!(bool_to_string(true), "yes");
    assert_eq!(bool_to_string(false), "no");
}

#[test]
fn extent_carries_the_viewport_size() {
    let extent = imgui_presentation::Extent { width: 1920, height: 1080 };
    assert_eq!(extent.width, 1920);
    assert_eq!(extent.height, 1080);
    assert_eq!(extent, extent.clone());
}

#[test]
fn backend_names_parse_case_insensitively() {
    assert_eq!(Backend::from_str("imgui"), Ok(Backend::Imgui));
    assert_eq!(Backend::from_str("Egui"), Ok(Backend::Egui));
    assert_eq!(
        Backend::from_str("vulkan"),
        Err("vulkan is an unknown backend.".to_string())
    );
}
