use indexmap::IndexMap;
use retro_templates::{
    load_template_root, load_type_template, render_template_root, render_type_template, EnumElement,
    EnumProperty, EnumTemplate, HexError, HexU32, ListProperty, LoadError, PropertyListTemplate,
    PropertyTemplate, PropertyTemplateType, SchemaError, StructProperty, StructTemplate, TemplateRoot,
    TypeTemplate, TypeTemplateType, TypedefProperty,
};

const EXAMPLE: &str = r#"{"$schema":"s","name":"Foo","type":"struct","elements":[{"name":"bar","type":"u8"},{"name":"baz","type":"list","element":{"type":"f32"}}]}"#;

fn struct_of(elements: Vec<PropertyTemplate>) -> TypeTemplate {
    TypeTemplate {
        schema: "s".to_string(),
        name: "T".to_string(),
        description: None,
        template: TypeTemplateType::Struct(StructTemplate { elements }),
    }
}

fn bare(t: PropertyTemplateType) -> PropertyTemplate {
    PropertyTemplate { name: None, description: None, template: t }
}

fn round_trip(t: &TypeTemplate) -> TypeTemplate {
    load_type_template(&render_type_template(t)).expect("rendered text reloads")
}

#[test]
fn example_document_loads() {
    let t = load_type_template(EXAMPLE).unwrap();
    assert_eq!(t.schema, "s");
    assert_eq!(t.name, "Foo");
    assert_eq!(t.description, None);
    match &t.template {
        TypeTemplateType::Struct(s) => {
            assert_eq!(s.elements.len(), 2);
            assert_eq!(s.elements[0].name.as_deref(), Some("bar"));
            assert_eq!(s.elements[0].template, PropertyTemplateType::U8);
            assert_eq!(s.elements[1].name.as_deref(), Some("baz"));
            assert_eq!(
                s.elements[1].template,
                PropertyTemplateType::List(ListProperty { element: Box::new(PropertyTemplateType::F32) })
            );
        }
        other => panic!("expected a struct, got {:?}", other),
    }
}

#[test]
fn example_document_renders_back() {
    let t = load_type_template(EXAMPLE).unwrap();
    assert_eq!(render_type_template(&t), EXAMPLE);
    assert_eq!(round_trip(&t), t);
}

#[test]
fn every_property_kind_round_trips() {
    let kinds = vec![
        PropertyTemplateType::Unknown,
        PropertyTemplateType::Enum(EnumProperty { enum_name: "E".to_string() }),
        PropertyTemplateType::Struct(StructProperty { struct_name: "S".to_string() }),
        PropertyTemplateType::Typedef(TypedefProperty { supported_types: vec!["A".to_string(), "B".to_string()] }),
        PropertyTemplateType::List(ListProperty { element: Box::new(PropertyTemplateType::Bool) }),
        PropertyTemplateType::Id,
        PropertyTemplateType::Color,
        PropertyTemplateType::Vector,
        PropertyTemplateType::Bool,
        PropertyTemplateType::I8,
        PropertyTemplateType::I16,
        PropertyTemplateType::I32,
        PropertyTemplateType::I64,
        PropertyTemplateType::U8,
        PropertyTemplateType::U16,
        PropertyTemplateType::U32,
        PropertyTemplateType::U64,
        PropertyTemplateType::F32,
        PropertyTemplateType::F64,
    ];
    assert_eq!(kinds.len(), 19);
    for k in kinds {
        let t = struct_of(vec![bare(k)]);
        assert_eq!(round_trip(&t), t);
    }
}

#[test]
fn nested_list_round_trips() {
    let inner = PropertyTemplateType::List(ListProperty { element: Box::new(PropertyTemplateType::I32) });
    let outer = PropertyTemplateType::List(ListProperty { element: Box::new(inner) });
    let t = struct_of(vec![PropertyTemplate {
        name: Some("grid".to_string()),
        description: Some("rows of cells".to_string()),
        template: outer,
    }]);
    let text = render_type_template(&t);
    assert_eq!(
        text,
        r#"{"$schema":"s","name":"T","type":"struct","elements":[{"name":"grid","description":"rows of cells","type":"list","element":{"type":"list","element":{"type":"i32"}}}]}"#
    );
    assert_eq!(round_trip(&t), t);
}

#[test]
fn property_list_keeps_key_order() {
    let text = r#"{"$schema":"s","name":"P","type":"property_list","properties":{"0x00000010":{"type":"u8"},"0x00000002":{"type":"bool"},"0x00000007":{"name":"x","type":"id"}}}"#;
    let t = load_type_template(text).unwrap();
    match &t.template {
        TypeTemplateType::PropertyList(p) => {
            let keys: Vec<u32> = p.properties.keys().copied().collect();
            assert_eq!(keys, vec![0x10, 0x2, 0x7]);
        }
        other => panic!("expected a property list, got {:?}", other),
    }
    assert_eq!(render_type_template(&t), text);
}

#[test]
fn property_list_keys_are_normalised() {
    let t = load_type_template(r#"{"$schema":"s","name":"P","type":"property_list","properties":{"0xab":{"type":"u8"}}}"#)
        .unwrap();
    assert_eq!(
        render_type_template(&t),
        r#"{"$schema":"s","name":"P","type":"property_list","properties":{"0x000000AB":{"type":"u8"}}}"#
    );
}

#[test]
fn enum_template_round_trips() {
    let t = TypeTemplate {
        schema: "v1".to_string(),
        name: "Colour".to_string(),
        description: Some("a palette".to_string()),
        template: TypeTemplateType::Enum(EnumTemplate {
            values: vec![
                EnumElement { name: "Red".to_string(), description: None, value: HexU32(1) },
                EnumElement { name: "Also red".to_string(), description: Some("same value".to_string()), value: HexU32(1) },
            ],
        }),
    };
    let text = render_type_template(&t);
    assert_eq!(
        text,
        r#"{"$schema":"v1","name":"Colour","description":"a palette","type":"enum","values":[{"name":"Red","value":"0x00000001"},{"name":"Also red","description":"same value","value":"0x00000001"}]}"#
    );
    assert_eq!(round_trip(&t), t);
}

#[test]
fn enum_value_may_be_an_integer() {
    let t = load_type_template(r#"{"$schema":"s","name":"E","type":"enum","values":[{"name":"a","value":255}]}"#).unwrap();
    match &t.template {
        TypeTemplateType::Enum(e) => assert_eq!(e.values[0].value, HexU32(255)),
        other => panic!("expected an enum, got {:?}", other),
    }
}

#[test]
fn unknown_field_rejected_at_top_level() {
    let text = r#"{"$schema":"s","name":"Foo","type":"struct","elements":[],"extra":1}"#;
    assert_eq!(load_type_template(text).unwrap_err(), LoadError::Schema(SchemaError::UnknownField));
}

#[test]
fn unknown_field_rejected_inside_property() {
    let text = r#"{"$schema":"s","name":"Foo","type":"struct","elements":[{"type":"u8","size":1}]}"#;
    assert_eq!(load_type_template(text).unwrap_err(), LoadError::Schema(SchemaError::UnknownField));
    let nested = r#"{"$schema":"s","name":"Foo","type":"struct","elements":[{"type":"list","element":{"type":"u8","name":"n"}}]}"#;
    assert_eq!(load_type_template(nested).unwrap_err(), LoadError::Schema(SchemaError::UnknownField));
    let payload = r#"{"$schema":"s","name":"Foo","type":"struct","elements":[{"type":"u8","enum":"E"}]}"#;
    assert_eq!(load_type_template(payload).unwrap_err(), LoadError::Schema(SchemaError::UnknownField));
}

#[test]
fn unknown_field_rejected_inside_enum_element() {
    let text = r#"{"$schema":"s","name":"E","type":"enum","values":[{"name":"a","value":"0x1","other":true}]}"#;
    assert_eq!(load_type_template(text).unwrap_err(), LoadError::Schema(SchemaError::UnknownField));
}

#[test]
fn missing_fields_rejected() {
    let no_tag = r#"{"$schema":"s","name":"Foo","elements":[]}"#;
    assert_eq!(load_type_template(no_tag).unwrap_err(), LoadError::Schema(SchemaError::MissingField));
    let no_name = r#"{"$schema":"s","type":"struct","elements":[]}"#;
    assert_eq!(load_type_template(no_name).unwrap_err(), LoadError::Schema(SchemaError::MissingField));
    let no_payload = r#"{"$schema":"s","name":"Foo","type":"struct","elements":[{"type":"enum"}]}"#;
    assert_eq!(load_type_template(no_payload).unwrap_err(), LoadError::Schema(SchemaError::MissingField));
    let no_property_tag = r#"{"$schema":"s","name":"Foo","type":"struct","elements":[{"name":"x"}]}"#;
    assert_eq!(load_type_template(no_property_tag).unwrap_err(), LoadError::Schema(SchemaError::MissingField));
}

#[test]
fn unknown_tags_rejected() {
    let top = r#"{"$schema":"s","name":"Foo","type":"union","elements":[]}"#;
    assert_eq!(load_type_template(top).unwrap_err(), LoadError::Schema(SchemaError::UnknownTag));
    let prop = r#"{"$schema":"s","name":"Foo","type":"struct","elements":[{"type":"u128"}]}"#;
    assert_eq!(load_type_template(prop).unwrap_err(), LoadError::Schema(SchemaError::UnknownTag));
}

#[test]
fn wrong_types_rejected() {
    let text = r#"{"$schema":"s","name":7,"type":"struct","elements":[]}"#;
    assert_eq!(load_type_template(text).unwrap_err(), LoadError::Schema(SchemaError::WrongType));
    let elements = r#"{"$schema":"s","name":"Foo","type":"struct","elements":{}}"#;
    assert_eq!(load_type_template(elements).unwrap_err(), LoadError::Schema(SchemaError::WrongType));
}

#[test]
fn non_objects_rejected() {
    assert_eq!(load_type_template("[]").unwrap_err(), LoadError::Schema(SchemaError::NotAnObject));
    let element = r#"{"$schema":"s","name":"Foo","type":"struct","elements":[3]}"#;
    assert_eq!(load_type_template(element).unwrap_err(), LoadError::Schema(SchemaError::NotAnObject));
}

#[test]
fn bad_hex_rejected() {
    let key = r#"{"$schema":"s","name":"P","type":"property_list","properties":{"12":{"type":"u8"}}}"#;
    assert_eq!(
        load_type_template(key).unwrap_err(),
        LoadError::Schema(SchemaError::BadHex(HexError::MissingPrefix))
    );
    let value = r#"{"$schema":"s","name":"E","type":"enum","values":[{"name":"a","value":4294967296}]}"#;
    assert_eq!(
        load_type_template(value).unwrap_err(),
        LoadError::Schema(SchemaError::BadHex(HexError::OutOfRange))
    );
    let digits = r#"{"$schema":"s","name":"E","type":"enum","values":[{"name":"a","value":"0xZZZZZZZZ"}]}"#;
    assert_eq!(
        load_type_template(digits).unwrap_err(),
        LoadError::Schema(SchemaError::BadHex(HexError::InvalidDigit))
    );
}

#[test]
fn duplicate_keys_rejected() {
    let text = r#"{"$schema":"s","name":"P","type":"property_list","properties":{"0x1":{"type":"u8"},"0x00000001":{"type":"u16"}}}"#;
    assert_eq!(load_type_template(text).unwrap_err(), LoadError::Schema(SchemaError::DuplicateKey));
}

#[test]
fn syntax_errors_reported() {
    assert!(matches!(load_type_template("{\"name\":").unwrap_err(), LoadError::Syntax { line: 1, .. }));
    assert!(matches!(load_type_template("").unwrap_err(), LoadError::Syntax { .. }));
    assert!(matches!(load_template_root("[1,").unwrap_err(), LoadError::Syntax { .. }));
}

#[test]
fn null_description_counts_as_absent() {
    let t = load_type_template(r#"{"$schema":"s","name":"Foo","description":null,"type":"struct","elements":[]}"#)
        .unwrap();
    assert_eq!(t.description, None);
    assert_eq!(render_type_template(&t), r#"{"$schema":"s","name":"Foo","type":"struct","elements":[]}"#);
}

#[test]
fn typedef_without_types_is_empty() {
    let t = load_type_template(r#"{"$schema":"s","name":"Foo","type":"struct","elements":[{"type":"typedef"}]}"#)
        .unwrap();
    assert_eq!(t.template, TypeTemplateType::Struct(StructTemplate {
        elements: vec![bare(PropertyTemplateType::Typedef(TypedefProperty { supported_types: vec![] }))],
    }));
}

#[test]
fn property_list_template_round_trips() {
    let t = TypeTemplate {
        schema: "s".to_string(),
        name: "P".to_string(),
        description: None,
        template: TypeTemplateType::PropertyList(PropertyListTemplate {
            properties: IndexMap::from([
                (0xffff_0000, bare(PropertyTemplateType::U64)),
                (3, bare(PropertyTemplateType::Struct(StructProperty { struct_name: "Inner".to_string() }))),
            ]),
        }),
    };
    let back = round_trip(&t);
    assert_eq!(back, t);
    match &back.template {
        TypeTemplateType::PropertyList(p) => {
            assert_eq!(p.properties.keys().copied().collect::<Vec<u32>>(), vec![0xffff_0000, 3]);
        }
        other => panic!("expected a property list, got {:?}", other),
    }
}

#[test]
fn template_root_keeps_order() {
    let text = r#"{"$schema":"s","name":"R","objects":{"0x00000009":"Nine","0x00000001":"One"},"typedefs":{"0x00000002":"Two"},"structs":["B","A"],"enums":["Z"]}"#;
    let r = load_template_root(text).unwrap();
    let objects: Vec<(u32, String)> = r.objects.iter().map(|(k, v)| (*k, v.clone())).collect();
    assert_eq!(objects, vec![(9, "Nine".to_string()), (1, "One".to_string())]);
    let typedefs: Vec<(u32, String)> = r.typedefs.iter().map(|(k, v)| (*k, v.clone())).collect();
    assert_eq!(typedefs, vec![(2, "Two".to_string())]);
    assert_eq!(r.structs, vec!["B".to_string(), "A".to_string()]);
    assert_eq!(render_template_root(&r), text);
}

#[test]
fn template_root_collections_are_optional() {
    let r = load_template_root(r#"{"$schema":"s","name":"R"}"#).unwrap();
    assert_eq!(
        r,
        TemplateRoot {
            schema: "s".to_string(),
            name: "R".to_string(),
            description: None,
            objects: IndexMap::new(),
            typedefs: IndexMap::new(),
            structs: vec![],
            enums: vec![],
        }
    );
    let extra = r#"{"$schema":"s","name":"R","extra":[]}"#;
    assert_eq!(load_template_root(extra).unwrap_err(), LoadError::Schema(SchemaError::UnknownField));
}

#[test]
fn non_integer_hex_values_rejected() {
    let fraction = r#"{"$schema":"s","name":"E","type":"enum","values":[{"name":"a","value":1.5}]}"#;
    assert_eq!(load_type_template(fraction).unwrap_err(), LoadError::Schema(SchemaError::WrongType));
    let negative = r#"{"$schema":"s","name":"E","type":"enum","values":[{"name":"a","value":-1}]}"#;
    assert_eq!(load_type_template(negative).unwrap_err(), LoadError::Schema(SchemaError::WrongType));
}

#[test]
fn later_failure_in_struct_rejects_whole_document() {
    let text = r#"{"$schema":"s","name":"Foo","type":"struct","elements":[{"type":"u8"},{"type":"bool"},{"type":"list"}]}"#;
    assert_eq!(load_type_template(text).unwrap_err(), LoadError::Schema(SchemaError::MissingField));
}

#[test]
fn syntax_error_gives_position() {
    let text = "{\n\"name\":\n}";
    assert_eq!(load_type_template(text).unwrap_err(), LoadError::Syntax { line: 3, column: 1 });
}

#[test]
fn nine_digit_key_rejected() {
    let text = r#"{"$schema":"s","name":"P","type":"property_list","properties":{"0x000000001":{"type":"u8"}}}"#;
    assert_eq!(
        load_type_template(text).unwrap_err(),
        LoadError::Schema(SchemaError::BadHex(HexError::TooManyDigits))
    );
}
