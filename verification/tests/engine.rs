use openapi_to_rust::ast;
use openapi_to_rust::ast::Container;
use openapi_to_rust::ast::ContainerData;
use openapi_to_rust::ast::EnumContainer;
use openapi_to_rust::ast::StructContainer;
use openapi_to_rust::check_openapi;
use openapi_to_rust::codegen_enums;
use openapi_to_rust::codegen_structs;
use openapi_to_rust::from_openapi;
use openapi_to_rust::Check;
use openapi_to_rust::CheckFailure;
use openapi_to_rust::Components;
use openapi_to_rust::Document;
use openapi_to_rust::EnumSchema;
use openapi_to_rust::Error;
use openapi_to_rust::IntegerFormat;
use openapi_to_rust::NamedComponent;
use openapi_to_rust::NumberFormat;
use openapi_to_rust::OpenApiArgs;
use openapi_to_rust::Property;
use openapi_to_rust::RefOrSchema;
use openapi_to_rust::Schema;
use openapi_to_rust::SchemaKind;
use openapi_to_rust::SchemaType;
use openapi_to_rust::StringFormat;
use openapi_to_rust::StructSchema;
use openapi_to_rust::TypeCodegen;
use openapi_to_rust::TypeSchema;

fn schema_of(ty: SchemaType) -> Schema {
    Schema { schema_kind: SchemaKind::Type(ty) }
}

fn item_of(ty: SchemaType) -> RefOrSchema {
    RefOrSchema::Item(Box::new(schema_of(ty)))
}

fn enum_schema(values: &[&str]) -> Schema {
    schema_of(SchemaType::String {
        format: StringFormat::Other,
        enumeration: values.iter().map(|v| v.to_string()).collect(),
    })
}

fn plain_string() -> SchemaType {
    SchemaType::String { format: StringFormat::Other, enumeration: vec![] }
}

fn enum_decl(ident: &str, variants: Vec<ast::Variant>) -> EnumContainer {
    EnumContainer {
        ident: ident.to_string(),
        attrs: vec![],
        variants,
        vis: "".to_string(),
    }
}

fn variant(ident: &str, value: Option<&str>) -> ast::Variant {
    ast::Variant {
        ident: ident.to_string(),
        attrs: vec![],
        value: value.map(|v| v.to_string()),
    }
}

fn field(ident: &str, name: Option<&str>) -> ast::Field {
    ast::Field {
        ident: ident.to_string(),
        ty: "String".to_string(),
        vis: "pub".to_string(),
        attrs: vec![],
        name: name.map(|n| n.to_string()),
        allow_type_mismatch: false,
    }
}

// Type mapping: nested containers map container for container, and arrays of
// unique items map to the set container, never the sequence container.
#[test]
fn maps_nested_array_of_set_of_int64() {
    let ty = SchemaType::Array {
        items: item_of(SchemaType::Array {
            items: item_of(SchemaType::Integer { format: IntegerFormat::Int64 }),
            unique_items: true,
        }),
        unique_items: false,
    };
    assert_eq!(
        TypeSchema::try_from_type(&ty),
        Ok(TypeSchema::Array(Box::new(TypeSchema::SetOf(Box::new(TypeSchema::Int64)))))
    );
}

#[test]
fn maps_date_time_format_to_date_time() {
    let ty = SchemaType::String { format: StringFormat::DateTime, enumeration: vec![] };
    assert_eq!(TypeSchema::try_from_type(&ty), Ok(TypeSchema::DateTime));
    let ty = SchemaType::String { format: StringFormat::Date, enumeration: vec![] };
    assert_eq!(TypeSchema::try_from_type(&ty), Ok(TypeSchema::Date));
}

#[test]
fn maps_number_and_boolean_formats() {
    assert_eq!(
        TypeSchema::try_from_type(&SchemaType::Number { format: NumberFormat::Double }),
        Ok(TypeSchema::Double)
    );
    assert_eq!(
        TypeSchema::try_from_type(&SchemaType::Number { format: NumberFormat::Other }),
        Ok(TypeSchema::Float)
    );
    assert_eq!(TypeSchema::try_from_type(&SchemaType::Boolean), Ok(TypeSchema::Bool));
}

#[test]
fn maps_reference_to_object_and_rejects_inline_object() {
    let reference = RefOrSchema::Reference("Other".to_string());
    assert_eq!(
        TypeSchema::try_from_ref_or(&reference),
        Ok(TypeSchema::Object("Other".to_string()))
    );
    let inline = SchemaType::Object { properties: vec![], required: vec![] };
    assert_eq!(
        TypeSchema::try_from_type(&inline),
        Err(Error::UnsupportedNestedObjectType)
    );
}

#[test]
fn rejects_composition_kinds_with_their_names() {
    assert_eq!(
        TypeSchema::try_from_schema(&Schema { schema_kind: SchemaKind::OneOf }),
        Err(Error::UnsupportedSchemaType("oneOf".to_string()))
    );
    assert_eq!(
        TypeSchema::try_from_schema(&Schema { schema_kind: SchemaKind::AllOf }),
        Err(Error::UnsupportedSchemaType("allOf".to_string()))
    );
    assert_eq!(
        TypeSchema::try_from_schema(&Schema { schema_kind: SchemaKind::AnyOf }),
        Err(Error::UnsupportedSchemaType("anyOf".to_string()))
    );
    assert_eq!(
        TypeSchema::try_from_schema(&Schema { schema_kind: SchemaKind::Any }),
        Err(Error::UnsupportedSchemaType("any".to_string()))
    );
}

#[test]
fn renders_type_text() {
    let ty = TypeCodegen::Array(Box::new(TypeCodegen::SetOf(Box::new(TypeCodegen::Int64))));
    assert_eq!(ty.type_text(), "Vec<std::collections::HashSet<i64>>".to_string());
    let ty = TypeCodegen::Optional(Box::new(TypeCodegen::Int32));
    assert_eq!(ty.type_text(), "Option<i32>".to_string());
    assert_eq!(TypeCodegen::Date.type_text(), "String".to_string());
    assert_eq!(
        TypeCodegen::Verbatim("MyType".to_string()).type_text(),
        "MyType".to_string()
    );
}

// Schema derivation errors.
#[test]
fn enum_requires_nonempty_enumeration() {
    assert_eq!(EnumSchema::try_from(&enum_schema(&[])), Err(Error::EnumNotDefined));
}

#[test]
fn enum_requires_string_schema() {
    let obj = schema_of(SchemaType::Object { properties: vec![], required: vec![] });
    assert_eq!(EnumSchema::try_from(&obj), Err(Error::UnsupportedEnumType));
}

#[test]
fn struct_requires_object_schema() {
    assert_eq!(
        StructSchema::try_from(&enum_schema(&["a"])),
        Err(Error::UnsupportedStructType)
    );
}

#[test]
fn struct_rejects_required_name_without_property() {
    let obj = schema_of(SchemaType::Object {
        properties: vec![Property { name: "a".to_string(), schema: item_of(plain_string()) }],
        required: vec!["a".to_string(), "ghost_name".to_string()],
    });
    assert_eq!(
        StructSchema::try_from(&obj),
        Err(Error::UnknownField("ghost_name".to_string()))
    );
}

// The merge engine: a declared variant missing from the schema is an error
// during generation, while an omitted schema value is not; the checker
// reports the omission instead.
#[test]
fn generation_tolerates_omission_check_reports_it() {
    let schema = EnumSchema::try_from(&enum_schema(&["foo", "bar"])).unwrap();
    let decl = enum_decl("Thing", vec![variant("Foo", Some("foo"))]);

    let generated = codegen_enums::Enum::combined(decl.clone(), schema).unwrap();
    assert_eq!(generated.variants.len(), 2);

    let schema = EnumSchema::try_from(&enum_schema(&["foo", "bar"])).unwrap();
    assert_eq!(
        decl.check(&schema),
        Err(Error::CheckFailed(CheckFailure::MissingVariants(vec!["bar".to_string()])))
    );
}

#[test]
fn generation_fails_on_extra_declared_member() {
    let obj = schema_of(SchemaType::Object {
        properties: vec![Property { name: "known".to_string(), schema: item_of(plain_string()) }],
        required: vec![],
    });
    let schema = StructSchema::try_from(&obj).unwrap();
    let decl = StructContainer {
        ident: "Thing".to_string(),
        attrs: vec![],
        fields: vec![field("known", None), field("extra", None)],
        vis: "pub".to_string(),
        allow_type_mismatch: false,
    };

    let schema2 = StructSchema::try_from(&obj).unwrap();
    assert_eq!(
        codegen_structs::Struct::combined(decl.clone(), schema),
        Err(Error::InvalidStructField("extra".to_string()))
    );
    assert_eq!(
        decl.check(&schema2),
        Err(Error::CheckFailed(CheckFailure::UnknownFields(vec!["extra".to_string()])))
    );
}

// The checker: unknown keys win over missing keys, and payloads are sorted.
#[test]
fn unknown_keys_win_over_missing_keys() {
    let schema = EnumSchema::try_from(&enum_schema(&["a", "b", "c"])).unwrap();
    let decl = enum_decl(
        "Thing",
        vec![variant("X", Some("x")), variant("A", Some("a"))],
    );
    assert_eq!(
        decl.check(&schema),
        Err(Error::CheckFailed(CheckFailure::UnknownVariants(vec!["x".to_string()])))
    );
}

#[test]
fn missing_payload_is_sorted_without_duplicates() {
    let schema = EnumSchema::try_from(&enum_schema(&["delta", "alpha", "echo", "bravo"])).unwrap();
    let decl = enum_decl("Thing", vec![variant("Echo", Some("echo"))]);
    assert_eq!(
        decl.check(&schema),
        Err(Error::CheckFailed(CheckFailure::MissingVariants(vec![
            "alpha".to_string(),
            "bravo".to_string(),
            "delta".to_string()
        ])))
    );
}

#[test]
fn duplicate_declared_keys_are_reported_once() {
    let schema = EnumSchema::try_from(&enum_schema(&["a"])).unwrap();
    let decl = enum_decl(
        "Thing",
        vec![
            variant("A", Some("a")),
            variant("X1", Some("x")),
            variant("X2", Some("x")),
        ],
    );
    assert_eq!(
        decl.check(&schema),
        Err(Error::CheckFailed(CheckFailure::UnknownVariants(vec!["x".to_string()])))
    );
}

#[test]
fn check_succeeds_on_equal_key_sets_with_overrides() {
    let obj = schema_of(SchemaType::Object {
        properties: vec![
            Property { name: "fooBar".to_string(), schema: item_of(plain_string()) },
        ],
        required: vec![],
    });
    let schema = StructSchema::try_from(&obj).unwrap();
    let decl = StructContainer {
        ident: "Thing".to_string(),
        attrs: vec![],
        fields: vec![field("foo_bar", Some("fooBar"))],
        vis: "pub".to_string(),
        allow_type_mismatch: false,
    };
    assert_eq!(decl.check(&schema), Ok(()));
}

// Generation: member ordering is deterministic, by final identifier.
#[test]
fn generated_members_are_sorted_by_identifier() {
    let schema = EnumSchema::try_from(&enum_schema(&["zulu", "alpha", "mike"])).unwrap();
    let decl = enum_decl("Thing", vec![]);
    let generated = codegen_enums::Enum::combined(decl, schema).unwrap();
    let names: Vec<String> = generated.variants.iter().map(|v| v.name.clone()).collect();
    assert_eq!(
        names,
        vec!["Alpha".to_string(), "Mike".to_string(), "Zulu".to_string()]
    );
}

// The casing conventions: enum identifiers take the type-name convention,
// field identifiers the member convention.
#[test]
fn seeded_identifiers_take_casing_conventions() {
    let schema = EnumSchema::try_from(&enum_schema(&["foo_bar"])).unwrap();
    let decl = enum_decl("Thing", vec![]);
    let generated = codegen_enums::Enum::combined(decl, schema).unwrap();
    assert_eq!(generated.variants[0].name, "FooBar".to_string());
    assert_eq!(generated.variants[0].value, "foo_bar".to_string());

    let obj = schema_of(SchemaType::Object {
        properties: vec![Property { name: "fooBar".to_string(), schema: item_of(plain_string()) }],
        required: vec![],
    });
    let schema = StructSchema::try_from(&obj).unwrap();
    let decl = StructContainer {
        ident: "Thing".to_string(),
        attrs: vec![],
        fields: vec![],
        vis: "pub".to_string(),
        allow_type_mismatch: false,
    };
    let generated = codegen_structs::Struct::combined(decl, schema).unwrap();
    assert_eq!(generated.fields[0].ident, "foo_bar".to_string());
    assert_eq!(generated.fields[0].name, "fooBar".to_string());
}

// Overlay: a hand-authored member replaces identifier, attributes, type and
// visibility, keeping the schema key; the last matching member wins.
#[test]
fn overlay_replaces_hand_authored_parts() {
    let obj = schema_of(SchemaType::Object {
        properties: vec![Property {
            name: "count".to_string(),
            schema: item_of(SchemaType::Integer { format: IntegerFormat::Int64 }),
        }],
        required: vec!["count".to_string()],
    });
    let schema = StructSchema::try_from(&obj).unwrap();
    let decl = StructContainer {
        ident: "Thing".to_string(),
        attrs: vec![],
        fields: vec![ast::Field {
            ident: "total".to_string(),
            ty: "u128".to_string(),
            vis: "pub(crate)".to_string(),
            attrs: vec!["#[serde(default)]".to_string()],
            name: Some("count".to_string()),
            allow_type_mismatch: true,
        }],
        vis: "pub".to_string(),
        allow_type_mismatch: false,
    };
    let generated = codegen_structs::Struct::combined(decl, schema).unwrap();
    assert_eq!(generated.fields.len(), 1);
    let f = &generated.fields[0];
    assert_eq!(f.ident, "total".to_string());
    assert_eq!(f.name, "count".to_string());
    assert_eq!(f.ty, TypeCodegen::Verbatim("u128".to_string()));
    assert_eq!(f.vis, "pub(crate)".to_string());
    assert_eq!(f.attrs, vec!["#[serde(default)]".to_string()]);
}

// Orchestration: the reference override resolves against its own component
// key, not the declaration's identifier; resolution failures carry the key.
#[test]
fn reference_override_resolves_other_component() {
    let document = Document {
        components: Some(Components {
            schemas: vec![NamedComponent {
                name: "Other".to_string(),
                schema: RefOrSchema::Item(Box::new(enum_schema(&["foo"]))),
            }],
        }),
    };
    let input = Container {
        ident: "Thing".to_string(),
        attrs: vec![],
        data: ContainerData::Enum(vec![]),
        vis: "".to_string(),
        allow_type_mismatch: false,
    };
    let with_override = OpenApiArgs {
        schema: "schema.yaml".to_string(),
        reference: Some("Other".to_string()),
    };
    assert!(from_openapi(input.clone(), &with_override, &document).is_ok());

    let without_override = OpenApiArgs { schema: "schema.yaml".to_string(), reference: None };
    assert_eq!(
        from_openapi(input, &without_override, &document),
        Err(Error::ModelNotFound("Thing".to_string()))
    );
}

#[test]
fn missing_components_and_indirections_are_rejected() {
    let empty = Document { components: None };
    let input = Container {
        ident: "Thing".to_string(),
        attrs: vec![],
        data: ContainerData::Enum(vec![]),
        vis: "".to_string(),
        allow_type_mismatch: false,
    };
    let args = OpenApiArgs { schema: "schema.yaml".to_string(), reference: None };
    assert_eq!(
        check_openapi(input.clone(), &args, &empty),
        Err(Error::MissingComponents)
    );

    let indirection = Document {
        components: Some(Components {
            schemas: vec![NamedComponent {
                name: "Thing".to_string(),
                schema: RefOrSchema::Reference("Elsewhere".to_string()),
            }],
        }),
    };
    assert_eq!(
        check_openapi(input, &args, &indirection),
        Err(Error::ModelNotFound("Thing".to_string()))
    );
}

// Messages: the surfaced diagnostic text of each failure kind.
#[test]
fn error_messages_read_as_documented() {
    assert_eq!(
        Error::ModelNotFound("Thing".to_string()).message(),
        "model 'Thing' not found in schemas".to_string()
    );
    assert_eq!(
        Error::CheckFailed(CheckFailure::MissingFields(vec![
            "a".to_string(),
            "b".to_string()
        ]))
        .message(),
        "schema check failed due to missing fields: a, b".to_string()
    );
    assert_eq!(
        Error::UnsupportedSchemaType("oneOf".to_string()).message(),
        "'oneOf' is not supported".to_string()
    );
    assert_eq!(Error::EnumNotDefined.message(), "enum not defined".to_string());
    assert_eq!(
        Error::FileOpenFailed("x.yaml".to_string()).message(),
        "failed to open file 'x.yaml'".to_string()
    );
    assert_eq!(
        Error::FileReadFailed("x.yaml".to_string()).message(),
        "failed to read file 'x.yaml'".to_string()
    );
    assert_eq!(
        Error::Darling("bad option".to_string()).message(),
        "bad option".to_string()
    );
    assert_eq!(
        Error::InvalidEnumVariant("v".to_string()).message(),
        "unknown variant 'v'".to_string()
    );
    assert_eq!(
        Error::UnknownField("f".to_string()).message(),
        "unknown field 'f'".to_string()
    );
    assert_eq!(
        Error::MissingComponents.message(),
        "schema missing components structure".to_string()
    );
    assert_eq!(
        CheckFailure::UnknownVariants(vec!["z".to_string()]).message(),
        "unknown variants: z".to_string()
    );
}

// Rendering: a generated declaration renders as the definition text the
// serializer parses into tokens.
#[test]
fn renders_enum_definition_text() {
    let e = codegen_enums::Enum {
        name: "TestEnum".to_string(),
        variants: vec![
            codegen_enums::Variant {
                name: "Bar".to_string(),
                attrs: vec!["#[some_attribute]".to_string()],
                value: "bar".to_string(),
            },
            codegen_enums::Variant {
                name: "Foo".to_string(),
                attrs: vec![],
                value: "foo".to_string(),
            },
        ],
        vis: "pub".to_string(),
        attrs: vec!["#[derive(Debug)]".to_string()],
    };
    assert_eq!(
        e.definition_text(),
        "#[derive(Debug)]\npub enum TestEnum {\n    #[some_attribute]\n    Bar,\n    Foo\n}"
            .to_string()
    );
}

#[test]
fn renders_struct_definition_text() {
    let s = codegen_structs::Struct {
        ident: "TestStruct".to_string(),
        attrs: vec![],
        fields: vec![
            codegen_structs::Field {
                ident: "bar".to_string(),
                name: "bar".to_string(),
                ty: TypeCodegen::Optional(Box::new(TypeCodegen::Int32)),
                vis: "pub".to_string(),
                attrs: vec![],
            },
            codegen_structs::Field {
                ident: "foo".to_string(),
                name: "foo".to_string(),
                ty: TypeCodegen::String,
                vis: "pub".to_string(),
                attrs: vec![],
            },
        ],
        vis: "".to_string(),
    };
    assert_eq!(
        s.definition_text(),
        " struct TestStruct {\n    pub bar: Option<i32>,\n    pub foo: String\n}".to_string()
    );
}

#[test]
fn bool_true_returns_true() {
    assert!(openapi_to_rust::bool_true());
}
