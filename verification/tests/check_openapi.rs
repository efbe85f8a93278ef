use openapi_to_rust::ast::Container;
use openapi_to_rust::ast::ContainerData;
use openapi_to_rust::ast::Variant;
use openapi_to_rust::check_openapi;
use openapi_to_rust::codegen_enums;
use openapi_to_rust::CheckFailure;
use openapi_to_rust::Components;
use openapi_to_rust::Document;
use openapi_to_rust::Error;
use openapi_to_rust::GeneratedDeclaration;
use openapi_to_rust::IntegerFormat;
use openapi_to_rust::NamedComponent;
use openapi_to_rust::Property;
use openapi_to_rust::RefOrSchema;
use openapi_to_rust::Schema;
use openapi_to_rust::SchemaKind;
use openapi_to_rust::SchemaType;
use openapi_to_rust::StringFormat;

fn string_schema(values: &[&str]) -> RefOrSchema {
    RefOrSchema::Item(Box::new(Schema {
        schema_kind: SchemaKind::Type(SchemaType::String {
            format: StringFormat::Other,
            enumeration: values.iter().map(|v| v.to_string()).collect(),
        }),
    }))
}

fn object_schema(properties: Vec<(&str, SchemaType)>, required: &[&str]) -> RefOrSchema {
    RefOrSchema::Item(Box::new(Schema {
        schema_kind: SchemaKind::Type(SchemaType::Object {
            properties: properties
                .into_iter()
                .map(|(name, ty)| Property {
                    name: name.to_string(),
                    schema: RefOrSchema::Item(Box::new(Schema { schema_kind: SchemaKind::Type(ty) })),
                })
                .collect(),
            required: required.iter().map(|r| r.to_string()).collect(),
        }),
    }))
}

/// The document that `./test-resources/test_schema.yaml` denotes: an
/// enumeration component and a struct component.
fn test_document() -> Document {
    Document {
        components: Some(Components {
            schemas: vec![
                NamedComponent { name: "TestEnum".to_string(), schema: string_schema(&["foo", "bar"]) },
                NamedComponent {
                    name: "TestStruct".to_string(),
                    schema: object_schema(
                        vec![
                            ("bar", SchemaType::Integer { format: IntegerFormat::Other }),
                            (
                                "foo",
                                SchemaType::String {
                                    format: StringFormat::Other,
                                    enumeration: vec![],
                                },
                            ),
                        ],
                        &["foo"],
                    ),
                },
            ],
        }),
    }
}

fn args() -> openapi_to_rust::OpenApiArgs {
    openapi_to_rust::OpenApiArgs {
        schema: "./test-resources/test_schema.yaml".to_string(),
        reference: None,
    }
}

#[test]
fn test_enum_success() {
    let input = Container {
        ident: "TestEnum".to_string(),
        attrs: vec!["#[derive(Clone, Debug)]".to_string()],
        data: ContainerData::Enum(vec![
            Variant {
                ident: "Foo".to_string(),
                attrs: vec![],
                value: Some("foo".to_string()),
            },
            Variant {
                ident: "Bar".to_string(),
                attrs: vec!["#[some_attribute]".to_string()],
                value: Some("bar".to_string()),
            },
        ]),
        vis: "".to_string(),
        allow_type_mismatch: false,
    };

    let expected = GeneratedDeclaration::Enum(codegen_enums::Enum {
        name: "TestEnum".to_string(),
        variants: vec![
            codegen_enums::Variant {
                name: "Foo".to_string(),
                attrs: vec![],
                value: "foo".to_string(),
            },
            codegen_enums::Variant {
                name: "Bar".to_string(),
                attrs: vec!["#[some_attribute]".to_string()],
                value: "bar".to_string(),
            },
        ],
        vis: "".to_string(),
        attrs: vec!["#[derive(Clone, Debug)]".to_string()],
    });

    assert_eq!(check_openapi(input, &args(), &test_document()), Ok(expected));
}

#[test]
fn test_enum_missing_variants() {
    let input = Container {
        ident: "TestEnum".to_string(),
        attrs: vec!["#[derive(Clone, Debug)]".to_string()],
        data: ContainerData::Enum(vec![Variant {
            ident: "Bar".to_string(),
            attrs: vec!["#[some_attribute]".to_string()],
            value: Some("bar".to_string()),
        }]),
        vis: "".to_string(),
        allow_type_mismatch: false,
    };

    assert_eq!(
        check_openapi(input, &args(), &test_document()),
        Err(Error::CheckFailed(CheckFailure::MissingVariants(vec!["foo".to_string()])))
    );
}

#[test]
fn test_enum_unknown_variants() {
    let input = Container {
        ident: "TestEnum".to_string(),
        attrs: vec!["#[derive(Clone, Debug)]".to_string()],
        data: ContainerData::Enum(vec![
            Variant { ident: "Test".to_string(), attrs: vec![], value: None },
            Variant { ident: "Foo".to_string(), attrs: vec![], value: None },
            Variant {
                ident: "Bar".to_string(),
                attrs: vec!["#[some_attribute]".to_string()],
                value: Some("bar".to_string()),
            },
        ]),
        vis: "".to_string(),
        allow_type_mismatch: false,
    };

    assert_eq!(
        check_openapi(input, &args(), &test_document()),
        Err(Error::CheckFailed(CheckFailure::UnknownVariants(vec![
            "Foo".to_string(),
            "Test".to_string()
        ])))
    );
}

#[test]
fn test_check_openapi_success() {
    let input = Container {
        ident: "TestEnum".to_string(),
        attrs: vec![],
        data: ContainerData::Enum(vec![
            Variant {
                ident: "Foo".to_string(),
                attrs: vec![],
                value: Some("foo".to_string()),
            },
            Variant {
                ident: "Bar".to_string(),
                attrs: vec![],
                value: Some("bar".to_string()),
            },
        ]),
        vis: "".to_string(),
        allow_type_mismatch: false,
    };

    assert!(check_openapi(input, &args(), &test_document()).is_ok());
}
