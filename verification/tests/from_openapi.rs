use openapi_to_rust::ast::Container;
use openapi_to_rust::ast::ContainerData;
use openapi_to_rust::codegen_enums;
use openapi_to_rust::codegen_structs;
use openapi_to_rust::from_openapi;
use openapi_to_rust::Components;
use openapi_to_rust::Document;
use openapi_to_rust::GeneratedDeclaration;
use openapi_to_rust::IntegerFormat;
use openapi_to_rust::NamedComponent;
use openapi_to_rust::OpenApiArgs;
use openapi_to_rust::Property;
use openapi_to_rust::RefOrSchema;
use openapi_to_rust::Schema;
use openapi_to_rust::SchemaKind;
use openapi_to_rust::SchemaType;
use openapi_to_rust::StringFormat;
use openapi_to_rust::TypeCodegen;

fn test_document() -> Document {
    Document {
        components: Some(Components {
            schemas: vec![
                NamedComponent {
                    name: "TestEnum".to_string(),
                    schema: RefOrSchema::Item(Box::new(Schema {
                        schema_kind: SchemaKind::Type(SchemaType::String {
                            format: StringFormat::Other,
                            enumeration: vec!["foo".to_string(), "bar".to_string()],
                        }),
                    })),
                },
                NamedComponent {
                    name: "TestStruct".to_string(),
                    schema: RefOrSchema::Item(Box::new(Schema {
                        schema_kind: SchemaKind::Type(SchemaType::Object {
                            properties: vec![
                                Property {
                                    name: "bar".to_string(),
                                    schema: RefOrSchema::Item(Box::new(Schema {
                                        schema_kind: SchemaKind::Type(SchemaType::Integer {
                                            format: IntegerFormat::Other,
                                        }),
                                    })),
                                },
                                Property {
                                    name: "foo".to_string(),
                                    schema: RefOrSchema::Item(Box::new(Schema {
                                        schema_kind: SchemaKind::Type(SchemaType::String {
                                            format: StringFormat::Other,
                                            enumeration: vec![],
                                        }),
                                    })),
                                },
                            ],
                            required: vec!["foo".to_string()],
                        }),
                    })),
                },
            ],
        }),
    }
}

fn args() -> OpenApiArgs {
    OpenApiArgs {
        schema: "./test-resources/test_schema.yaml".to_string(),
        reference: None,
    }
}

#[test]
fn test_enum() {
    let input = Container {
        ident: "TestEnum".to_string(),
        attrs: vec![],
        data: ContainerData::Enum(vec![]),
        vis: "".to_string(),
        allow_type_mismatch: false,
    };

    let expected = GeneratedDeclaration::Enum(codegen_enums::Enum {
        name: "TestEnum".to_string(),
        variants: vec![
            codegen_enums::Variant {
                name: "Bar".to_string(),
                attrs: vec![],
                value: "bar".to_string(),
            },
            codegen_enums::Variant {
                name: "Foo".to_string(),
                attrs: vec![],
                value: "foo".to_string(),
            },
        ],
        vis: "".to_string(),
        attrs: vec![],
    });

    assert_eq!(from_openapi(input, &args(), &test_document()), Ok(expected));
}

#[test]
fn test_struct() {
    let input = Container {
        ident: "TestStruct".to_string(),
        attrs: vec![],
        data: ContainerData::Struct(vec![]),
        vis: "".to_string(),
        allow_type_mismatch: false,
    };

    let expected = GeneratedDeclaration::Struct(codegen_structs::Struct {
        ident: "TestStruct".to_string(),
        attrs: vec![],
        fields: vec![
            codegen_structs::Field {
                ident: "bar".to_string(),
                name: "bar".to_string(),
                ty: TypeCodegen::Optional(Box::new(TypeCodegen::Int32)),
                vis: "pub".to_string(),
                attrs: vec![],
            },
            codegen_structs::Field {
                ident: "foo".to_string(),
                name: "foo".to_string(),
                ty: TypeCodegen::String,
                vis: "pub".to_string(),
                attrs: vec![],
            },
        ],
        vis: "".to_string(),
    });

    assert_eq!(from_openapi(input, &args(), &test_document()), Ok(expected));
}
