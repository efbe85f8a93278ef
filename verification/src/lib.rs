pub mod ast;
mod attrs;
mod casing;
mod check;
mod check_openapi;
pub mod codegen_enums;
pub mod codegen_structs;
mod codegen_types;
mod document;
mod error;
mod from_openapi;
mod generated;
mod laws;
mod schema_model;
mod schema_types;
mod strutil;
mod utils;

pub use ast::Container;
pub use ast::ContainerData;
pub use ast::ContainerDataModel;
pub use ast::ContainerModel;
pub use ast::EnumContainer;
pub use ast::EnumContainerModel;
pub use ast::Field;
pub use ast::FieldModel;
pub use ast::StructContainer;
pub use ast::StructContainerModel;
pub use ast::Variant;
pub use ast::VariantModel;
pub use attrs::OpenApiArgs;
pub use attrs::OpenApiArgsModel;
pub use casing::camel_of;
pub use check_openapi::check_openapi;
pub use check_openapi::check_openapi_enum;
pub use check_openapi::check_openapi_struct;
pub use check::enum_check_spec;
pub use check::struct_check_spec;
pub use from_openapi::from_openapi;
pub use from_openapi::from_openapi_enum;
pub use from_openapi::from_openapi_struct;
pub use laws::lemma_round_trip_enum;
pub use laws::lemma_round_trip_struct;
pub use laws::lemma_unique_items_map_to_set;
pub use generated::lookup_component;
pub use generated::resolve_component;
pub use generated::GeneratedDeclaration;
pub use generated::GeneratedDeclarationModel;
pub use codegen_enums::first_invalid_variant;
pub use codegen_enums::last_variant_match;
pub use codegen_enums::merged_variants;
pub use codegen_enums::overlay_variant;
pub use codegen_enums::seed_variant;
pub use codegen_enums::sorted_variant_names;
pub use codegen_enums::Enum;
pub use codegen_enums::EnumGenModel;
pub use codegen_enums::VariantGenModel;
pub use codegen_structs::first_invalid_field;
pub use codegen_structs::last_field_match;
pub use codegen_structs::merged_fields;
pub use codegen_structs::overlay_field;
pub use codegen_structs::seed_field;
pub use codegen_structs::sorted_field_idents;
pub use codegen_structs::FieldGenModel;
pub use codegen_structs::Struct;
pub use codegen_structs::StructGenModel;
pub use codegen_types::codegen_of;
pub use codegen_types::type_text_spec;
pub use codegen_types::wrap_optional;
pub use codegen_types::TypeCodegen;
pub use codegen_types::TypeCodegenModel;
pub use check::field_keys;
pub use check::field_schema_keys;
pub use check::variant_keys;
pub use check::variant_schema_keys;
pub use check::Check;
pub use casing::snake_of;
pub use document::Components;
pub use document::ComponentsModel;
pub use document::ComponentModel;
pub use document::Document;
pub use document::DocumentModel;
pub use document::IntegerFormat;
pub use document::NamedComponent;
pub use document::NumberFormat;
pub use document::Property;
pub use document::PropertyModel;
pub use document::RefOrSchema;
pub use document::RefOrSchemaModel;
pub use document::Schema;
pub use document::SchemaKind;
pub use document::SchemaKindModel;
pub use document::SchemaModel;
pub use document::SchemaType;
pub use document::SchemaTypeModel;
pub use document::StringFormat;
pub use error::check_failure_message;
pub use error::comma_join;
pub use error::error_message;
pub use error::CheckFailure;
pub use error::CheckFailureModel;
pub use error::Error;
pub use error::ErrorModel;

pub use schema_model::enum_from_schema;
pub use schema_model::fields_from_properties;
pub use schema_model::first_unknown_required;
pub use schema_model::struct_from_schema;
pub use schema_model::EnumSchema;
pub use schema_model::EnumSchemaModel;
pub use schema_model::FieldSchema;
pub use schema_model::FieldSchemaModel;
pub use schema_model::StructSchema;
pub use schema_model::StructSchemaModel;
pub use schema_model::VariantSchema;
pub use schema_model::VariantSchemaModel;
pub use schema_types::map_ref_or_schema;
pub use schema_types::map_schema;
pub use schema_types::map_schema_type;
pub use schema_types::reflects;
pub use schema_types::TypeSchema;
pub use schema_types::TypeSchemaModel;
pub use strutil::canonical_keys;
pub use strutil::lemma_sorted_keys_of;
pub use strutil::lemma_strictly_sorted_unique;
pub use strutil::lex_le;
pub use strutil::lex_le_antisymmetric;
pub use strutil::lex_le_refl;
pub use strutil::lex_le_total;
pub use strutil::lex_le_trans;
pub use strutil::sorted_keys_of;
pub use strutil::strictly_sorted;
pub use strutil::sort_by_skey;
pub use strutil::sorted_by_skey;
pub use strutil::str_le;
pub use strutil::SortKey;
pub use utils::bool_true;
