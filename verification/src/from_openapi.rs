use crate::ast::Container;
use crate::ast::ContainerData;
use crate::ast::ContainerDataModel;
use crate::ast::EnumContainer;
use crate::ast::EnumContainerModel;
use crate::ast::StructContainer;
use crate::ast::StructContainerModel;
use crate::attrs::OpenApiArgs;
use crate::check::variant_schema_keys;
use crate::check::field_schema_keys;
use crate::codegen_enums::combined_enum_ok;
use crate::codegen_enums::first_invalid_variant;
use crate::codegen_enums::Enum;
use crate::codegen_structs::combined_struct_ok;
use crate::codegen_structs::first_invalid_field;
use crate::codegen_structs::Struct;
use crate::document::Document;
use crate::error::Error;
use crate::error::ErrorModel;
use crate::generated::lookup_component;
use crate::generated::resolve_component;
use crate::generated::GeneratedDeclaration;
use crate::generated::GeneratedDeclarationModel;
use crate::schema_model::enum_from_schema;
use crate::schema_model::struct_from_schema;
use crate::schema_model::EnumSchema;
use crate::schema_model::StructSchema;
use vstd::prelude::*;

verus! {

/// Generates an enumeration from the schema component the configuration
/// names, overlaying the hand-authored variants.
pub fn from_openapi_enum(container: EnumContainer, args: &OpenApiArgs, document: &Document) -> (r:
    Result<Enum, Error>)
    ensures
        ({
            let reference = args@.reference_or(container@.ident);
            match resolve_component(document@, reference) {
                Err(e) => r matches Err(err) && err@ == e,
                Ok(s) => match enum_from_schema(s) {
                    Err(e) => r matches Err(err) && err@ == e,
                    Ok(es) => match first_invalid_variant(
                        container@.variants,
                        variant_schema_keys(es.variants),
                    ) {
                        Some(k) => r matches Err(err) && err@ == ErrorModel::InvalidEnumVariant(k),
                        None => r matches Ok(en) && combined_enum_ok(container@, es, en@),
                    },
                },
            }
        }),
{
    let reference: String = match &args.reference {
        Some(rf) => rf.clone(),
        None => container.ident.clone(),
    };
    let schema = match lookup_component(document, &reference) {
        Ok(s) => s,
        Err(e) => {
            return Err(e);
        },
    };
    let es = match EnumSchema::try_from(schema) {
        Ok(es) => es,
        Err(e) => {
            return Err(e);
        },
    };
    Enum::combined(container, es)
}

/// Generates a struct from the schema component the configuration names,
/// overlaying the hand-authored fields.
pub fn from_openapi_struct(
    container: StructContainer,
    args: &OpenApiArgs,
    document: &Document,
) -> (r: Result<Struct, Error>)
    ensures
        ({
            let reference = args@.reference_or(container@.ident);
            match resolve_component(document@, reference) {
                Err(e) => r matches Err(err) && err@ == e,
                Ok(s) => match struct_from_schema(s) {
                    Err(e) => r matches Err(err) && err@ == e,
                    Ok(ss) => match first_invalid_field(
                        container@.fields,
                        field_schema_keys(ss.fields),
                    ) {
                        Some(k) => r matches Err(err) && err@ == ErrorModel::InvalidStructField(k),
                        None => r matches Ok(st) && combined_struct_ok(container@, ss, st@),
                    },
                },
            }
        }),
{
    let reference: String = match &args.reference {
        Some(rf) => rf.clone(),
        None => container.ident.clone(),
    };
    let schema = match lookup_component(document, &reference) {
        Ok(s) => s,
        Err(e) => {
            return Err(e);
        },
    };
    let ss = match StructSchema::try_from(schema) {
        Ok(ss) => ss,
        Err(e) => {
            return Err(e);
        },
    };
    Struct::combined(container, ss)
}

/// Generates a declaration from the schema component the configuration names,
/// dispatching on the declaration's own kind.
pub fn from_openapi(container: Container, args: &OpenApiArgs, document: &Document) -> (r: Result<
    GeneratedDeclaration,
    Error,
>)
    ensures
        ({
            let reference = args@.reference_or(container@.ident);
            match container@.data {
                ContainerDataModel::Enum(decls) => {
                    let cont = EnumContainerModel {
                        ident: container@.ident,
                        attrs: container@.attrs,
                        variants: decls,
                        vis: container@.vis,
                    };
                    match resolve_component(document@, reference) {
                        Err(e) => r matches Err(err) && err@ == e,
                        Ok(s) => match enum_from_schema(s) {
                            Err(e) => r matches Err(err) && err@ == e,
                            Ok(es) => match first_invalid_variant(
                                decls,
                                variant_schema_keys(es.variants),
                            ) {
                                Some(k) => r matches Err(err) && err@
                                    == ErrorModel::InvalidEnumVariant(k),
                                None => r matches Ok(g) && g@ matches GeneratedDeclarationModel::Enum(en)
                                    && combined_enum_ok(cont, es, en),
                            },
                        },
                    }
                },
                ContainerDataModel::Struct(decls) => {
                    let cont = StructContainerModel {
                        ident: container@.ident,
                        attrs: container@.attrs,
                        fields: decls,
                        vis: container@.vis,
                        allow_type_mismatch: container@.allow_type_mismatch,
                    };
                    match resolve_component(document@, reference) {
                        Err(e) => r matches Err(err) && err@ == e,
                        Ok(s) => match struct_from_schema(s) {
                            Err(e) => r matches Err(err) && err@ == e,
                            Ok(ss) => match first_invalid_field(
                                decls,
                                field_schema_keys(ss.fields),
                            ) {
                                Some(k) => r matches Err(err) && err@
                                    == ErrorModel::InvalidStructField(k),
                                None => r matches Ok(g) && g@ matches GeneratedDeclarationModel::Struct(st)
                                    && combined_struct_ok(cont, ss, st),
                            },
                        },
                    }
                },
            }
        }),
{
    let is_enum = match &container.data {
        ContainerData::Enum(_) => true,
        ContainerData::Struct(_) => false,
    };
    if is_enum {
        match from_openapi_enum(EnumContainer::from(container), args, document) {
            Ok(en) => Ok(GeneratedDeclaration::Enum(en)),
            Err(e) => Err(e),
        }
    } else {
        match from_openapi_struct(StructContainer::from(container), args, document) {
            Ok(st) => Ok(GeneratedDeclaration::Struct(st)),
            Err(e) => Err(e),
        }
    }
}

} // verus!
