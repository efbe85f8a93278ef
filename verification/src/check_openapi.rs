use crate::ast::Container;
use crate::ast::ContainerData;
use crate::ast::ContainerDataModel;
use crate::ast::EnumContainer;
use crate::ast::EnumContainerModel;
use crate::ast::StructContainer;
use crate::ast::StructContainerModel;
use crate::attrs::OpenApiArgs;
use crate::check::enum_check_spec;
use crate::check::struct_check_spec;
use crate::check::Check;
use crate::codegen_enums::echoes_enum_container;
use crate::codegen_enums::Enum;
use crate::codegen_structs::echoes_struct_container;
use crate::codegen_structs::Struct;
use crate::document::Document;
use crate::error::Error;
use crate::error::ErrorModel;
use crate::generated::lookup_component;
use crate::generated::resolve_component;
use crate::generated::GeneratedDeclaration;
use crate::generated::GeneratedDeclarationModel;
use crate::schema_model::enum_from_schema;
use crate::schema_model::struct_from_schema;
use crate::schema_model::EnumSchema;
use crate::schema_model::StructSchema;
use vstd::prelude::*;

verus! {

/// Checks a hand-authored enumeration against the schema component the
/// configuration names; on success the declaration is re-emitted verbatim.
pub fn check_openapi_enum(cont: EnumContainer, args: &OpenApiArgs, document: &Document) -> (r:
    Result<Enum, Error>)
    ensures
        ({
            let reference = args@.reference_or(cont@.ident);
            match resolve_component(document@, reference) {
                Err(e) => r matches Err(err) && err@ == e,
                Ok(s) => match enum_from_schema(s) {
                    Err(e) => r matches Err(err) && err@ == e,
                    Ok(es) => match enum_check_spec(cont@.variants, es.variants) {
                        Err(e) => r matches Err(err) && err@ == e,
                        Ok(_) => r matches Ok(en) && echoes_enum_container(en@, cont@),
                    },
                },
            }
        }),
{
    let reference: String = match &args.reference {
        Some(rf) => rf.clone(),
        None => cont.ident.clone(),
    };
    let schema = match lookup_component(document, &reference) {
        Ok(s) => s,
        Err(e) => {
            return Err(e);
        },
    };
    let es = match EnumSchema::try_from(schema) {
        Ok(es) => es,
        Err(e) => {
            return Err(e);
        },
    };
    match cont.check(&es) {
        Ok(_) => {},
        Err(e) => {
            return Err(e);
        },
    }
    Ok(Enum::from(cont))
}

/// Checks a hand-authored struct against the schema component the
/// configuration names; on success the declaration is re-emitted verbatim.
pub fn check_openapi_struct(cont: StructContainer, args: &OpenApiArgs, document: &Document) -> (r:
    Result<Struct, Error>)
    ensures
        ({
            let reference = args@.reference_or(cont@.ident);
            match resolve_component(document@, reference) {
                Err(e) => r matches Err(err) && err@ == e,
                Ok(s) => match struct_from_schema(s) {
                    Err(e) => r matches Err(err) && err@ == e,
                    Ok(ss) => match struct_check_spec(cont@.fields, ss.fields) {
                        Err(e) => r matches Err(err) && err@ == e,
                        Ok(_) => r matches Ok(st) && echoes_struct_container(st@, cont@),
                    },
                },
            }
        }),
{
    let reference: String = match &args.reference {
        Some(rf) => rf.clone(),
        None => cont.ident.clone(),
    };
    let schema = match lookup_component(document, &reference) {
        Ok(s) => s,
        Err(e) => {
            return Err(e);
        },
    };
    let ss = match StructSchema::try_from(schema) {
        Ok(ss) => ss,
        Err(e) => {
            return Err(e);
        },
    };
    match cont.check(&ss) {
        Ok(_) => {},
        Err(e) => {
            return Err(e);
        },
    }
    Ok(Struct::from(cont))
}

/// Checks a hand-authored declaration against the schema component the
/// configuration names, dispatching on the declaration's own kind; on success
/// the declaration is re-emitted verbatim.
pub fn check_openapi(container: Container, args: &OpenApiArgs, document: &Document) -> (r: Result<
    GeneratedDeclaration,
    Error,
>)
    ensures
        ({
            let reference = args@.reference_or(container@.ident);
            match container@.data {
                ContainerDataModel::Enum(decls) => {
                    let cont = EnumContainerModel {
                        ident: container@.ident,
                        attrs: container@.attrs,
                        variants: decls,
                        vis: container@.vis,
                    };
                    match resolve_component(document@, reference) {
                        Err(e) => r matches Err(err) && err@ == e,
                        Ok(s) => match enum_from_schema(s) {
                            Err(e) => r matches Err(err) && err@ == e,
                            Ok(es) => match enum_check_spec(decls, es.variants) {
                                Err(e) => r matches Err(err) && err@ == e,
                                Ok(_) => r matches Ok(g) && g@ matches GeneratedDeclarationModel::Enum(en)
                                    && echoes_enum_container(en, cont),
                            },
                        },
                    }
                },
                ContainerDataModel::Struct(decls) => {
                    let cont = StructContainerModel {
                        ident: container@.ident,
                        attrs: container@.attrs,
                        fields: decls,
                        vis: container@.vis,
                        allow_type_mismatch: container@.allow_type_mismatch,
                    };
                    match resolve_component(document@, reference) {
                        Err(e) => r matches Err(err) && err@ == e,
                        Ok(s) => match struct_from_schema(s) {
                            Err(e) => r matches Err(err) && err@ == e,
                            Ok(ss) => match struct_check_spec(decls, ss.fields) {
                                Err(e) => r matches Err(err) && err@ == e,
                                Ok(_) => r matches Ok(g) && g@ matches GeneratedDeclarationModel::Struct(st)
                                    && echoes_struct_container(st, cont),
                            },
                        },
                    }
                },
            }
        }),
{
    let is_enum = match &container.data {
        ContainerData::Enum(_) => true,
        ContainerData::Struct(_) => false,
    };
    if is_enum {
        match check_openapi_enum(EnumContainer::from(container), args, document) {
            Ok(en) => Ok(GeneratedDeclaration::Enum(en)),
            Err(e) => Err(e),
        }
    } else {
        match check_openapi_struct(StructContainer::from(container), args, document) {
            Ok(st) => Ok(GeneratedDeclaration::Struct(st)),
            Err(e) => Err(e),
        }
    }
}

} // verus!
