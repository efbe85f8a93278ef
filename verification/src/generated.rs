use crate::codegen_enums::Enum;
use crate::codegen_enums::EnumGenModel;
use crate::codegen_structs::Struct;
use crate::codegen_structs::StructGenModel;
use crate::document::Document;
use crate::document::DocumentModel;
use crate::document::RefOrSchema;
use crate::document::RefOrSchemaModel;
use crate::document::Schema;
use crate::document::SchemaModel;
use crate::error::Error;
use crate::error::ErrorModel;
use vstd::prelude::*;

verus! {

/// The fully resolved declaration an invocation hands to the serializer.
#[derive(Debug, PartialEq, Eq)]
pub enum GeneratedDeclaration {
    Enum(Enum),
    Struct(Struct),
}

/// Specification-level mirror of [`GeneratedDeclaration`].
#[verifier::ext_equal]
pub enum GeneratedDeclarationModel {
    Enum(EnumGenModel),
    Struct(StructGenModel),
}

impl View for GeneratedDeclaration {
    type V = GeneratedDeclarationModel;

    open spec fn view(&self) -> GeneratedDeclarationModel {
        match self {
            GeneratedDeclaration::Enum(e) => GeneratedDeclarationModel::Enum(e@),
            GeneratedDeclaration::Struct(s) => GeneratedDeclarationModel::Struct(s@),
        }
    }
}

/// The schema fragment filed under the reference: the document must hold a
/// components section, and the entry must be an inline item, not an
/// indirection.
pub open spec fn resolve_component(doc: DocumentModel, reference: Seq<char>) -> Result<
    SchemaModel,
    ErrorModel,
> {
    match doc.components {
        None => Err(ErrorModel::MissingComponents),
        Some(cs) => match cs.lookup(reference) {
            Some(RefOrSchemaModel::Item(s)) => Ok(*s),
            _ => Err(ErrorModel::ModelNotFound(reference)),
        },
    }
}

/// Resolves the named component of the document to an inline schema fragment.
pub fn lookup_component<'a>(document: &'a Document, reference: &String) -> (r: Result<
    &'a Schema,
    Error,
>)
    ensures
        match r {
            Ok(s) => resolve_component(document@, reference@) == Ok::<SchemaModel, ErrorModel>(s@),
            Err(e) => resolve_component(document@, reference@) == Err::<SchemaModel, ErrorModel>(
                e@,
            ),
        },
{
    let components = match &document.components {
        Some(c) => c,
        None => {
            return Err(Error::MissingComponents);
        },
    };
    match components.lookup(reference) {
        Some(entry) => match entry {
            RefOrSchema::Item(b) => Ok(&*b),
            RefOrSchema::Reference(_) => Err(Error::ModelNotFound(reference.clone())),
        },
        None => Err(Error::ModelNotFound(reference.clone())),
    }
}

} // verus!
