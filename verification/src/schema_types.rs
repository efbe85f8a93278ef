use crate::document::RefOrSchema;
use crate::document::RefOrSchemaModel;
use crate::document::Schema;
use crate::document::SchemaKind;
use crate::document::SchemaModel;
use crate::document::SchemaKindModel;
use crate::document::SchemaType;
use crate::document::SchemaTypeModel;
use crate::document::IntegerFormat;
use crate::document::NumberFormat;
use crate::document::StringFormat;
use crate::error::Error;
use crate::error::ErrorModel;
use vstd::prelude::*;

verus! {

/// The schema types the engine supports. Objects are representable only as a
/// named reference to another schema component.
#[derive(Debug, PartialEq, Eq)]
pub enum TypeSchema {
    /// Signed 32-bit integer.
    Int32,
    /// Signed 64-bit integer.
    Int64,
    /// 32-bit floating-point number.
    Float,
    /// 64-bit floating-point number.
    Double,
    /// String.
    String,
    /// Boolean value.
    Bool,
    /// Date string.
    Date,
    /// Date-time string.
    DateTime,
    /// Array of a specific type.
    Array(Box<TypeSchema>),
    /// Array of unique items of a specific type.
    SetOf(Box<TypeSchema>),
    /// A reference to an object.
    Object(String),
}

/// Specification-level mirror of [`TypeSchema`].
#[verifier::ext_equal]
pub enum TypeSchemaModel {
    Int32,
    Int64,
    Float,
    Double,
    String,
    Bool,
    Date,
    DateTime,
    Array(Box<TypeSchemaModel>),
    SetOf(Box<TypeSchemaModel>),
    Object(Seq<char>),
}

pub open spec fn view_type_schema(t: TypeSchema) -> TypeSchemaModel
    decreases t,
{
    match t {
        TypeSchema::Int32 => TypeSchemaModel::Int32,
        TypeSchema::Int64 => TypeSchemaModel::Int64,
        TypeSchema::Float => TypeSchemaModel::Float,
        TypeSchema::Double => TypeSchemaModel::Double,
        TypeSchema::String => TypeSchemaModel::String,
        TypeSchema::Bool => TypeSchemaModel::Bool,
        TypeSchema::Date => TypeSchemaModel::Date,
        TypeSchema::DateTime => TypeSchemaModel::DateTime,
        TypeSchema::Array(t) => TypeSchemaModel::Array(Box::new(view_type_schema(*t))),
        TypeSchema::SetOf(t) => TypeSchemaModel::SetOf(Box::new(view_type_schema(*t))),
        TypeSchema::Object(r) => TypeSchemaModel::Object(r@),
    }
}

impl View for TypeSchema {
    type V = TypeSchemaModel;

    open spec fn view(&self) -> TypeSchemaModel {
        view_type_schema(*self)
    }
}

/// The executable result mirrors the specification-level result, member by
/// member.
pub open spec fn reflects<T: View, E: View>(r: Result<T, E>, m: Result<T::V, E::V>) -> bool {
    match r {
        Ok(t) => m == Ok::<T::V, E::V>(t@),
        Err(e) => m == Err::<T::V, E::V>(e@),
    }
}

/// The type-mapping rules for a concrete schema type: date formats map to the
/// dedicated date types, double and 64-bit formats to the wide number types,
/// arrays map recursively (to the set container exactly when items are
/// unique), and inline objects are rejected.
pub open spec fn map_schema_type(t: SchemaTypeModel) -> Result<TypeSchemaModel, ErrorModel>
    decreases t,
{
    match t {
        SchemaTypeModel::String { format, enumeration } => match format {
            StringFormat::Date => Ok(TypeSchemaModel::Date),
            StringFormat::DateTime => Ok(TypeSchemaModel::DateTime),
            StringFormat::Other => Ok(TypeSchemaModel::String),
        },
        SchemaTypeModel::Number { format } => match format {
            NumberFormat::Double => Ok(TypeSchemaModel::Double),
            NumberFormat::Other => Ok(TypeSchemaModel::Float),
        },
        SchemaTypeModel::Integer { format } => match format {
            IntegerFormat::Int64 => Ok(TypeSchemaModel::Int64),
            IntegerFormat::Other => Ok(TypeSchemaModel::Int32),
        },
        SchemaTypeModel::Object { properties, required } => Err(
            ErrorModel::UnsupportedNestedObjectType,
        ),
        SchemaTypeModel::Array { items, unique_items } => match map_ref_or_schema(items) {
            Ok(inner) => Ok(
                if unique_items {
                    TypeSchemaModel::SetOf(Box::new(inner))
                } else {
                    TypeSchemaModel::Array(Box::new(inner))
                },
            ),
            Err(e) => Err(e),
        },
        SchemaTypeModel::Boolean => Ok(TypeSchemaModel::Bool),
    }
}

/// The type mapping of a schema fragment: composition kinds are rejected with
/// the kind's name.
pub open spec fn map_schema(s: SchemaModel) -> Result<TypeSchemaModel, ErrorModel>
    decreases s,
{
    match s.schema_kind {
        SchemaKindModel::Type(t) => map_schema_type(t),
        SchemaKindModel::OneOf => Err(ErrorModel::UnsupportedSchemaType("oneOf"@)),
        SchemaKindModel::AllOf => Err(ErrorModel::UnsupportedSchemaType("allOf"@)),
        SchemaKindModel::AnyOf => Err(ErrorModel::UnsupportedSchemaType("anyOf"@)),
        SchemaKindModel::Any => Err(ErrorModel::UnsupportedSchemaType("any"@)),
    }
}

/// The type mapping of a property's schema: a reference maps to the object
/// type naming the referenced component.
pub open spec fn map_ref_or_schema(r: RefOrSchemaModel) -> Result<TypeSchemaModel, ErrorModel>
    decreases r,
{
    match r {
        RefOrSchemaModel::Reference(name) => Ok(TypeSchemaModel::Object(name)),
        RefOrSchemaModel::Item(b) => map_schema(*b),
    }
}

impl TypeSchema {
    /// Maps a concrete schema type to the supported type it denotes.
    pub fn try_from_type(t: &SchemaType) -> (r: Result<TypeSchema, Error>)
        ensures
            reflects(r, map_schema_type(t@)),
        decreases *t,
    {
        match t {
            SchemaType::String { format, enumeration } => match format {
                StringFormat::Date => Ok(TypeSchema::Date),
                StringFormat::DateTime => Ok(TypeSchema::DateTime),
                StringFormat::Other => Ok(TypeSchema::String),
            },
            SchemaType::Number { format } => match format {
                NumberFormat::Double => Ok(TypeSchema::Double),
                NumberFormat::Other => Ok(TypeSchema::Float),
            },
            SchemaType::Integer { format } => match format {
                IntegerFormat::Int64 => Ok(TypeSchema::Int64),
                IntegerFormat::Other => Ok(TypeSchema::Int32),
            },
            SchemaType::Object { properties, required } => Err(
                Error::UnsupportedNestedObjectType,
            ),
            SchemaType::Array { items, unique_items } => match Self::try_from_ref_or(items) {
                Ok(inner) => Ok(
                    if *unique_items {
                        TypeSchema::SetOf(Box::new(inner))
                    } else {
                        TypeSchema::Array(Box::new(inner))
                    },
                ),
                Err(e) => Err(e),
            },
            SchemaType::Boolean => Ok(TypeSchema::Bool),
        }
    }

    /// Maps a schema fragment, rejecting the composition kinds.
    pub fn try_from_schema(s: &Schema) -> (r: Result<TypeSchema, Error>)
        ensures
            reflects(r, map_schema(s@)),
        decreases *s,
    {
        match &s.schema_kind {
            SchemaKind::Type(t) => Self::try_from_type(t),
            SchemaKind::OneOf => Err(Error::UnsupportedSchemaType(String::from_str("oneOf"))),
            SchemaKind::AllOf => Err(Error::UnsupportedSchemaType(String::from_str("allOf"))),
            SchemaKind::AnyOf => Err(Error::UnsupportedSchemaType(String::from_str("anyOf"))),
            SchemaKind::Any => Err(Error::UnsupportedSchemaType(String::from_str("any"))),
        }
    }

    /// Maps a property's schema fragment, a reference or an inline item.
    pub fn try_from_ref_or(r: &RefOrSchema) -> (res: Result<TypeSchema, Error>)
        ensures
            reflects(res, map_ref_or_schema(r@)),
        decreases *r,
    {
        match r {
            RefOrSchema::Reference(reference) => Ok(TypeSchema::Object(reference.clone())),
            RefOrSchema::Item(schema) => Self::try_from_schema(schema),
        }
    }
}

} // verus!
