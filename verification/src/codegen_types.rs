use crate::schema_types::TypeSchema;
use crate::schema_types::TypeSchemaModel;
use vstd::prelude::*;

verus! {

/// A target-language type expression of a generated member: the rendered
/// forms of the supported schema types, an optional wrapper, and the verbatim
/// text of a hand-authored type.
#[derive(Debug, PartialEq, Eq)]
pub enum TypeCodegen {
    Int32,
    Int64,
    Float,
    Double,
    String,
    Bool,
    Date,
    DateTime,
    Array(Box<TypeCodegen>),
    SetOf(Box<TypeCodegen>),
    Object(String),
    Optional(Box<TypeCodegen>),
    Verbatim(String),
}

/// Specification-level mirror of [`TypeCodegen`].
#[verifier::ext_equal]
pub enum TypeCodegenModel {
    Int32,
    Int64,
    Float,
    Double,
    String,
    Bool,
    Date,
    DateTime,
    Array(Box<TypeCodegenModel>),
    SetOf(Box<TypeCodegenModel>),
    Object(Seq<char>),
    Optional(Box<TypeCodegenModel>),
    Verbatim(Seq<char>),
}

pub open spec fn view_type_codegen(t: TypeCodegen) -> TypeCodegenModel
    decreases t,
{
    match t {
        TypeCodegen::Int32 => TypeCodegenModel::Int32,
        TypeCodegen::Int64 => TypeCodegenModel::Int64,
        TypeCodegen::Float => TypeCodegenModel::Float,
        TypeCodegen::Double => TypeCodegenModel::Double,
        TypeCodegen::String => TypeCodegenModel::String,
        TypeCodegen::Bool => TypeCodegenModel::Bool,
        TypeCodegen::Date => TypeCodegenModel::Date,
        TypeCodegen::DateTime => TypeCodegenModel::DateTime,
        TypeCodegen::Array(t) => TypeCodegenModel::Array(Box::new(view_type_codegen(*t))),
        TypeCodegen::SetOf(t) => TypeCodegenModel::SetOf(Box::new(view_type_codegen(*t))),
        TypeCodegen::Object(r) => TypeCodegenModel::Object(r@),
        TypeCodegen::Optional(t) => TypeCodegenModel::Optional(Box::new(view_type_codegen(*t))),
        TypeCodegen::Verbatim(t) => TypeCodegenModel::Verbatim(t@),
    }
}

impl View for TypeCodegen {
    type V = TypeCodegenModel;

    open spec fn view(&self) -> TypeCodegenModel {
        view_type_codegen(*self)
    }
}

/// The type expression rendering a supported schema type, container for
/// container.
pub open spec fn codegen_of(t: TypeSchemaModel) -> TypeCodegenModel
    decreases t,
{
    match t {
        TypeSchemaModel::Int32 => TypeCodegenModel::Int32,
        TypeSchemaModel::Int64 => TypeCodegenModel::Int64,
        TypeSchemaModel::Float => TypeCodegenModel::Float,
        TypeSchemaModel::Double => TypeCodegenModel::Double,
        TypeSchemaModel::String => TypeCodegenModel::String,
        TypeSchemaModel::Bool => TypeCodegenModel::Bool,
        TypeSchemaModel::Date => TypeCodegenModel::Date,
        TypeSchemaModel::DateTime => TypeCodegenModel::DateTime,
        TypeSchemaModel::Array(t) => TypeCodegenModel::Array(Box::new(codegen_of(*t))),
        TypeSchemaModel::SetOf(t) => TypeCodegenModel::SetOf(Box::new(codegen_of(*t))),
        TypeSchemaModel::Object(r) => TypeCodegenModel::Object(r),
    }
}

/// A field's final type: the bare type when the field is required, the
/// optional wrapper otherwise.
pub open spec fn wrap_optional(t: TypeCodegenModel, required: bool) -> TypeCodegenModel {
    if required {
        t
    } else {
        TypeCodegenModel::Optional(Box::new(t))
    }
}

/// The rendered text of a type expression. The two date types render as plain
/// strings.
pub open spec fn type_text_spec(t: TypeCodegenModel) -> Seq<char>
    decreases t,
{
    match t {
        TypeCodegenModel::Int32 => "i32"@,
        TypeCodegenModel::Int64 => "i64"@,
        TypeCodegenModel::Float => "f32"@,
        TypeCodegenModel::Double => "f64"@,
        TypeCodegenModel::String => "String"@,
        TypeCodegenModel::Bool => "bool"@,
        TypeCodegenModel::Date => "String"@,
        TypeCodegenModel::DateTime => "String"@,
        TypeCodegenModel::Array(t) => "Vec<"@ + type_text_spec(*t) + ">"@,
        TypeCodegenModel::SetOf(t) => "std::collections::HashSet<"@ + type_text_spec(*t) + ">"@,
        TypeCodegenModel::Object(r) => r,
        TypeCodegenModel::Optional(t) => "Option<"@ + type_text_spec(*t) + ">"@,
        TypeCodegenModel::Verbatim(t) => t,
    }
}

impl TypeCodegen {
    /// Renders the type expression for a supported schema type.
    pub fn from(t: &TypeSchema) -> (r: TypeCodegen)
        ensures
            r@ == codegen_of(t@),
        decreases *t,
    {
        match t {
            TypeSchema::Int32 => TypeCodegen::Int32,
            TypeSchema::Int64 => TypeCodegen::Int64,
            TypeSchema::Float => TypeCodegen::Float,
            TypeSchema::Double => TypeCodegen::Double,
            TypeSchema::String => TypeCodegen::String,
            TypeSchema::Bool => TypeCodegen::Bool,
            TypeSchema::Date => TypeCodegen::Date,
            TypeSchema::DateTime => TypeCodegen::DateTime,
            TypeSchema::Array(inner) => TypeCodegen::Array(Box::new(Self::from(inner))),
            TypeSchema::SetOf(inner) => TypeCodegen::SetOf(Box::new(Self::from(inner))),
            TypeSchema::Object(r) => TypeCodegen::Object(r.clone()),
        }
    }

    /// The rendered text of the type expression.
    pub fn type_text(&self) -> (r: String)
        ensures
            r@ == type_text_spec(self@),
        decreases *self,
    {
        match self {
            TypeCodegen::Int32 => String::from_str("i32"),
            TypeCodegen::Int64 => String::from_str("i64"),
            TypeCodegen::Float => String::from_str("f32"),
            TypeCodegen::Double => String::from_str("f64"),
            TypeCodegen::String => String::from_str("String"),
            TypeCodegen::Bool => String::from_str("bool"),
            TypeCodegen::Date => String::from_str("String"),
            TypeCodegen::DateTime => String::from_str("String"),
            TypeCodegen::Array(t) => {
                let mut s = String::from_str("Vec<");
                let inner = t.type_text();
                s.append(inner.as_str());
                s.append(">");
                s
            },
            TypeCodegen::SetOf(t) => {
                let mut s = String::from_str("std::collections::HashSet<");
                let inner = t.type_text();
                s.append(inner.as_str());
                s.append(">");
                s
            },
            TypeCodegen::Object(r) => r.clone(),
            TypeCodegen::Optional(t) => {
                let mut s = String::from_str("Option<");
                let inner = t.type_text();
                s.append(inner.as_str());
                s.append(">");
                s
            },
            TypeCodegen::Verbatim(t) => t.clone(),
        }
    }
}

} // verus!
