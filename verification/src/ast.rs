use vstd::prelude::*;

verus! {

/// A hand-authored enumeration variant: its in-language identifier, its
/// forwarded attributes, and an optional override of the schema value it
/// stands for.
#[derive(Debug, PartialEq, Eq, Clone)]
pub struct Variant {
    pub ident: String,
    pub attrs: Vec<String>,
    pub value: Option<String>,
}

/// Specification-level mirror of [`Variant`].
#[verifier::ext_equal]
pub struct VariantModel {
    pub ident: Seq<char>,
    pub attrs: Seq<Seq<char>>,
    pub value: Option<Seq<char>>,
}

impl VariantModel {
    /// The logical key: the value override if present, else the identifier.
    pub open spec fn key(self) -> Seq<char> {
        match self.value {
            Some(v) => v,
            None => self.ident,
        }
    }
}

impl View for Variant {
    type V = VariantModel;

    open spec fn view(&self) -> VariantModel {
        VariantModel {
            ident: self.ident@,
            attrs: self.attrs.deep_view(),
            value: match self.value {
                Some(v) => Some(v@),
                None => None,
            },
        }
    }
}

impl DeepView for Variant {
    type V = VariantModel;

    open spec fn deep_view(&self) -> VariantModel {
        self@
    }
}

impl Variant {
    /// The logical key by which the variant is matched against the schema.
    pub fn value(&self) -> (r: String)
        ensures
            r@ == self@.key(),
    {
        match &self.value {
            Some(v) => v.clone(),
            None => self.ident.clone(),
        }
    }
}

/// A hand-authored struct field: its identifier, declared type text,
/// visibility, forwarded attributes, an optional override of the schema field
/// name it stands for, and the acknowledgment marker for a knowingly diverged
/// type.
#[derive(Debug, PartialEq, Eq, Clone)]
pub struct Field {
    pub ident: String,
    pub ty: String,
    pub vis: String,
    pub attrs: Vec<String>,
    pub name: Option<String>,
    pub allow_type_mismatch: bool,
}

/// Specification-level mirror of [`Field`].
#[verifier::ext_equal]
pub struct FieldModel {
    pub ident: Seq<char>,
    pub ty: Seq<char>,
    pub vis: Seq<char>,
    pub attrs: Seq<Seq<char>>,
    pub name: Option<Seq<char>>,
    pub allow_type_mismatch: bool,
}

impl FieldModel {
    /// The logical key: the name override if present, else the identifier.
    pub open spec fn key(self) -> Seq<char> {
        match self.name {
            Some(n) => n,
            None => self.ident,
        }
    }
}

impl View for Field {
    type V = FieldModel;

    open spec fn view(&self) -> FieldModel {
        FieldModel {
            ident: self.ident@,
            ty: self.ty@,
            vis: self.vis@,
            attrs: self.attrs.deep_view(),
            name: match self.name {
                Some(n) => Some(n@),
                None => None,
            },
            allow_type_mismatch: self.allow_type_mismatch,
        }
    }
}

impl DeepView for Field {
    type V = FieldModel;

    open spec fn deep_view(&self) -> FieldModel {
        self@
    }
}

impl Field {
    /// The logical key by which the field is matched against the schema.
    pub fn field_name(&self) -> (r: String)
        ensures
            r@ == self@.key(),
    {
        match &self.name {
            Some(n) => n.clone(),
            None => self.ident.clone(),
        }
    }
}

/// The members of a parsed container: unit variants or named fields.
#[derive(Debug, PartialEq, Eq, Clone)]
pub enum ContainerData {
    Enum(Vec<Variant>),
    Struct(Vec<Field>),
}

/// Specification-level mirror of [`ContainerData`].
#[verifier::ext_equal]
pub enum ContainerDataModel {
    Enum(Seq<VariantModel>),
    Struct(Seq<FieldModel>),
}

impl View for ContainerData {
    type V = ContainerDataModel;

    open spec fn view(&self) -> ContainerDataModel {
        match self {
            ContainerData::Enum(vs) => ContainerDataModel::Enum(vs.deep_view()),
            ContainerData::Struct(fs) => ContainerDataModel::Struct(fs.deep_view()),
        }
    }
}

/// A hand-authored declaration as the front end hands it over: identifier,
/// container attributes, members, visibility, and the acknowledgment marker.
#[derive(Debug, PartialEq, Eq, Clone)]
pub struct Container {
    pub ident: String,
    pub attrs: Vec<String>,
    pub data: ContainerData,
    pub vis: String,
    pub allow_type_mismatch: bool,
}

/// Specification-level mirror of [`Container`].
#[verifier::ext_equal]
pub struct ContainerModel {
    pub ident: Seq<char>,
    pub attrs: Seq<Seq<char>>,
    pub data: ContainerDataModel,
    pub vis: Seq<char>,
    pub allow_type_mismatch: bool,
}

impl View for Container {
    type V = ContainerModel;

    open spec fn view(&self) -> ContainerModel {
        ContainerModel {
            ident: self.ident@,
            attrs: self.attrs.deep_view(),
            data: self.data@,
            vis: self.vis@,
            allow_type_mismatch: self.allow_type_mismatch,
        }
    }
}

/// A hand-authored enumeration declaration.
#[derive(Debug, PartialEq, Eq, Clone)]
pub struct EnumContainer {
    pub ident: String,
    pub attrs: Vec<String>,
    pub variants: Vec<Variant>,
    pub vis: String,
}

/// Specification-level mirror of [`EnumContainer`].
#[verifier::ext_equal]
pub struct EnumContainerModel {
    pub ident: Seq<char>,
    pub attrs: Seq<Seq<char>>,
    pub variants: Seq<VariantModel>,
    pub vis: Seq<char>,
}

impl View for EnumContainer {
    type V = EnumContainerModel;

    open spec fn view(&self) -> EnumContainerModel {
        EnumContainerModel {
            ident: self.ident@,
            attrs: self.attrs.deep_view(),
            variants: self.variants.deep_view(),
            vis: self.vis@,
        }
    }
}

impl EnumContainer {
    /// Narrows a parsed container that holds enumeration members.
    pub fn from(container: Container) -> (r: EnumContainer)
        requires
            container@.data is Enum,
        ensures
            r@.ident == container@.ident,
            r@.attrs == container@.attrs,
            r@.variants == container@.data->Enum_0,
            r@.vis == container@.vis,
    {
        match container.data {
            ContainerData::Enum(variants) => EnumContainer {
                ident: container.ident,
                attrs: container.attrs,
                variants,
                vis: container.vis,
            },
            ContainerData::Struct(_) => vstd::pervasive::unreached(),
        }
    }
}

/// A hand-authored struct declaration.
#[derive(Debug, PartialEq, Eq, Clone)]
pub struct StructContainer {
    pub ident: String,
    pub attrs: Vec<String>,
    pub fields: Vec<Field>,
    pub vis: String,
    pub allow_type_mismatch: bool,
}

/// Specification-level mirror of [`StructContainer`].
#[verifier::ext_equal]
pub struct StructContainerModel {
    pub ident: Seq<char>,
    pub attrs: Seq<Seq<char>>,
    pub fields: Seq<FieldModel>,
    pub vis: Seq<char>,
    pub allow_type_mismatch: bool,
}

impl View for StructContainer {
    type V = StructContainerModel;

    open spec fn view(&self) -> StructContainerModel {
        StructContainerModel {
            ident: self.ident@,
            attrs: self.attrs.deep_view(),
            fields: self.fields.deep_view(),
            vis: self.vis@,
            allow_type_mismatch: self.allow_type_mismatch,
        }
    }
}

impl StructContainer {
    /// Narrows a parsed container that holds struct members.
    pub fn from(container: Container) -> (r: StructContainer)
        requires
            container@.data is Struct,
        ensures
            r@.ident == container@.ident,
            r@.attrs == container@.attrs,
            r@.fields == container@.data->Struct_0,
            r@.vis == container@.vis,
            r@.allow_type_mismatch == container@.allow_type_mismatch,
    {
        match container.data {
            ContainerData::Struct(fields) => StructContainer {
                ident: container.ident,
                attrs: container.attrs,
                fields,
                vis: container.vis,
                allow_type_mismatch: container.allow_type_mismatch,
            },
            ContainerData::Enum(_) => vstd::pervasive::unreached(),
        }
    }
}

} // verus!
