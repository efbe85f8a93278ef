use vstd::prelude::*;

verus! {

/// Format marker of a string-typed schema, as far as the engine reads it:
/// the two dedicated date formats are distinguished, every other format is
/// treated alike.
#[derive(Clone, Copy, Debug, PartialEq, Eq, Structural)]
pub enum StringFormat {
    Date,
    DateTime,
    Other,
}

/// Format marker of a number-typed schema: only the double format is
/// distinguished.
#[derive(Clone, Copy, Debug, PartialEq, Eq, Structural)]
pub enum NumberFormat {
    Double,
    Other,
}

/// Format marker of an integer-typed schema: only the 64-bit format is
/// distinguished.
#[derive(Clone, Copy, Debug, PartialEq, Eq, Structural)]
pub enum IntegerFormat {
    Int64,
    Other,
}

/// A schema fragment that is either a reference to another component or an
/// inline item schema.
#[derive(Debug, PartialEq, Eq)]
pub enum RefOrSchema {
    Reference(String),
    Item(Box<Schema>),
}

/// A named property of an object-typed schema.
#[derive(Debug, PartialEq, Eq)]
pub struct Property {
    pub name: String,
    pub schema: RefOrSchema,
}

/// The concrete type of a schema fragment, holding exactly what the engine
/// reads of it. The members of a nested inline object are never inspected
/// (such a property is rejected), so the `Object` variant carries none.
#[derive(Debug, PartialEq, Eq)]
pub enum SchemaType {
    String { format: StringFormat, enumeration: Vec<String> },
    Number { format: NumberFormat },
    Integer { format: IntegerFormat },
    Object { properties: Vec<Property>, required: Vec<String> },
    Array { items: RefOrSchema, unique_items: bool },
    Boolean,
}

/// The kind of a schema fragment: a concrete type or one of the composition
/// kinds, which the engine rejects.
#[derive(Debug, PartialEq, Eq)]
pub enum SchemaKind {
    Type(SchemaType),
    OneOf,
    AllOf,
    AnyOf,
    Any,
}

/// A schema fragment.
#[derive(Debug, PartialEq, Eq)]
pub struct Schema {
    pub schema_kind: SchemaKind,
}

/// One entry of the document's component mapping.
#[derive(Debug, PartialEq, Eq)]
pub struct NamedComponent {
    pub name: String,
    pub schema: RefOrSchema,
}

/// The document's components section: a mapping from reference name to
/// schema fragment, in document order.
#[derive(Debug, PartialEq, Eq)]
pub struct Components {
    pub schemas: Vec<NamedComponent>,
}

/// An OpenAPI document, as far as the engine reads it.
#[derive(Debug, PartialEq, Eq)]
pub struct Document {
    pub components: Option<Components>,
}

/// Specification-level mirror of [`RefOrSchema`].
#[verifier::ext_equal]
pub enum RefOrSchemaModel {
    Reference(Seq<char>),
    Item(Box<SchemaModel>),
}

/// Specification-level mirror of [`Property`].
#[verifier::ext_equal]
pub struct PropertyModel {
    pub name: Seq<char>,
    pub schema: RefOrSchemaModel,
}

/// Specification-level mirror of [`SchemaType`].
#[verifier::ext_equal]
pub enum SchemaTypeModel {
    String { format: StringFormat, enumeration: Seq<Seq<char>> },
    Number { format: NumberFormat },
    Integer { format: IntegerFormat },
    Object { properties: Seq<PropertyModel>, required: Seq<Seq<char>> },
    Array { items: RefOrSchemaModel, unique_items: bool },
    Boolean,
}

/// Specification-level mirror of [`SchemaKind`].
#[verifier::ext_equal]
pub enum SchemaKindModel {
    Type(SchemaTypeModel),
    OneOf,
    AllOf,
    AnyOf,
    Any,
}

/// Specification-level mirror of [`Schema`].
#[verifier::ext_equal]
pub struct SchemaModel {
    pub schema_kind: SchemaKindModel,
}

/// Specification-level mirror of [`NamedComponent`].
#[verifier::ext_equal]
pub struct ComponentModel {
    pub name: Seq<char>,
    pub schema: RefOrSchemaModel,
}

/// Specification-level mirror of [`Components`].
#[verifier::ext_equal]
pub struct ComponentsModel {
    pub schemas: Seq<ComponentModel>,
}

/// Specification-level mirror of [`Document`].
#[verifier::ext_equal]
pub struct DocumentModel {
    pub components: Option<ComponentsModel>,
}

pub open spec fn view_ref_or_schema(r: RefOrSchema) -> RefOrSchemaModel
    decreases r,
{
    match r {
        RefOrSchema::Reference(s) => RefOrSchemaModel::Reference(s@),
        RefOrSchema::Item(b) => RefOrSchemaModel::Item(Box::new(view_schema(*b))),
    }
}

pub open spec fn view_schema(s: Schema) -> SchemaModel
    decreases s,
{
    SchemaModel { schema_kind: view_schema_kind(s.schema_kind) }
}

pub open spec fn view_schema_kind(k: SchemaKind) -> SchemaKindModel
    decreases k,
{
    match k {
        SchemaKind::Type(t) => SchemaKindModel::Type(view_schema_type(t)),
        SchemaKind::OneOf => SchemaKindModel::OneOf,
        SchemaKind::AllOf => SchemaKindModel::AllOf,
        SchemaKind::AnyOf => SchemaKindModel::AnyOf,
        SchemaKind::Any => SchemaKindModel::Any,
    }
}

pub open spec fn view_property(p: Property) -> PropertyModel
    decreases p,
{
    PropertyModel { name: p.name@, schema: view_ref_or_schema(p.schema) }
}

pub open spec fn view_properties(ps: Seq<Property>) -> Seq<PropertyModel>
    decreases ps,
{
    if ps.len() == 0 {
        Seq::empty()
    } else {
        seq![view_property(ps[0])] + view_properties(ps.subrange(1, ps.len() as int))
    }
}

pub open spec fn view_schema_type(t: SchemaType) -> SchemaTypeModel
    decreases t,
{
    match t {
        SchemaType::String { format, enumeration } => SchemaTypeModel::String {
            format,
            enumeration: enumeration.deep_view(),
        },
        SchemaType::Number { format } => SchemaTypeModel::Number { format },
        SchemaType::Integer { format } => SchemaTypeModel::Integer { format },
        SchemaType::Object { properties, required } => SchemaTypeModel::Object {
            properties: view_properties(properties@),
            required: required.deep_view(),
        },
        SchemaType::Array { items, unique_items } => SchemaTypeModel::Array {
            items: view_ref_or_schema(items),
            unique_items,
        },
        SchemaType::Boolean => SchemaTypeModel::Boolean,
    }
}

/// The view of a property sequence is its elementwise view.
pub proof fn lemma_view_properties(ps: Seq<Property>)
    ensures
        view_properties(ps).len() == ps.len(),
        forall|i: int| 0 <= i < ps.len() ==> view_properties(ps)[i] == view_property(ps[i]),
    decreases ps.len(),
{
    if ps.len() > 0 {
        lemma_view_properties(ps.subrange(1, ps.len() as int));
    }
}

impl View for RefOrSchema {
    type V = RefOrSchemaModel;

    open spec fn view(&self) -> RefOrSchemaModel {
        view_ref_or_schema(*self)
    }
}

impl View for Property {
    type V = PropertyModel;

    open spec fn view(&self) -> PropertyModel {
        view_property(*self)
    }
}

impl View for SchemaType {
    type V = SchemaTypeModel;

    open spec fn view(&self) -> SchemaTypeModel {
        view_schema_type(*self)
    }
}

impl View for SchemaKind {
    type V = SchemaKindModel;

    open spec fn view(&self) -> SchemaKindModel {
        view_schema_kind(*self)
    }
}

impl View for Schema {
    type V = SchemaModel;

    open spec fn view(&self) -> SchemaModel {
        view_schema(*self)
    }
}

impl View for NamedComponent {
    type V = ComponentModel;

    open spec fn view(&self) -> ComponentModel {
        ComponentModel { name: self.name@, schema: self.schema@ }
    }
}

impl View for Components {
    type V = ComponentsModel;

    open spec fn view(&self) -> ComponentsModel {
        ComponentsModel {
            schemas: Seq::new(self.schemas@.len(), |i: int| self.schemas@[i]@),
        }
    }
}

impl View for Document {
    type V = DocumentModel;

    open spec fn view(&self) -> DocumentModel {
        DocumentModel {
            components: match self.components {
                Some(c) => Some(c@),
                None => None,
            },
        }
    }
}

impl ComponentsModel {
    /// The schema fragment filed under `name`: the first entry carrying that
    /// name, as in the document's mapping, whose names are unique.
    pub open spec fn lookup(self, name: Seq<char>) -> Option<RefOrSchemaModel>
        decreases self.schemas.len(),
    {
        if self.schemas.len() == 0 {
            None
        } else if self.schemas[0].name == name {
            Some(self.schemas[0].schema)
        } else {
            ComponentsModel { schemas: self.schemas.skip(1) }.lookup(name)
        }
    }
}

impl Components {
    /// Finds the component filed under `name`.
    pub fn lookup(&self, name: &String) -> (r: Option<&RefOrSchema>)
        ensures
            match r {
                Some(e) => self@.lookup(name@) == Some(e@),
                None => self@.lookup(name@) is None,
            },
    {
        let n = self.schemas.len();
        let mut i: usize = 0;
        proof {
            assert(self@.schemas.skip(0) =~= self@.schemas);
            assert((ComponentsModel { schemas: self@.schemas.skip(0) }) =~= self@);
        }
        while i < n
            invariant
                i <= n,
                n == self.schemas@.len(),
                self@.lookup(name@) == (ComponentsModel {
                    schemas: self@.schemas.skip(i as int),
                }).lookup(name@),
            decreases n - i,
        {
            let entry = &self.schemas[i];
            proof {
                let tail = ComponentsModel { schemas: self@.schemas.skip(i as int) };
                assert(tail.schemas[0] == self@.schemas[i as int]);
                assert(self@.schemas[i as int] == self.schemas@[i as int]@);
                assert(tail.schemas.skip(1) =~= self@.schemas.skip(i + 1));
                assert((ComponentsModel { schemas: tail.schemas.skip(1) }) =~= (ComponentsModel {
                    schemas: self@.schemas.skip(i + 1),
                }));
            }
            if entry.name.eq(name) {
                return Some(&entry.schema);
            }
            i = i + 1;
        }
        proof {
            assert(self@.schemas.skip(i as int).len() == 0);
        }
        None
    }
}

} // verus!
