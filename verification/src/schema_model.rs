use crate::document::PropertyModel;
use crate::document::Property;
use crate::document::Schema;
use crate::document::SchemaKind;
use crate::document::SchemaKindModel;
use crate::document::SchemaModel;
use crate::document::SchemaType;
use crate::document::SchemaTypeModel;
use crate::document::lemma_view_properties;
use crate::document::view_properties;
use crate::error::Error;
use crate::error::ErrorModel;
use crate::schema_types::map_ref_or_schema;
use crate::schema_types::reflects;
use crate::schema_types::TypeSchema;
use crate::schema_types::TypeSchemaModel;
use vstd::prelude::*;

verus! {

/// A permissible string value of an enumeration.
#[derive(Debug, PartialEq, Eq)]
pub struct VariantSchema {
    pub value: String,
}

/// Specification-level mirror of [`VariantSchema`].
#[verifier::ext_equal]
pub struct VariantSchemaModel {
    pub value: Seq<char>,
}

impl View for VariantSchema {
    type V = VariantSchemaModel;

    open spec fn view(&self) -> VariantSchemaModel {
        VariantSchemaModel { value: self.value@ }
    }
}

impl DeepView for VariantSchema {
    type V = VariantSchemaModel;

    open spec fn deep_view(&self) -> VariantSchemaModel {
        self@
    }
}

/// An enumeration derived from a string-typed schema component.
#[derive(Debug, PartialEq, Eq)]
pub struct EnumSchema {
    pub variants: Vec<VariantSchema>,
}

/// Specification-level mirror of [`EnumSchema`].
#[verifier::ext_equal]
pub struct EnumSchemaModel {
    pub variants: Seq<VariantSchemaModel>,
}

impl View for EnumSchema {
    type V = EnumSchemaModel;

    open spec fn view(&self) -> EnumSchemaModel {
        EnumSchemaModel { variants: self.variants.deep_view() }
    }
}

/// A field derived from one property of an object-typed schema component.
#[derive(Debug, PartialEq, Eq)]
pub struct FieldSchema {
    pub ty: TypeSchema,
    pub name: String,
    pub required: bool,
}

/// Specification-level mirror of [`FieldSchema`].
#[verifier::ext_equal]
pub struct FieldSchemaModel {
    pub ty: TypeSchemaModel,
    pub name: Seq<char>,
    pub required: bool,
}

impl View for FieldSchema {
    type V = FieldSchemaModel;

    open spec fn view(&self) -> FieldSchemaModel {
        FieldSchemaModel { ty: self.ty@, name: self.name@, required: self.required }
    }
}

impl DeepView for FieldSchema {
    type V = FieldSchemaModel;

    open spec fn deep_view(&self) -> FieldSchemaModel {
        self@
    }
}

/// A struct derived from an object-typed schema component.
#[derive(Debug, PartialEq, Eq)]
pub struct StructSchema {
    pub fields: Vec<FieldSchema>,
}

/// Specification-level mirror of [`StructSchema`].
#[verifier::ext_equal]
pub struct StructSchemaModel {
    pub fields: Seq<FieldSchemaModel>,
}

impl View for StructSchema {
    type V = StructSchemaModel;

    open spec fn view(&self) -> StructSchemaModel {
        StructSchemaModel { fields: self.fields.deep_view() }
    }
}

/// The enumeration derived from a schema fragment: the fragment must be a
/// string type carrying a non-empty enumeration list, whose values become the
/// variants in list order.
pub open spec fn enum_from_schema(s: SchemaModel) -> Result<EnumSchemaModel, ErrorModel> {
    match s.schema_kind {
        SchemaKindModel::Type(SchemaTypeModel::String { format, enumeration }) => {
            if enumeration.len() > 0 {
                Ok(
                    EnumSchemaModel {
                        variants: enumeration.map_values(
                            |v: Seq<char>| VariantSchemaModel { value: v },
                        ),
                    },
                )
            } else {
                Err(ErrorModel::EnumNotDefined)
            }
        },
        _ => Err(ErrorModel::UnsupportedEnumType),
    }
}

/// The fields derived from an object's properties, in property order; the
/// first property whose type cannot be mapped decides the error. A field is
/// required exactly when the object's required-name list carries its name.
pub open spec fn fields_from_properties(
    ps: Seq<PropertyModel>,
    required: Seq<Seq<char>>,
) -> Result<Seq<FieldSchemaModel>, ErrorModel>
    decreases ps.len(),
{
    if ps.len() == 0 {
        Ok(Seq::empty())
    } else {
        match map_ref_or_schema(ps[0].schema) {
            Err(e) => Err(e),
            Ok(ty) => match fields_from_properties(ps.skip(1), required) {
                Err(e) => Err(e),
                Ok(rest) => Ok(
                    seq![
                        FieldSchemaModel {
                            ty,
                            name: ps[0].name,
                            required: required.contains(ps[0].name),
                        }
                    ] + rest,
                ),
            },
        }
    }
}

/// The first name of the required list that no property carries, if any: such
/// a name makes the schema itself malformed.
pub open spec fn first_unknown_required(
    ps: Seq<PropertyModel>,
    required: Seq<Seq<char>>,
) -> Option<Seq<char>>
    decreases required.len(),
{
    if required.len() == 0 {
        None
    } else if !(exists|i: int| 0 <= i < ps.len() && ps[i].name == required[0]) {
        Some(required[0])
    } else {
        first_unknown_required(ps, required.skip(1))
    }
}

/// The struct derived from a schema fragment: the fragment must be an object
/// type; its properties become fields; a required name with no matching
/// property is rejected.
pub open spec fn struct_from_schema(s: SchemaModel) -> Result<StructSchemaModel, ErrorModel> {
    match s.schema_kind {
        SchemaKindModel::Type(SchemaTypeModel::Object { properties, required }) => {
            match fields_from_properties(properties, required) {
                Err(e) => Err(e),
                Ok(fields) => match first_unknown_required(properties, required) {
                    Some(n) => Err(ErrorModel::UnknownField(n)),
                    None => Ok(StructSchemaModel { fields }),
                },
            }
        },
        _ => Err(ErrorModel::UnsupportedStructType),
    }
}

/// When every property's type maps, the derived fields are exactly one per
/// property, in order.
pub proof fn lemma_fields_from_properties_ok(ps: Seq<PropertyModel>, req: Seq<Seq<char>>)
    requires
        forall|j: int| 0 <= j < ps.len() ==> map_ref_or_schema(#[trigger] ps[j].schema) is Ok,
    ensures
        fields_from_properties(ps, req) is Ok,
        fields_from_properties(ps, req)->Ok_0.len() == ps.len(),
        forall|j: int|
            0 <= j < ps.len() ==> fields_from_properties(ps, req)->Ok_0[j] == (FieldSchemaModel {
                ty: map_ref_or_schema(ps[j].schema)->Ok_0,
                name: ps[j].name,
                required: req.contains(ps[j].name),
            }),
    decreases ps.len(),
{
    if ps.len() > 0 {
        assert(forall|j: int|
            0 <= j < ps.skip(1).len() ==> ps.skip(1)[j] == ps[j + 1]);
        lemma_fields_from_properties_ok(ps.skip(1), req);
    }
}

/// The first property whose type does not map decides the error of the field
/// derivation.
pub proof fn lemma_fields_from_properties_err(ps: Seq<PropertyModel>, req: Seq<Seq<char>>, k: int)
    requires
        0 <= k < ps.len(),
        map_ref_or_schema(ps[k].schema) is Err,
        forall|j: int| 0 <= j < k ==> map_ref_or_schema(#[trigger] ps[j].schema) is Ok,
    ensures
        fields_from_properties(ps, req) == Err::<Seq<FieldSchemaModel>, ErrorModel>(
            map_ref_or_schema(ps[k].schema)->Err_0,
        ),
    decreases k,
{
    if k > 0 {
        assert(forall|j: int|
            0 <= j < ps.skip(1).len() ==> ps.skip(1)[j] == ps[j + 1]);
        lemma_fields_from_properties_err(ps.skip(1), req, k - 1);
    }
}

/// When every required name has a matching property, nothing is unknown.
pub proof fn lemma_first_unknown_required_none(ps: Seq<PropertyModel>, req: Seq<Seq<char>>)
    requires
        forall|j: int|
            0 <= j < req.len() ==> exists|i: int| 0 <= i < ps.len() && ps[i].name == #[trigger] req[j],
    ensures
        first_unknown_required(ps, req) is None,
    decreases req.len(),
{
    if req.len() > 0 {
        assert(forall|j: int|
            0 <= j < req.skip(1).len() ==> req.skip(1)[j] == req[j + 1]);
        lemma_first_unknown_required_none(ps, req.skip(1));
    }
}

/// The first required name with no matching property decides the failure.
pub proof fn lemma_first_unknown_required_some(
    ps: Seq<PropertyModel>,
    req: Seq<Seq<char>>,
    k: int,
)
    requires
        0 <= k < req.len(),
        !(exists|i: int| 0 <= i < ps.len() && ps[i].name == req[k]),
        forall|j: int|
            0 <= j < k ==> exists|i: int| 0 <= i < ps.len() && ps[i].name == #[trigger] req[j],
    ensures
        first_unknown_required(ps, req) == Some(req[k]),
    decreases k,
{
    if k > 0 {
        assert(forall|j: int|
            0 <= j < req.skip(1).len() ==> req.skip(1)[j] == req[j + 1]);
        lemma_first_unknown_required_some(ps, req.skip(1), k - 1);
    }
}

/// Whether some string of `v` reads `name`.
pub(crate) fn contains_string(v: &Vec<String>, name: &String) -> (r: bool)
    ensures
        r == v.deep_view().contains(name@),
{
    let n = v.len();
    let mut i: usize = 0;
    while i < n
        invariant
            i <= n,
            n == v@.len(),
            forall|j: int| 0 <= j < i ==> v.deep_view()[j] != name@,
        decreases n - i,
    {
        if v[i].eq(name) {
            proof {
                assert(v.deep_view()[i as int] == name@);
            }
            return true;
        }
        i = i + 1;
    }
    proof {
        assert(forall|j: int| 0 <= j < v.deep_view().len() ==> v.deep_view()[j] != name@);
    }
    false
}

/// Whether some property of `ps` carries the name.
fn has_property(ps: &Vec<Property>, name: &String) -> (r: bool)
    ensures
        r == exists|i: int|
            0 <= i < view_properties(ps@).len() && view_properties(ps@)[i].name == name@,
{
    let n = ps.len();
    let mut i: usize = 0;
    proof {
        lemma_view_properties(ps@);
    }
    while i < n
        invariant
            i <= n,
            n == ps@.len(),
            view_properties(ps@).len() == ps@.len(),
            forall|j: int| 0 <= j < ps@.len() ==> view_properties(ps@)[j] == ps@[j]@,
            forall|j: int| 0 <= j < i ==> view_properties(ps@)[j].name != name@,
        decreases n - i,
    {
        if ps[i].name.eq(name) {
            proof {
                assert(view_properties(ps@)[i as int].name == name@);
            }
            return true;
        }
        i = i + 1;
    }
    false
}

impl EnumSchema {
    /// Derives the enumeration that a schema fragment defines.
    pub fn try_from(schema: &Schema) -> (r: Result<EnumSchema, Error>)
        ensures
            reflects(r, enum_from_schema(schema@)),
    {
        match &schema.schema_kind {
            SchemaKind::Type(SchemaType::String { format, enumeration }) => {
                if enumeration.len() > 0 {
                    let mut variants: Vec<VariantSchema> = Vec::new();
                    let n = enumeration.len();
                    let mut i: usize = 0;
                    while i < n
                        invariant
                            i <= n,
                            n == enumeration@.len(),
                            variants.deep_view().len() == i,
                            forall|j: int|
                                0 <= j < i ==> variants.deep_view()[j] == (VariantSchemaModel {
                                    value: enumeration.deep_view()[j],
                                }),
                        decreases n - i,
                    {
                        let ghost prev = variants.deep_view();
                        variants.push(VariantSchema { value: enumeration[i].clone() });
                        proof {
                            assert forall|j: int| 0 <= j < i + 1 implies variants.deep_view()[j]
                                == (VariantSchemaModel { value: enumeration.deep_view()[j] }) by {
                                if j < i {
                                    assert(variants.deep_view()[j] == prev[j]);
                                } else {
                                    assert(variants@[j].value@ == enumeration@[j]@);
                                }
                            }
                        }
                        i = i + 1;
                    }
                    proof {
                        assert(variants.deep_view() =~= enumeration.deep_view().map_values(
                            |v: Seq<char>| VariantSchemaModel { value: v },
                        ));
                    }
                    Ok(EnumSchema { variants })
                } else {
                    Err(Error::EnumNotDefined)
                }
            },
            _ => Err(Error::UnsupportedEnumType),
        }
    }
}

impl StructSchema {
    /// Derives the struct that a schema fragment defines.
    pub fn try_from(schema: &Schema) -> (r: Result<StructSchema, Error>)
        ensures
            reflects(r, struct_from_schema(schema@)),
    {
        match &schema.schema_kind {
            SchemaKind::Type(SchemaType::Object { properties, required }) => {
                let ghost ps = view_properties(properties@);
                let ghost req = required.deep_view();
                proof {
                    lemma_view_properties(properties@);
                    assert(schema@.schema_kind == SchemaKindModel::Type(
                        SchemaTypeModel::Object { properties: ps, required: req },
                    ));
                }
                let mut fields: Vec<FieldSchema> = Vec::new();
                let n = properties.len();
                let mut i: usize = 0;
                while i < n
                    invariant
                        i <= n,
                        n == properties@.len(),
                        ps == view_properties(properties@),
                        req == required.deep_view(),
                        ps.len() == n,
                        schema@.schema_kind == SchemaKindModel::Type(
                            (SchemaTypeModel::Object { properties: ps, required: req }),
                        ),
                        forall|j: int| 0 <= j < n ==> ps[j] == properties@[j]@,
                        forall|j: int|
                            0 <= j < i ==> map_ref_or_schema(#[trigger] ps[j].schema) is Ok,
                        fields.deep_view().len() == i,
                        forall|j: int|
                            0 <= j < i ==> fields.deep_view()[j] == (FieldSchemaModel {
                                ty: map_ref_or_schema(ps[j].schema)->Ok_0,
                                name: ps[j].name,
                                required: req.contains(ps[j].name),
                            }),
                    decreases n - i,
                {
                    let prop = &properties[i];
                    proof {
                        assert(ps[i as int].schema == prop.schema@);
                        assert(ps[i as int].name == prop.name@);
                    }
                    let ty = match TypeSchema::try_from_ref_or(&prop.schema) {
                        Ok(ty) => ty,
                        Err(e) => {
                            proof {
                                assert(map_ref_or_schema(ps[i as int].schema)
                                    == Err::<TypeSchemaModel, ErrorModel>(e@));
                                lemma_fields_from_properties_err(ps, req, i as int);
                            }
                            return Err(e);
                        },
                    };
                    let required_flag = contains_string(required, &prop.name);
                    let ghost prev = fields.deep_view();
                    fields.push(
                        FieldSchema { ty, name: prop.name.clone(), required: required_flag },
                    );
                    proof {
                        assert(map_ref_or_schema(ps[i as int].schema)
                            == Ok::<TypeSchemaModel, ErrorModel>(ty@));
                        assert forall|j: int| 0 <= j < i + 1 implies fields.deep_view()[j]
                            == (FieldSchemaModel {
                            ty: map_ref_or_schema(ps[j].schema)->Ok_0,
                            name: ps[j].name,
                            required: req.contains(ps[j].name),
                        }) by {
                            if j < i {
                                assert(fields.deep_view()[j] == prev[j]);
                            } else {
                                assert(fields@[j].ty@ == ty@);
                                assert(fields@[j].name@ == ps[j].name);
                                assert(fields@[j].required == req.contains(ps[j].name));
                            }
                        }
                    }
                    i = i + 1;
                }
                proof {
                    lemma_fields_from_properties_ok(ps, req);
                    assert(fields.deep_view() =~= fields_from_properties(ps, req)->Ok_0);
                }
                let nr = required.len();
                let mut j: usize = 0;
                while j < nr
                    invariant
                        j <= nr,
                        nr == required@.len(),
                        ps == view_properties(properties@),
                        req == required.deep_view(),
                        req.len() == nr,
                        schema@.schema_kind == SchemaKindModel::Type(
                            (SchemaTypeModel::Object { properties: ps, required: req }),
                        ),
                        fields_from_properties(ps, req) is Ok,
                        fields.deep_view() == fields_from_properties(ps, req)->Ok_0,
                        forall|k: int|
                            0 <= k < j ==> exists|i2: int|
                                0 <= i2 < ps.len() && ps[i2].name == #[trigger] req[k],
                    decreases nr - j,
                {
                    if !has_property(properties, &required[j]) {
                        proof {
                            lemma_first_unknown_required_some(ps, req, j as int);
                        }
                        return Err(Error::UnknownField(required[j].clone()));
                    }
                    j = j + 1;
                }
                proof {
                    lemma_first_unknown_required_none(ps, req);
                }
                Ok(StructSchema { fields })
            },
            _ => Err(Error::UnsupportedStructType),
        }
    }
}

} // verus!
