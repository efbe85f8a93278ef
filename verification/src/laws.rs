use crate::ast::EnumContainerModel;
use crate::ast::StructContainerModel;
use crate::codegen_enums::combined_enum_ok;
use crate::codegen_enums::merged_variants;
use crate::codegen_enums::seed_variant;
use crate::codegen_enums::EnumGenModel;
use crate::codegen_structs::combined_struct_ok;
use crate::codegen_structs::merged_fields;
use crate::codegen_structs::seed_field;
use crate::codegen_structs::StructGenModel;
use crate::codegen_types::codegen_of;
use crate::codegen_types::wrap_optional;
use crate::document::RefOrSchemaModel;
use crate::document::SchemaTypeModel;
use crate::error::ErrorModel;
use crate::schema_types::TypeSchemaModel;
use crate::schema_model::EnumSchemaModel;
use crate::schema_model::StructSchemaModel;
use crate::schema_types::map_ref_or_schema;
use crate::schema_types::map_schema_type;
use vstd::prelude::*;

verus! {

/// The member is the seed of some field of the schema.
pub open spec fn is_seeded_field(
    f: crate::codegen_structs::FieldGenModel,
    sfs: Seq<crate::schema_model::FieldSchemaModel>,
) -> bool {
    exists|j: int| 0 <= j < sfs.len() && f == seed_field(#[trigger] sfs[j])
}

/// The member is the seed of some value of the schema.
pub open spec fn is_seeded_variant(
    v: crate::codegen_enums::VariantGenModel,
    svs: Seq<crate::schema_model::VariantSchemaModel>,
) -> bool {
    exists|j: int| 0 <= j < svs.len() && v == seed_variant(#[trigger] svs[j])
}

/// Generating from a schema with no hand-authored members reproduces exactly
/// one member per schema field, seeded as the schema prescribes: in
/// particular, its type is wrapped in the optional container exactly when the
/// field is not required.
pub proof fn lemma_round_trip_struct(
    container: StructContainerModel,
    schema: StructSchemaModel,
    st: StructGenModel,
)
    requires
        container.fields.len() == 0,
        combined_struct_ok(container, schema, st),
    ensures
        st.fields.len() == schema.fields.len(),
        forall|i: int|
            0 <= i < st.fields.len() ==> is_seeded_field(#[trigger] st.fields[i], schema.fields),
        forall|j: int|
            0 <= j < schema.fields.len() ==> st.fields.contains(seed_field(#[trigger] schema.fields[j])),
        forall|j: int|
            0 <= j < schema.fields.len() ==> seed_field(#[trigger] schema.fields[j]).ty
                == wrap_optional(codegen_of(schema.fields[j].ty), schema.fields[j].required),
{
    broadcast use vstd::multiset::group_multiset_axioms;

    let merged = merged_fields(schema.fields, container.fields);
    assert(forall|j: int| 0 <= j < schema.fields.len() ==> merged[j] == seed_field(#[trigger] schema.fields[j]));
    vstd::seq_lib::to_multiset_len(st.fields);
    vstd::seq_lib::to_multiset_len(merged);
    assert(st.fields.len() == merged.len());
    assert forall|i: int| 0 <= i < st.fields.len() implies is_seeded_field(
        #[trigger] st.fields[i],
        schema.fields,
    ) by {
        assert(st.fields.contains(st.fields[i]));
        vstd::seq_lib::to_multiset_contains(st.fields, st.fields[i]);
        vstd::seq_lib::to_multiset_contains(merged, st.fields[i]);
        assert(merged.contains(st.fields[i]));
        let j = choose|j: int| 0 <= j < merged.len() && merged[j] == st.fields[i];
        assert(st.fields[i] == seed_field(schema.fields[j]));
    }
    assert forall|j: int| 0 <= j < schema.fields.len() implies st.fields.contains(
        seed_field(#[trigger] schema.fields[j]),
    ) by {
        assert(merged[j] == seed_field(schema.fields[j]));
        assert(merged.contains(merged[j]));
        vstd::seq_lib::to_multiset_contains(merged, merged[j]);
        vstd::seq_lib::to_multiset_contains(st.fields, merged[j]);
    }
}

/// Generating from a schema with no hand-authored members reproduces exactly
/// one variant per schema value, seeded as the schema prescribes.
pub proof fn lemma_round_trip_enum(
    container: EnumContainerModel,
    schema: EnumSchemaModel,
    en: EnumGenModel,
)
    requires
        container.variants.len() == 0,
        combined_enum_ok(container, schema, en),
    ensures
        en.variants.len() == schema.variants.len(),
        forall|i: int|
            0 <= i < en.variants.len() ==> is_seeded_variant(
                #[trigger] en.variants[i],
                schema.variants,
            ),
        forall|j: int|
            0 <= j < schema.variants.len() ==> en.variants.contains(
                seed_variant(#[trigger] schema.variants[j]),
            ),
{
    broadcast use vstd::multiset::group_multiset_axioms;

    let merged = merged_variants(schema.variants, container.variants);
    assert(forall|j: int|
        0 <= j < schema.variants.len() ==> merged[j] == seed_variant(#[trigger] schema.variants[j]));
    vstd::seq_lib::to_multiset_len(en.variants);
    vstd::seq_lib::to_multiset_len(merged);
    assert(en.variants.len() == merged.len());
    assert forall|i: int| 0 <= i < en.variants.len() implies is_seeded_variant(
        #[trigger] en.variants[i],
        schema.variants,
    ) by {
        assert(en.variants.contains(en.variants[i]));
        vstd::seq_lib::to_multiset_contains(en.variants, en.variants[i]);
        vstd::seq_lib::to_multiset_contains(merged, en.variants[i]);
        assert(merged.contains(en.variants[i]));
        let j = choose|j: int| 0 <= j < merged.len() && merged[j] == en.variants[i];
        assert(en.variants[i] == seed_variant(schema.variants[j]));
    }
    assert forall|j: int| 0 <= j < schema.variants.len() implies en.variants.contains(
        seed_variant(#[trigger] schema.variants[j]),
    ) by {
        assert(merged[j] == seed_variant(schema.variants[j]));
        assert(merged.contains(merged[j]));
        vstd::seq_lib::to_multiset_contains(merged, merged[j]);
        vstd::seq_lib::to_multiset_contains(en.variants, merged[j]);
    }
}

/// An array whose items are unique always maps to the set container, never
/// the sequence container; any other array maps to the sequence container;
/// an array whose items do not map keeps their error.
pub proof fn lemma_unique_items_map_to_set(items: RefOrSchemaModel)
    ensures
        map_ref_or_schema(items) matches Ok(inner) ==> map_schema_type(
            (SchemaTypeModel::Array { items, unique_items: true }),
        ) == Ok::<TypeSchemaModel, ErrorModel>(TypeSchemaModel::SetOf(Box::new(inner))),
        map_ref_or_schema(items) matches Ok(inner) ==> map_schema_type(
            (SchemaTypeModel::Array { items, unique_items: false }),
        ) == Ok::<TypeSchemaModel, ErrorModel>(TypeSchemaModel::Array(Box::new(inner))),
        map_ref_or_schema(items) matches Err(e) ==> map_schema_type(
            (SchemaTypeModel::Array { items, unique_items: true }),
        ) == Err::<TypeSchemaModel, ErrorModel>(e),
{
}

} // verus!
