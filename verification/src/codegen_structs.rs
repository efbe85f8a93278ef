use crate::ast;
use crate::ast::StructContainer;
use crate::casing::snake_of;
use crate::casing::to_snake;
use crate::check::field_schema_keys;
use crate::codegen_enums::member_attrs_from;
use crate::codegen_enums::member_attrs_text;
use crate::codegen_enums::outer_attrs_from;
use crate::codegen_enums::outer_attrs_text;
use crate::codegen_types::codegen_of;
use crate::codegen_types::type_text_spec;
use crate::codegen_types::wrap_optional;
use crate::codegen_types::TypeCodegen;
use crate::codegen_types::TypeCodegenModel;
use crate::error::Error;
use crate::error::ErrorModel;
use crate::schema_model::FieldSchema;
use crate::schema_model::FieldSchemaModel;
use crate::schema_model::StructSchema;
use crate::strutil::clone_strings;
use crate::strutil::lex_le;
use crate::strutil::sort_by_skey;
use crate::strutil::str_le;
use crate::strutil::SortKey;
use vstd::prelude::*;

verus! {

/// A generated struct field: its identifier, the schema field name it stands
/// for, its final type expression, its visibility, and its attributes.
#[derive(Debug, PartialEq, Eq)]
pub struct Field {
    pub ident: String,
    pub name: String,
    pub ty: TypeCodegen,
    pub vis: String,
    pub attrs: Vec<String>,
}

/// Specification-level mirror of [`Field`].
#[verifier::ext_equal]
pub struct FieldGenModel {
    pub ident: Seq<char>,
    pub name: Seq<char>,
    pub ty: TypeCodegenModel,
    pub vis: Seq<char>,
    pub attrs: Seq<Seq<char>>,
}

impl View for Field {
    type V = FieldGenModel;

    open spec fn view(&self) -> FieldGenModel {
        FieldGenModel {
            ident: self.ident@,
            name: self.name@,
            ty: self.ty@,
            vis: self.vis@,
            attrs: self.attrs.deep_view(),
        }
    }
}

impl DeepView for Field {
    type V = FieldGenModel;

    open spec fn deep_view(&self) -> FieldGenModel {
        self@
    }
}

impl SortKey for Field {
    open spec fn skey(&self) -> Seq<char> {
        self.ident@
    }

    fn key_le(&self, other: &Self) -> (r: bool) {
        str_le(self.ident.as_str(), other.ident.as_str())
    }
}

/// The field seeded from one schema field: the identifier is the field name
/// in the member casing convention, the visibility is public, the type is the
/// mapped schema type wrapped in the optional container exactly when the
/// field is not required.
pub open spec fn seed_field(fs: FieldSchemaModel) -> FieldGenModel {
    FieldGenModel {
        ident: snake_of(fs.name),
        name: fs.name,
        ty: wrap_optional(codegen_of(fs.ty), fs.required),
        vis: "pub"@,
        attrs: Seq::empty(),
    }
}

/// A hand-authored field overlaid on a seeded one: identifier, type,
/// visibility and attributes come from the hand-authored member, with its
/// declared type taken verbatim; the schema field name stays.
pub open spec fn overlay_field(seed: FieldGenModel, d: ast::FieldModel) -> FieldGenModel {
    FieldGenModel {
        ident: d.ident,
        name: seed.name,
        ty: TypeCodegenModel::Verbatim(d.ty),
        vis: d.vis,
        attrs: d.attrs,
    }
}

/// The last hand-authored field whose logical key is `key`, if any.
pub open spec fn last_field_match(decls: Seq<ast::FieldModel>, key: Seq<char>) -> Option<
    ast::FieldModel,
>
    decreases decls.len(),
{
    if decls.len() == 0 {
        None
    } else if decls.last().key() == key {
        Some(decls.last())
    } else {
        last_field_match(decls.drop_last(), key)
    }
}

/// The merged fields before sorting: one per schema field, each overlaid by
/// the last hand-authored field that matches its key, if any.
pub open spec fn merged_fields(
    sfields: Seq<FieldSchemaModel>,
    decls: Seq<ast::FieldModel>,
) -> Seq<FieldGenModel> {
    Seq::new(
        sfields.len(),
        |j: int|
            match last_field_match(decls, sfields[j].name) {
                Some(d) => overlay_field(seed_field(sfields[j]), d),
                None => seed_field(sfields[j]),
            },
    )
}

/// The key of the first hand-authored field with no schema counterpart, if
/// any: generation fails fast on it.
pub open spec fn first_invalid_field(
    decls: Seq<ast::FieldModel>,
    skeys: Set<Seq<char>>,
) -> Option<Seq<char>>
    decreases decls.len(),
{
    if decls.len() == 0 {
        None
    } else if !skeys.contains(decls[0].key()) {
        Some(decls[0].key())
    } else {
        first_invalid_field(decls.skip(1), skeys)
    }
}

proof fn lemma_first_invalid_field_none(decls: Seq<ast::FieldModel>, skeys: Set<Seq<char>>)
    requires
        forall|j: int| 0 <= j < decls.len() ==> skeys.contains(#[trigger] decls[j].key()),
    ensures
        first_invalid_field(decls, skeys) is None,
    decreases decls.len(),
{
    if decls.len() > 0 {
        assert(forall|j: int| 0 <= j < decls.skip(1).len() ==> decls.skip(1)[j] == decls[j + 1]);
        lemma_first_invalid_field_none(decls.skip(1), skeys);
    }
}

proof fn lemma_first_invalid_field_some(
    decls: Seq<ast::FieldModel>,
    skeys: Set<Seq<char>>,
    k: int,
)
    requires
        0 <= k < decls.len(),
        !skeys.contains(decls[k].key()),
        forall|j: int| 0 <= j < k ==> skeys.contains(#[trigger] decls[j].key()),
    ensures
        first_invalid_field(decls, skeys) == Some(decls[k].key()),
    decreases k,
{
    if k > 0 {
        assert(forall|j: int| 0 <= j < decls.skip(1).len() ==> decls.skip(1)[j] == decls[j + 1]);
        lemma_first_invalid_field_some(decls.skip(1), skeys, k - 1);
    }
}

/// The generated members are sorted by identifier, ascending.
pub open spec fn sorted_field_idents(fs: Seq<FieldGenModel>) -> bool {
    forall|i: int, j: int|
        0 <= i < j < fs.len() ==> lex_le(#[trigger] fs[i].ident, #[trigger] fs[j].ident)
}

/// What a successful merge yields: the container's own identifier, visibility
/// and attributes pass through; the members are the merged ones, sorted by
/// identifier.
pub open spec fn combined_struct_ok(
    container: crate::ast::StructContainerModel,
    schema: crate::schema_model::StructSchemaModel,
    st: StructGenModel,
) -> bool {
    &&& st.ident == container.ident
    &&& st.vis == container.vis
    &&& st.attrs == container.attrs
    &&& st.fields.to_multiset() == merged_fields(schema.fields, container.fields).to_multiset()
    &&& sorted_field_idents(st.fields)
}

/// The generated form of a hand-authored struct, member for member.
pub open spec fn echoes_struct_container(
    st: StructGenModel,
    container: crate::ast::StructContainerModel,
) -> bool {
    &&& st.ident == container.ident
    &&& st.vis == container.vis
    &&& st.attrs == container.attrs
    &&& st.fields.len() == container.fields.len()
    &&& forall|i: int|
        0 <= i < container.fields.len() ==> st.fields[i] == (FieldGenModel {
            ident: container.fields[i].ident,
            name: container.fields[i].key(),
            ty: TypeCodegenModel::Verbatim(container.fields[i].ty),
            vis: container.fields[i].vis,
            attrs: container.fields[i].attrs,
        })
}

/// Whether some schema field carries the name `key`.
fn field_name_exists(fs: &Vec<FieldSchema>, key: &String) -> (r: bool)
    ensures
        r == field_schema_keys(fs.deep_view()).contains(key@),
{
    let n = fs.len();
    let mut i: usize = 0;
    while i < n
        invariant
            i <= n,
            n == fs@.len(),
            forall|j: int| 0 <= j < i ==> fs.deep_view()[j].name != key@,
        decreases n - i,
    {
        if fs[i].name.eq(key) {
            proof {
                let m = fs.deep_view().map_values(|f: FieldSchemaModel| f.name);
                assert(m[i as int] == key@);
                assert(m.contains(key@));
            }
            return true;
        }
        i = i + 1;
    }
    proof {
        let m = fs.deep_view().map_values(|f: FieldSchemaModel| f.name);
        if m.to_set().contains(key@) {
            let j = choose|j: int| 0 <= j < m.len() && m[j] == key@;
            assert(fs.deep_view()[j].name == key@);
            assert(false);
        }
    }
    false
}

/// Finds the last hand-authored field whose logical key is `key`.
fn find_last_field_match(decls: &Vec<ast::Field>, key: &String) -> (r: Option<usize>)
    ensures
        match r {
            Some(i) => i < decls@.len() && last_field_match(decls.deep_view(), key@) == Some(
                decls.deep_view()[i as int],
            ),
            None => last_field_match(decls.deep_view(), key@) is None,
        },
{
    let ghost dv = decls.deep_view();
    let mut i = decls.len();
    proof {
        assert(dv.take(decls@.len() as int) =~= dv);
    }
    while i > 0
        invariant
            i <= decls@.len(),
            dv == decls.deep_view(),
            dv.len() == decls@.len(),
            last_field_match(dv, key@) == last_field_match(dv.take(i as int), key@),
        decreases i,
    {
        i = i - 1;
        let k = decls[i].field_name();
        proof {
            assert(dv.take(i + 1).last() == dv[i as int]);
            assert(dv.take(i + 1).drop_last() =~= dv.take(i as int));
        }
        if k.eq(key) {
            proof {
                assert(last_field_match(dv.take(i + 1), key@) == Some(dv[i as int]));
            }
            return Some(i);
        }
    }
    proof {
        assert(dv.take(0).len() == 0);
    }
    None
}

/// The rendered fields, each on an indented line, comma-separated, the final
/// type rendered from its type expression.
pub open spec fn fields_text(fs: Seq<FieldGenModel>, i: int) -> Seq<char>
    decreases fs.len() - i,
{
    if i < 0 || i >= fs.len() {
        Seq::empty()
    } else {
        member_attrs_text(fs[i].attrs) + "    "@ + fs[i].vis + " "@ + fs[i].ident + ": "@
            + type_text_spec(fs[i].ty) + (if i + 1 < fs.len() {
            ","@
        } else {
            Seq::empty()
        }) + "\n"@ + fields_text(fs, i + 1)
    }
}

/// The rendered definition of a generated struct.
pub open spec fn struct_definition_text(s: StructGenModel) -> Seq<char> {
    outer_attrs_text(s.attrs) + s.vis + " struct "@ + s.ident + " {\n"@ + fields_text(s.fields, 0)
        + "}"@
}

fn fields_text_from(fs: &Vec<Field>, i: usize) -> (r: String)
    requires
        i <= fs@.len(),
    ensures
        r@ == fields_text(fs.deep_view(), i as int),
    decreases fs@.len() - i,
{
    if i == fs.len() {
        String::new()
    } else {
        let f = &fs[i];
        let mut r = member_attrs_from(&f.attrs, 0);
        proof {
            assert(f.attrs.deep_view().skip(0) =~= f.attrs.deep_view());
            assert(fs.deep_view()[i as int].attrs == f.attrs.deep_view());
        }
        r.append("    ");
        r.append(f.vis.as_str());
        r.append(" ");
        r.append(f.ident.as_str());
        r.append(": ");
        let ty = f.ty.type_text();
        r.append(ty.as_str());
        if i + 1 < fs.len() {
            r.append(",");
        }
        r.append("\n");
        let rest = fields_text_from(fs, i + 1);
        r.append(rest.as_str());
        proof {
            if i + 1 >= fs.len() {
                assert(type_text_spec(fs.deep_view()[i as int].ty) + Seq::<char>::empty()
                    =~= type_text_spec(fs.deep_view()[i as int].ty));
            }
        }
        r
    }
}

/// A generated struct declaration.
#[derive(Debug, PartialEq, Eq)]
pub struct Struct {
    pub ident: String,
    pub attrs: Vec<String>,
    pub fields: Vec<Field>,
    pub vis: String,
}

/// Specification-level mirror of [`Struct`].
#[verifier::ext_equal]
pub struct StructGenModel {
    pub ident: Seq<char>,
    pub attrs: Seq<Seq<char>>,
    pub fields: Seq<FieldGenModel>,
    pub vis: Seq<char>,
}

impl View for Struct {
    type V = StructGenModel;

    open spec fn view(&self) -> StructGenModel {
        StructGenModel {
            ident: self.ident@,
            attrs: self.attrs.deep_view(),
            fields: self.fields.deep_view(),
            vis: self.vis@,
        }
    }
}

impl Field {
    /// Overlays a hand-authored field: identifier, type, visibility and
    /// attributes are replaced, the schema field name stays.
    pub fn update(&mut self, other: Field)
        ensures
            final(self)@.ident == other@.ident,
            final(self)@.ty == other@.ty,
            final(self)@.vis == other@.vis,
            final(self)@.attrs == other@.attrs,
            final(self)@.name == old(self)@.name,
    {
        self.ident = other.ident;
        self.ty = other.ty;
        self.vis = other.vis;
        self.attrs = other.attrs;
    }

    /// The generated form of a hand-authored field, its declared type taken
    /// verbatim.
    pub fn from_decl(field: &ast::Field) -> (r: Field)
        ensures
            r@.ident == field@.ident,
            r@.name == field@.key(),
            r@.ty == TypeCodegenModel::Verbatim(field@.ty),
            r@.vis == field@.vis,
            r@.attrs == field@.attrs,
    {
        Field {
            ident: field.ident.clone(),
            name: field.field_name(),
            ty: TypeCodegen::Verbatim(field.ty.clone()),
            vis: field.vis.clone(),
            attrs: clone_strings(&field.attrs),
        }
    }

    /// The field seeded from one schema field.
    pub fn from_schema(field: &FieldSchema) -> (r: Field)
        ensures
            r@ == seed_field(field@),
    {
        let ty = TypeCodegen::from(&field.ty);
        let r = Field {
            ident: to_snake(field.name.as_str()),
            name: field.name.clone(),
            ty: if field.required {
                ty
            } else {
                TypeCodegen::Optional(Box::new(ty))
            },
            vis: String::from_str("pub"),
            attrs: Vec::new(),
        };
        proof {
            assert(r@.attrs =~= Seq::<Seq<char>>::empty());
            assert(r@ =~= seed_field(field@));
        }
        r
    }
}

impl Struct {
    /// Merges the hand-authored struct with the schema: every schema field
    /// yields one member, hand-authored fields overlay their matching seeds,
    /// a hand-authored field without a schema counterpart fails the
    /// generation, and the result is sorted by identifier.
    pub fn combined(container: StructContainer, schema: StructSchema) -> (r: Result<Struct, Error>)
        ensures
            ({
                let decls = container@.fields;
                let sfields = schema@.fields;
                match first_invalid_field(decls, field_schema_keys(sfields)) {
                    Some(k) => r matches Err(e) && e@ == ErrorModel::InvalidStructField(k),
                    None => r matches Ok(st) && combined_struct_ok(container@, schema@, st@),
                }
            }),
    {
        let ghost decls = container@.fields;
        let ghost sfields = schema@.fields;
        let ghost skeys = field_schema_keys(sfields);
        let nd = container.fields.len();
        let mut i: usize = 0;
        while i < nd
            invariant
                i <= nd,
                nd == container.fields@.len(),
                decls == container.fields.deep_view(),
                sfields == schema@.fields,
                skeys == field_schema_keys(sfields),
                decls.len() == nd,
                forall|j: int| 0 <= j < i ==> skeys.contains(#[trigger] decls[j].key()),
            decreases nd - i,
        {
            let key = container.fields[i].field_name();
            if !field_name_exists(&schema.fields, &key) {
                proof {
                    lemma_first_invalid_field_some(decls, skeys, i as int);
                }
                return Err(Error::InvalidStructField(key));
            }
            i = i + 1;
        }
        proof {
            lemma_first_invalid_field_none(decls, skeys);
        }
        let mut fs: Vec<Field> = Vec::new();
        let ns = schema.fields.len();
        let mut j: usize = 0;
        while j < ns
            invariant
                j <= ns,
                ns == schema.fields@.len(),
                decls == container.fields.deep_view(),
                sfields == schema.fields.deep_view(),
                sfields.len() == ns,
                fs.deep_view().len() == j,
                forall|k: int| 0 <= k < j ==> fs.deep_view()[k] == merged_fields(sfields, decls)[k],
            decreases ns - j,
        {
            let mut gen = Field::from_schema(&schema.fields[j]);
            proof {
                assert(gen@ == seed_field(sfields[j as int]));
            }
            match find_last_field_match(&container.fields, &schema.fields[j].name) {
                Some(d) => {
                    gen.update(Field::from_decl(&container.fields[d]));
                    proof {
                        assert(last_field_match(decls, sfields[j as int].name) == Some(
                            decls[d as int],
                        ));
                        assert(gen@ =~= overlay_field(
                            seed_field(sfields[j as int]),
                            decls[d as int],
                        ));
                    }
                },
                None => {
                    proof {
                        assert(last_field_match(decls, sfields[j as int].name) is None);
                    }
                },
            }
            let ghost prev = fs.deep_view();
            proof {
                assert(gen@ == merged_fields(sfields, decls)[j as int]);
            }
            fs.push(gen);
            proof {
                assert forall|k: int| 0 <= k < j + 1 implies fs.deep_view()[k] == merged_fields(
                    sfields,
                    decls,
                )[k] by {
                    if k < j {
                        assert(fs.deep_view()[k] == prev[k]);
                    }
                }
            }
            j = j + 1;
        }
        proof {
            assert(fs.deep_view() =~= merged_fields(sfields, decls));
        }
        let sorted = sort_by_skey(fs);
        proof {
            assert forall|p: int, q: int| 0 <= p < q < sorted.deep_view().len() implies lex_le(
                #[trigger] sorted.deep_view()[p].ident,
                #[trigger] sorted.deep_view()[q].ident,
            ) by {
                assert(lex_le(sorted@[p].skey(), sorted@[q].skey()));
            }
        }
        Ok(
            Struct {
                ident: container.ident,
                attrs: container.attrs,
                fields: sorted,
                vis: container.vis,
            },
        )
    }

    /// The rendered definition: the serializer turns this text into tokens.
    pub fn definition_text(&self) -> (r: String)
        ensures
            r@ == struct_definition_text(self@),
    {
        let mut r = outer_attrs_from(&self.attrs, 0);
        proof {
            assert(self.attrs.deep_view().skip(0) =~= self.attrs.deep_view());
        }
        r.append(self.vis.as_str());
        r.append(" struct ");
        r.append(self.ident.as_str());
        r.append(" {\n");
        let body = fields_text_from(&self.fields, 0);
        r.append(body.as_str());
        r.append("}");
        r
    }

    /// The generated form of a hand-authored struct, member for member: what
    /// the checker re-emits on success.
    pub fn from(container: StructContainer) -> (r: Struct)
        ensures
            echoes_struct_container(r@, container@),
    {
        let mut fs: Vec<Field> = Vec::new();
        let n = container.fields.len();
        let mut i: usize = 0;
        while i < n
            invariant
                i <= n,
                n == container.fields@.len(),
                fs.deep_view().len() == i,
                forall|k: int|
                    0 <= k < i ==> fs.deep_view()[k] == (FieldGenModel {
                        ident: container.fields.deep_view()[k].ident,
                        name: container.fields.deep_view()[k].key(),
                        ty: TypeCodegenModel::Verbatim(container.fields.deep_view()[k].ty),
                        vis: container.fields.deep_view()[k].vis,
                        attrs: container.fields.deep_view()[k].attrs,
                    }),
            decreases n - i,
        {
            let ghost prev = fs.deep_view();
            fs.push(Field::from_decl(&container.fields[i]));
            proof {
                assert forall|k: int| 0 <= k < i + 1 implies fs.deep_view()[k] == (FieldGenModel {
                    ident: container.fields.deep_view()[k].ident,
                    name: container.fields.deep_view()[k].key(),
                    ty: TypeCodegenModel::Verbatim(container.fields.deep_view()[k].ty),
                    vis: container.fields.deep_view()[k].vis,
                    attrs: container.fields.deep_view()[k].attrs,
                }) by {
                    if k < i {
                        assert(fs.deep_view()[k] == prev[k]);
                    }
                }
            }
            i = i + 1;
        }
        Struct {
            ident: container.ident,
            attrs: container.attrs,
            fields: fs,
            vis: container.vis,
        }
    }
}

} // verus!
