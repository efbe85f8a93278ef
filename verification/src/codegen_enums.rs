use crate::ast;
use crate::ast::EnumContainer;
use crate::casing::camel_of;
use crate::casing::to_camel;
use crate::check::variant_schema_keys;
use crate::error::Error;
use crate::error::ErrorModel;
use crate::schema_model::EnumSchema;
use crate::schema_model::VariantSchema;
use crate::schema_model::VariantSchemaModel;
use crate::strutil::clone_strings;
use crate::strutil::lex_le;
use crate::strutil::sort_by_skey;
use crate::strutil::str_le;
use crate::strutil::SortKey;
use vstd::prelude::*;

verus! {

/// A generated enumeration variant: its identifier, its attributes, and the
/// schema value it stands for.
#[derive(Debug, PartialEq, Eq)]
pub struct Variant {
    pub name: String,
    pub attrs: Vec<String>,
    pub value: String,
}

/// Specification-level mirror of [`Variant`].
#[verifier::ext_equal]
pub struct VariantGenModel {
    pub name: Seq<char>,
    pub attrs: Seq<Seq<char>>,
    pub value: Seq<char>,
}

impl View for Variant {
    type V = VariantGenModel;

    open spec fn view(&self) -> VariantGenModel {
        VariantGenModel { name: self.name@, attrs: self.attrs.deep_view(), value: self.value@ }
    }
}

impl DeepView for Variant {
    type V = VariantGenModel;

    open spec fn deep_view(&self) -> VariantGenModel {
        self@
    }
}

impl SortKey for Variant {
    open spec fn skey(&self) -> Seq<char> {
        self.name@
    }

    fn key_le(&self, other: &Self) -> (r: bool) {
        str_le(self.name.as_str(), other.name.as_str())
    }
}

/// The variant seeded from one schema value: the identifier is the value in
/// the type-name casing convention, no attributes.
pub open spec fn seed_variant(v: VariantSchemaModel) -> VariantGenModel {
    VariantGenModel { name: camel_of(v.value), attrs: Seq::empty(), value: v.value }
}

/// A hand-authored variant overlaid on a seeded one: identifier and
/// attributes come from the hand-authored member, the schema value stays.
pub open spec fn overlay_variant(seed: VariantGenModel, d: ast::VariantModel) -> VariantGenModel {
    VariantGenModel { name: d.ident, attrs: d.attrs, value: seed.value }
}

/// The last hand-authored variant whose logical key is `key`, if any.
pub open spec fn last_variant_match(decls: Seq<ast::VariantModel>, key: Seq<char>) -> Option<
    ast::VariantModel,
>
    decreases decls.len(),
{
    if decls.len() == 0 {
        None
    } else if decls.last().key() == key {
        Some(decls.last())
    } else {
        last_variant_match(decls.drop_last(), key)
    }
}

/// The merged variants before sorting: one per schema value, each overlaid by
/// the last hand-authored variant that matches its key, if any.
pub open spec fn merged_variants(
    svals: Seq<VariantSchemaModel>,
    decls: Seq<ast::VariantModel>,
) -> Seq<VariantGenModel> {
    Seq::new(
        svals.len(),
        |j: int|
            match last_variant_match(decls, svals[j].value) {
                Some(d) => overlay_variant(seed_variant(svals[j]), d),
                None => seed_variant(svals[j]),
            },
    )
}

/// The key of the first hand-authored variant with no schema counterpart, if
/// any: generation fails fast on it.
pub open spec fn first_invalid_variant(
    decls: Seq<ast::VariantModel>,
    skeys: Set<Seq<char>>,
) -> Option<Seq<char>>
    decreases decls.len(),
{
    if decls.len() == 0 {
        None
    } else if !skeys.contains(decls[0].key()) {
        Some(decls[0].key())
    } else {
        first_invalid_variant(decls.skip(1), skeys)
    }
}

proof fn lemma_first_invalid_variant_none(decls: Seq<ast::VariantModel>, skeys: Set<Seq<char>>)
    requires
        forall|j: int| 0 <= j < decls.len() ==> skeys.contains(#[trigger] decls[j].key()),
    ensures
        first_invalid_variant(decls, skeys) is None,
    decreases decls.len(),
{
    if decls.len() > 0 {
        assert(forall|j: int| 0 <= j < decls.skip(1).len() ==> decls.skip(1)[j] == decls[j + 1]);
        lemma_first_invalid_variant_none(decls.skip(1), skeys);
    }
}

proof fn lemma_first_invalid_variant_some(
    decls: Seq<ast::VariantModel>,
    skeys: Set<Seq<char>>,
    k: int,
)
    requires
        0 <= k < decls.len(),
        !skeys.contains(decls[k].key()),
        forall|j: int| 0 <= j < k ==> skeys.contains(#[trigger] decls[j].key()),
    ensures
        first_invalid_variant(decls, skeys) == Some(decls[k].key()),
    decreases k,
{
    if k > 0 {
        assert(forall|j: int| 0 <= j < decls.skip(1).len() ==> decls.skip(1)[j] == decls[j + 1]);
        lemma_first_invalid_variant_some(decls.skip(1), skeys, k - 1);
    }
}

/// The generated members are sorted by identifier, ascending.
pub open spec fn sorted_variant_names(vs: Seq<VariantGenModel>) -> bool {
    forall|i: int, j: int|
        0 <= i < j < vs.len() ==> lex_le(#[trigger] vs[i].name, #[trigger] vs[j].name)
}

/// What a successful merge yields: the container's own identifier, visibility
/// and attributes pass through; the members are the merged ones, sorted by
/// identifier.
pub open spec fn combined_enum_ok(
    container: crate::ast::EnumContainerModel,
    schema: crate::schema_model::EnumSchemaModel,
    en: EnumGenModel,
) -> bool {
    &&& en.name == container.ident
    &&& en.vis == container.vis
    &&& en.attrs == container.attrs
    &&& en.variants.to_multiset() == merged_variants(
        schema.variants,
        container.variants,
    ).to_multiset()
    &&& sorted_variant_names(en.variants)
}

/// The generated form of a hand-authored enumeration, member for member.
pub open spec fn echoes_enum_container(
    en: EnumGenModel,
    container: crate::ast::EnumContainerModel,
) -> bool {
    &&& en.name == container.ident
    &&& en.vis == container.vis
    &&& en.attrs == container.attrs
    &&& en.variants.len() == container.variants.len()
    &&& forall|i: int|
        0 <= i < container.variants.len() ==> en.variants[i] == (VariantGenModel {
            name: container.variants[i].ident,
            attrs: container.variants[i].attrs,
            value: container.variants[i].key(),
        })
}

/// Whether some schema value reads `key`.
fn variant_value_exists(vs: &Vec<VariantSchema>, key: &String) -> (r: bool)
    ensures
        r == variant_schema_keys(vs.deep_view()).contains(key@),
{
    let n = vs.len();
    let mut i: usize = 0;
    while i < n
        invariant
            i <= n,
            n == vs@.len(),
            forall|j: int| 0 <= j < i ==> vs.deep_view()[j].value != key@,
        decreases n - i,
    {
        if vs[i].value.eq(key) {
            proof {
                let m = vs.deep_view().map_values(|v: VariantSchemaModel| v.value);
                assert(m[i as int] == key@);
                assert(m.contains(key@));
            }
            return true;
        }
        i = i + 1;
    }
    proof {
        let m = vs.deep_view().map_values(|v: VariantSchemaModel| v.value);
        if m.to_set().contains(key@) {
            let j = choose|j: int| 0 <= j < m.len() && m[j] == key@;
            assert(vs.deep_view()[j].value == key@);
            assert(false);
        }
    }
    false
}

/// Finds the last hand-authored variant whose logical key is `key`.
fn find_last_variant_match(decls: &Vec<ast::Variant>, key: &String) -> (r: Option<usize>)
    ensures
        match r {
            Some(i) => i < decls@.len() && last_variant_match(decls.deep_view(), key@) == Some(
                decls.deep_view()[i as int],
            ),
            None => last_variant_match(decls.deep_view(), key@) is None,
        },
{
    let ghost dv = decls.deep_view();
    let mut i = decls.len();
    proof {
        assert(dv.take(decls@.len() as int) =~= dv);
    }
    while i > 0
        invariant
            i <= decls@.len(),
            dv == decls.deep_view(),
            dv.len() == decls@.len(),
            last_variant_match(dv, key@) == last_variant_match(dv.take(i as int), key@),
        decreases i,
    {
        i = i - 1;
        let k = decls[i].value();
        proof {
            assert(dv.take(i + 1).last() == dv[i as int]);
            assert(dv.take(i + 1).drop_last() =~= dv.take(i as int));
        }
        if k.eq(key) {
            proof {
                assert(last_variant_match(dv.take(i + 1), key@) == Some(dv[i as int]));
            }
            return Some(i);
        }
    }
    proof {
        assert(dv.take(0).len() == 0);
    }
    None
}

/// The container's attributes, one per line.
pub open spec fn outer_attrs_text(attrs: Seq<Seq<char>>) -> Seq<char>
    decreases attrs.len(),
{
    if attrs.len() == 0 {
        Seq::empty()
    } else {
        attrs[0] + "\n"@ + outer_attrs_text(attrs.skip(1))
    }
}

/// A member's attributes, one per indented line.
pub open spec fn member_attrs_text(attrs: Seq<Seq<char>>) -> Seq<char>
    decreases attrs.len(),
{
    if attrs.len() == 0 {
        Seq::empty()
    } else {
        "    "@ + attrs[0] + "\n"@ + member_attrs_text(attrs.skip(1))
    }
}

/// Renders the container's attributes, one per line, from index `i` on.
pub(crate) fn outer_attrs_from(attrs: &Vec<String>, i: usize) -> (r: String)
    requires
        i <= attrs@.len(),
    ensures
        r@ == outer_attrs_text(attrs.deep_view().skip(i as int)),
    decreases attrs@.len() - i,
{
    if i == attrs.len() {
        let r = String::new();
        proof {
            assert(attrs.deep_view().skip(i as int).len() == 0);
        }
        r
    } else {
        let mut r = attrs[i].clone();
        r.append("\n");
        let rest = outer_attrs_from(attrs, i + 1);
        r.append(rest.as_str());
        proof {
            let s = attrs.deep_view().skip(i as int);
            assert(s[0] == attrs.deep_view()[i as int]);
            assert(s.skip(1) =~= attrs.deep_view().skip(i + 1));
        }
        r
    }
}

/// Renders a member's attributes, one per indented line, from index `i` on.
pub(crate) fn member_attrs_from(attrs: &Vec<String>, i: usize) -> (r: String)
    requires
        i <= attrs@.len(),
    ensures
        r@ == member_attrs_text(attrs.deep_view().skip(i as int)),
    decreases attrs@.len() - i,
{
    if i == attrs.len() {
        let r = String::new();
        proof {
            assert(attrs.deep_view().skip(i as int).len() == 0);
        }
        r
    } else {
        let mut r = String::from_str("    ");
        r.append(attrs[i].as_str());
        r.append("\n");
        let rest = member_attrs_from(attrs, i + 1);
        r.append(rest.as_str());
        proof {
            let s = attrs.deep_view().skip(i as int);
            assert(s[0] == attrs.deep_view()[i as int]);
            assert(s.skip(1) =~= attrs.deep_view().skip(i + 1));
        }
        r
    }
}

/// The rendered variants, each on an indented line, comma-separated.
pub open spec fn variants_text(vs: Seq<VariantGenModel>, i: int) -> Seq<char>
    decreases vs.len() - i,
{
    if i < 0 || i >= vs.len() {
        Seq::empty()
    } else {
        member_attrs_text(vs[i].attrs) + "    "@ + vs[i].name + (if i + 1 < vs.len() {
            ","@
        } else {
            Seq::empty()
        }) + "\n"@ + variants_text(vs, i + 1)
    }
}

/// The rendered definition of a generated enumeration.
pub open spec fn enum_definition_text(e: EnumGenModel) -> Seq<char> {
    outer_attrs_text(e.attrs) + e.vis + " enum "@ + e.name + " {\n"@ + variants_text(e.variants, 0)
        + "}"@
}

fn variants_text_from(vs: &Vec<Variant>, i: usize) -> (r: String)
    requires
        i <= vs@.len(),
    ensures
        r@ == variants_text(vs.deep_view(), i as int),
    decreases vs@.len() - i,
{
    if i == vs.len() {
        String::new()
    } else {
        let v = &vs[i];
        let mut r = member_attrs_from(&v.attrs, 0);
        proof {
            assert(v.attrs.deep_view().skip(0) =~= v.attrs.deep_view());
            assert(vs.deep_view()[i as int].attrs == v.attrs.deep_view());
        }
        r.append("    ");
        r.append(v.name.as_str());
        if i + 1 < vs.len() {
            r.append(",");
        }
        r.append("\n");
        let rest = variants_text_from(vs, i + 1);
        r.append(rest.as_str());
        proof {
            if i + 1 >= vs.len() {
                assert(vs.deep_view()[i as int].name + Seq::<char>::empty() =~= vs.deep_view()[
                    i as int
                ].name);
            }
        }
        r
    }
}

/// A generated enumeration declaration.
#[derive(Debug, PartialEq, Eq)]
pub struct Enum {
    pub name: String,
    pub variants: Vec<Variant>,
    pub vis: String,
    pub attrs: Vec<String>,
}

/// Specification-level mirror of [`Enum`].
#[verifier::ext_equal]
pub struct EnumGenModel {
    pub name: Seq<char>,
    pub variants: Seq<VariantGenModel>,
    pub vis: Seq<char>,
    pub attrs: Seq<Seq<char>>,
}

impl View for Enum {
    type V = EnumGenModel;

    open spec fn view(&self) -> EnumGenModel {
        EnumGenModel {
            name: self.name@,
            variants: self.variants.deep_view(),
            vis: self.vis@,
            attrs: self.attrs.deep_view(),
        }
    }
}

impl Variant {
    /// Overlays a hand-authored variant: identifier and attributes are
    /// replaced, the schema value stays.
    pub fn update(&mut self, other: Variant)
        ensures
            final(self)@.name == other@.name,
            final(self)@.attrs == other@.attrs,
            final(self)@.value == old(self)@.value,
    {
        self.name = other.name;
        self.attrs = other.attrs;
    }

    /// The generated form of a hand-authored variant.
    pub fn from_decl(variant: &ast::Variant) -> (r: Variant)
        ensures
            r@.name == variant@.ident,
            r@.attrs == variant@.attrs,
            r@.value == variant@.key(),
    {
        Variant {
            name: variant.ident.clone(),
            attrs: clone_strings(&variant.attrs),
            value: variant.value(),
        }
    }

    /// The variant seeded from one schema value.
    pub fn from_schema(variant: &VariantSchema) -> (r: Variant)
        ensures
            r@ == seed_variant(variant@),
    {
        let r = Variant {
            name: to_camel(variant.value.as_str()),
            attrs: Vec::new(),
            value: variant.value.clone(),
        };
        proof {
            assert(r@.attrs =~= Seq::<Seq<char>>::empty());
            assert(r@ =~= seed_variant(variant@));
        }
        r
    }
}

impl Enum {
    /// Merges the hand-authored enumeration with the schema: every schema
    /// value yields one variant, hand-authored variants overlay their
    /// matching seeds, a hand-authored variant without a schema counterpart
    /// fails the generation, and the result is sorted by identifier.
    pub fn combined(container: EnumContainer, schema: EnumSchema) -> (r: Result<Enum, Error>)
        ensures
            ({
                let decls = container@.variants;
                let svals = schema@.variants;
                match first_invalid_variant(decls, variant_schema_keys(svals)) {
                    Some(k) => r matches Err(e) && e@ == ErrorModel::InvalidEnumVariant(k),
                    None => r matches Ok(en) && combined_enum_ok(container@, schema@, en@),
                }
            }),
    {
        let ghost decls = container@.variants;
        let ghost svals = schema@.variants;
        let ghost skeys = variant_schema_keys(svals);
        let nd = container.variants.len();
        let mut i: usize = 0;
        while i < nd
            invariant
                i <= nd,
                nd == container.variants@.len(),
                decls == container.variants.deep_view(),
                svals == schema@.variants,
                skeys == variant_schema_keys(svals),
                decls.len() == nd,
                forall|j: int| 0 <= j < i ==> skeys.contains(#[trigger] decls[j].key()),
            decreases nd - i,
        {
            let key = container.variants[i].value();
            if !variant_value_exists(&schema.variants, &key) {
                proof {
                    lemma_first_invalid_variant_some(decls, skeys, i as int);
                }
                return Err(Error::InvalidEnumVariant(key));
            }
            i = i + 1;
        }
        proof {
            lemma_first_invalid_variant_none(decls, skeys);
        }
        let mut vs: Vec<Variant> = Vec::new();
        let ns = schema.variants.len();
        let mut j: usize = 0;
        while j < ns
            invariant
                j <= ns,
                ns == schema.variants@.len(),
                decls == container.variants.deep_view(),
                svals == schema.variants.deep_view(),
                svals.len() == ns,
                vs.deep_view().len() == j,
                forall|k: int|
                    0 <= k < j ==> vs.deep_view()[k] == merged_variants(svals, decls)[k],
            decreases ns - j,
        {
            let mut gen = Variant::from_schema(&schema.variants[j]);
            proof {
                assert(gen@ == seed_variant(svals[j as int]));
            }
            match find_last_variant_match(&container.variants, &schema.variants[j].value) {
                Some(d) => {
                    gen.update(Variant::from_decl(&container.variants[d]));
                    proof {
                        assert(last_variant_match(decls, svals[j as int].value) == Some(
                            decls[d as int],
                        ));
                        assert(gen@ == overlay_variant(
                            seed_variant(svals[j as int]),
                            decls[d as int],
                        ));
                    }
                },
                None => {
                    proof {
                        assert(last_variant_match(decls, svals[j as int].value) is None);
                    }
                },
            }
            let ghost prev = vs.deep_view();
            proof {
                assert(gen@ == merged_variants(svals, decls)[j as int]);
            }
            vs.push(gen);
            proof {
                assert forall|k: int| 0 <= k < j + 1 implies vs.deep_view()[k] == merged_variants(
                    svals,
                    decls,
                )[k] by {
                    if k < j {
                        assert(vs.deep_view()[k] == prev[k]);
                    }
                }
            }
            j = j + 1;
        }
        proof {
            assert(vs.deep_view() =~= merged_variants(svals, decls));
        }
        let sorted = sort_by_skey(vs);
        proof {
            assert forall|p: int, q: int| 0 <= p < q < sorted.deep_view().len() implies lex_le(
                #[trigger] sorted.deep_view()[p].name,
                #[trigger] sorted.deep_view()[q].name,
            ) by {
                assert(lex_le(sorted@[p].skey(), sorted@[q].skey()));
            }
        }
        Ok(Enum { name: container.ident, variants: sorted, vis: container.vis, attrs: container.attrs })
    }

    /// The rendered definition: the serializer turns this text into tokens.
    pub fn definition_text(&self) -> (r: String)
        ensures
            r@ == enum_definition_text(self@),
    {
        let mut r = outer_attrs_from(&self.attrs, 0);
        proof {
            assert(self.attrs.deep_view().skip(0) =~= self.attrs.deep_view());
        }
        r.append(self.vis.as_str());
        r.append(" enum ");
        r.append(self.name.as_str());
        r.append(" {\n");
        let body = variants_text_from(&self.variants, 0);
        r.append(body.as_str());
        r.append("}");
        r
    }

    /// The generated form of a hand-authored enumeration, member for member:
    /// what the checker re-emits on success.
    pub fn from(container: EnumContainer) -> (r: Enum)
        ensures
            echoes_enum_container(r@, container@),
    {
        let mut vs: Vec<Variant> = Vec::new();
        let n = container.variants.len();
        let mut i: usize = 0;
        while i < n
            invariant
                i <= n,
                n == container.variants@.len(),
                vs.deep_view().len() == i,
                forall|k: int|
                    0 <= k < i ==> vs.deep_view()[k] == (VariantGenModel {
                        name: container.variants.deep_view()[k].ident,
                        attrs: container.variants.deep_view()[k].attrs,
                        value: container.variants.deep_view()[k].key(),
                    }),
            decreases n - i,
        {
            let ghost prev = vs.deep_view();
            vs.push(Variant::from_decl(&container.variants[i]));
            proof {
                assert forall|k: int| 0 <= k < i + 1 implies vs.deep_view()[k] == (VariantGenModel {
                    name: container.variants.deep_view()[k].ident,
                    attrs: container.variants.deep_view()[k].attrs,
                    value: container.variants.deep_view()[k].key(),
                }) by {
                    if k < i {
                        assert(vs.deep_view()[k] == prev[k]);
                    }
                }
            }
            i = i + 1;
        }
        Enum { name: container.ident, variants: vs, vis: container.vis, attrs: container.attrs }
    }
}

} // verus!
