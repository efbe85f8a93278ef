use crate::ast::EnumContainer;
use crate::ast::FieldModel;
use crate::ast::StructContainer;
use crate::ast::VariantModel;
use crate::error::CheckFailure;
use crate::error::CheckFailureModel;
use crate::error::Error;
use crate::error::ErrorModel;
use crate::schema_model::contains_string;
use crate::schema_model::EnumSchema;
use crate::schema_model::StructSchema;
use crate::schema_model::VariantSchemaModel;
use crate::strutil::canonical_keys;
use crate::strutil::sorted_keys_of;
use crate::strutil::strictly_sorted;
use vstd::prelude::*;

verus! {

/// Whether every string of `a` also stands in `b`.
fn keys_subset(a: &Vec<String>, b: &Vec<String>) -> (r: bool)
    ensures
        r == a.deep_view().to_set().subset_of(b.deep_view().to_set()),
{
    let n = a.len();
    let mut i: usize = 0;
    while i < n
        invariant
            i <= n,
            n == a@.len(),
            forall|j: int| 0 <= j < i ==> b.deep_view().contains(#[trigger] a.deep_view()[j]),
        decreases n - i,
    {
        if !contains_string(b, &a[i]) {
            proof {
                assert(a.deep_view().contains(a.deep_view()[i as int]));
                assert(a.deep_view().to_set().contains(a.deep_view()[i as int]));
                assert(!b.deep_view().to_set().contains(a.deep_view()[i as int]));
            }
            return false;
        }
        i = i + 1;
    }
    proof {
        assert forall|x: Seq<char>| a.deep_view().to_set().contains(x) implies b.deep_view()
            .to_set().contains(x) by {
            let j = choose|j: int| 0 <= j < a.deep_view().len() && a.deep_view()[j] == x;
            assert(b.deep_view().contains(a.deep_view()[j]));
        }
    }
    true
}

/// The strings of `a` that do not stand in `b`, duplicates kept.
fn key_difference(a: &Vec<String>, b: &Vec<String>) -> (r: Vec<String>)
    ensures
        r.deep_view().to_set() =~= a.deep_view().to_set().difference(b.deep_view().to_set()),
{
    let n = a.len();
    let mut out: Vec<String> = Vec::new();
    let mut i: usize = 0;
    while i < n
        invariant
            i <= n,
            n == a@.len(),
            out.deep_view().to_set() =~= a.deep_view().take(i as int).to_set().difference(
                b.deep_view().to_set(),
            ),
        decreases n - i,
    {
        let ghost prev = out.deep_view();
        let inside = contains_string(b, &a[i]);
        if !inside {
            out.push(a[i].clone());
        }
        proof {
            let av = a.deep_view();
            assert(av.take(i + 1) =~= av.take(i as int).push(av[i as int]));
            assert forall|x: Seq<char>| av.take(i + 1).to_set().contains(x) == (av.take(
                i as int,
            ).to_set().contains(x) || x == av[i as int]) by {
                if av.take(i + 1).to_set().contains(x) {
                    let j = choose|j: int| 0 <= j < av.take(i + 1).len() && (#[trigger] av.take(i + 1)[j]) == x;
                    if j < i {
                        assert(av.take(i as int)[j] == x);
                        assert(av.take(i as int).contains(x));
                    }
                } else {
                    if av.take(i as int).to_set().contains(x) {
                        let j = choose|j: int|
                            0 <= j < av.take(i as int).len() && (#[trigger] av.take(
                                i as int,
                            )[j]) == x;
                        assert(av.take(i + 1)[j] == x);
                        assert(av.take(i + 1).contains(x));
                    }
                    if x == av[i as int] {
                        assert(av.take(i + 1)[i as int] == x);
                        assert(av.take(i + 1).contains(x));
                    }
                }
            }
            assert(av[i as int] == a@[i as int]@);
            if inside {
                assert(b.deep_view().to_set().contains(av[i as int]));
            } else {
                assert(!b.deep_view().to_set().contains(av[i as int]));
            }
            if !inside {
                assert(out.deep_view() =~= prev.push(av[i as int]));
                assert forall|x: Seq<char>| out.deep_view().to_set().contains(x) == (
                prev.to_set().contains(x) || x == av[i as int]) by {
                    if out.deep_view().to_set().contains(x) {
                        let j = choose|j: int|
                            0 <= j < out.deep_view().len() && out.deep_view()[j] == x;
                        if j < prev.len() {
                            assert(prev[j] == x);
                            assert(prev.contains(x));
                        }
                    } else {
                        if prev.to_set().contains(x) {
                            let j = choose|j: int| 0 <= j < prev.len() && prev[j] == x;
                            assert(out.deep_view()[j] == x);
                            assert(out.deep_view().contains(x));
                        }
                        if x == av[i as int] {
                            assert(out.deep_view()[prev.len() as int] == x);
                            assert(out.deep_view().contains(x));
                        }
                    }
                }
            }
            assert forall|x: Seq<char>| out.deep_view().to_set().contains(x) == av.take(
                i + 1,
            ).to_set().difference(b.deep_view().to_set()).contains(x) by {
                assert(av.take(i + 1).to_set().contains(x) == (av.take(i as int).to_set().contains(
                    x,
                ) || x == av[i as int]));
                if !inside {
                    assert(out.deep_view().to_set().contains(x) == (prev.to_set().contains(x) || x
                        == av[i as int]));
                }
            }
            assert(out.deep_view().to_set() =~= av.take(i + 1).to_set().difference(
                b.deep_view().to_set(),
            ));
        }
        i = i + 1;
    }
    proof {
        assert(a.deep_view().take(n as int) =~= a.deep_view());
    }
    out
}

/// Outcome of diffing a declared key list against a schema key list.
pub(crate) enum KeyCheck {
    Equal,
    Missing(Vec<String>),
    Unknown(Vec<String>),
}

/// Diffs two key lists as sets: equal sets pass; a declaration strictly below
/// the schema reports the missing keys; a declaration with any key of its own
/// reports the unknown keys. Payloads are sorted ascending without
/// duplicates.
pub(crate) fn diff_keys(declared: &Vec<String>, schema_keys: &Vec<String>) -> (r: KeyCheck)
    ensures
        ({
            let d = declared.deep_view().to_set();
            let s = schema_keys.deep_view().to_set();
            match r {
                KeyCheck::Equal => d == s,
                KeyCheck::Missing(p) => d != s && d.subset_of(s) && p.deep_view()
                    == sorted_keys_of(s.difference(d)) && strictly_sorted(p.deep_view())
                    && p.deep_view().to_set() == s.difference(d),
                KeyCheck::Unknown(p) => !d.subset_of(s) && p.deep_view() == sorted_keys_of(
                    d.difference(s),
                ) && strictly_sorted(p.deep_view()) && p.deep_view().to_set() == d.difference(s),
            }
        }),
{
    let d_in_s = keys_subset(declared, schema_keys);
    let s_in_d = keys_subset(schema_keys, declared);
    if d_in_s && s_in_d {
        proof {
            assert(declared.deep_view().to_set() =~= schema_keys.deep_view().to_set());
        }
        KeyCheck::Equal
    } else if d_in_s {
        let payload = canonical_keys(key_difference(schema_keys, declared));
        proof {
            let d = declared.deep_view().to_set();
            let s = schema_keys.deep_view().to_set();
            if d == s {
                assert(s.subset_of(d));
                assert(false);
            }
        }
        KeyCheck::Missing(payload)
    } else {
        let payload = canonical_keys(key_difference(declared, schema_keys));
        KeyCheck::Unknown(payload)
    }
}

/// Validation of a hand-authored declaration against a schema: the declared
/// logical keys must be exactly the schema's keys.
pub trait Check<Schema> {
    /// The logical keys of the hand-authored members.
    spec fn declared_keys(&self) -> Set<Seq<char>>;

    /// The logical keys of the schema's members.
    spec fn schema_keys(schema: &Schema) -> Set<Seq<char>>;

    /// The failure reported when keys are missing from the declaration.
    spec fn missing_failure(payload: Seq<Seq<char>>) -> CheckFailureModel;

    /// The failure reported when the declaration carries unknown keys.
    spec fn unknown_failure(payload: Seq<Seq<char>>) -> CheckFailureModel;

    /// Succeeds exactly when the declared key set equals the schema key set.
    /// A strictly smaller declaration fails with the missing keys; a
    /// declaration holding any key of its own fails with the unknown keys,
    /// even when keys are also missing. Payloads are sorted ascending.
    fn check(&self, schema: &Schema) -> (r: Result<(), Error>)
        ensures
            ({
                let d = self.declared_keys();
                let s = Self::schema_keys(schema);
                match r {
                    Ok(_) => d == s,
                    Err(e) => d != s && e@ == ErrorModel::CheckFailed(
                        if d.subset_of(s) {
                            Self::missing_failure(sorted_keys_of(s.difference(d)))
                        } else {
                            Self::unknown_failure(sorted_keys_of(d.difference(s)))
                        },
                    ) && (if d.subset_of(s) {
                        strictly_sorted(sorted_keys_of(s.difference(d))) && sorted_keys_of(
                            s.difference(d),
                        ).to_set() == s.difference(d)
                    } else {
                        strictly_sorted(sorted_keys_of(d.difference(s))) && sorted_keys_of(
                            d.difference(s),
                        ).to_set() == d.difference(s)
                    }),
                }
            }),
    ;
}

/// The declared logical keys of an enumeration's variants.
pub open spec fn variant_keys(vs: Seq<VariantModel>) -> Set<Seq<char>> {
    vs.map_values(|v: VariantModel| v.key()).to_set()
}

/// The keys of an enumeration schema: its permissible values.
pub open spec fn variant_schema_keys(vs: Seq<VariantSchemaModel>) -> Set<Seq<char>> {
    vs.map_values(|v: VariantSchemaModel| v.value).to_set()
}

/// The declared logical keys of a struct's fields.
pub open spec fn field_keys(fs: Seq<FieldModel>) -> Set<Seq<char>> {
    fs.map_values(|f: FieldModel| f.key()).to_set()
}

/// The keys of a struct schema: its field names.
pub open spec fn field_schema_keys(fs: Seq<crate::schema_model::FieldSchemaModel>) -> Set<
    Seq<char>,
> {
    fs.map_values(|f: crate::schema_model::FieldSchemaModel| f.name).to_set()
}

/// The outcome the checker owes an enumeration: success exactly on equal key
/// sets, else the sorted missing or unknown values, unknown values winning.
pub open spec fn enum_check_spec(
    decls: Seq<VariantModel>,
    svs: Seq<VariantSchemaModel>,
) -> Result<(), ErrorModel> {
    let d = variant_keys(decls);
    let s = variant_schema_keys(svs);
    if d == s {
        Ok(())
    } else if d.subset_of(s) {
        Err(
            ErrorModel::CheckFailed(
                CheckFailureModel::MissingVariants(sorted_keys_of(s.difference(d))),
            ),
        )
    } else {
        Err(
            ErrorModel::CheckFailed(
                CheckFailureModel::UnknownVariants(sorted_keys_of(d.difference(s))),
            ),
        )
    }
}

/// The outcome the checker owes a struct: success exactly on equal key sets,
/// else the sorted missing or unknown field names, unknown names winning.
pub open spec fn struct_check_spec(
    decls: Seq<FieldModel>,
    sfs: Seq<crate::schema_model::FieldSchemaModel>,
) -> Result<(), ErrorModel> {
    let d = field_keys(decls);
    let s = field_schema_keys(sfs);
    if d == s {
        Ok(())
    } else if d.subset_of(s) {
        Err(
            ErrorModel::CheckFailed(
                CheckFailureModel::MissingFields(sorted_keys_of(s.difference(d))),
            ),
        )
    } else {
        Err(
            ErrorModel::CheckFailed(
                CheckFailureModel::UnknownFields(sorted_keys_of(d.difference(s))),
            ),
        )
    }
}

impl Check<EnumSchema> for EnumContainer {
    open spec fn declared_keys(&self) -> Set<Seq<char>> {
        variant_keys(self@.variants)
    }

    open spec fn schema_keys(schema: &EnumSchema) -> Set<Seq<char>> {
        variant_schema_keys(schema@.variants)
    }

    open spec fn missing_failure(payload: Seq<Seq<char>>) -> CheckFailureModel {
        CheckFailureModel::MissingVariants(payload)
    }

    open spec fn unknown_failure(payload: Seq<Seq<char>>) -> CheckFailureModel {
        CheckFailureModel::UnknownVariants(payload)
    }

    fn check(&self, schema: &EnumSchema) -> (r: Result<(), Error>) {
        let mut declared: Vec<String> = Vec::new();
        let nd = self.variants.len();
        let mut i: usize = 0;
        while i < nd
            invariant
                i <= nd,
                nd == self.variants@.len(),
                declared.deep_view().len() == i,
                forall|j: int|
                    0 <= j < i ==> declared.deep_view()[j] == self.variants.deep_view()[j].key(),
            decreases nd - i,
        {
            let ghost prev = declared.deep_view();
            let key = self.variants[i].value();
            declared.push(key);
            proof {
                assert forall|j: int| 0 <= j < i + 1 implies declared.deep_view()[j]
                    == self.variants.deep_view()[j].key() by {
                    if j < i {
                        assert(declared.deep_view()[j] == prev[j]);
                    }
                }
            }
            i = i + 1;
        }
        let mut skeys: Vec<String> = Vec::new();
        let ns = schema.variants.len();
        let mut k: usize = 0;
        while k < ns
            invariant
                k <= ns,
                ns == schema.variants@.len(),
                skeys.deep_view().len() == k,
                forall|j: int|
                    0 <= j < k ==> skeys.deep_view()[j] == schema.variants.deep_view()[j].value,
            decreases ns - k,
        {
            let ghost prev = skeys.deep_view();
            skeys.push(schema.variants[k].value.clone());
            proof {
                assert forall|j: int| 0 <= j < k + 1 implies skeys.deep_view()[j]
                    == schema.variants.deep_view()[j].value by {
                    if j < k {
                        assert(skeys.deep_view()[j] == prev[j]);
                    }
                }
            }
            k = k + 1;
        }
        proof {
            assert(declared.deep_view() =~= self@.variants.map_values(
                |v: VariantModel| v.key(),
            ));
            assert(skeys.deep_view() =~= schema@.variants.map_values(
                |v: VariantSchemaModel| v.value,
            ));
        }
        match diff_keys(&declared, &skeys) {
            KeyCheck::Equal => Ok(()),
            KeyCheck::Missing(p) => Err(
                Error::CheckFailed(CheckFailure::MissingVariants(p)),
            ),
            KeyCheck::Unknown(p) => Err(
                Error::CheckFailed(CheckFailure::UnknownVariants(p)),
            ),
        }
    }
}

impl Check<StructSchema> for StructContainer {
    open spec fn declared_keys(&self) -> Set<Seq<char>> {
        field_keys(self@.fields)
    }

    open spec fn schema_keys(schema: &StructSchema) -> Set<Seq<char>> {
        field_schema_keys(schema@.fields)
    }

    open spec fn missing_failure(payload: Seq<Seq<char>>) -> CheckFailureModel {
        CheckFailureModel::MissingFields(payload)
    }

    open spec fn unknown_failure(payload: Seq<Seq<char>>) -> CheckFailureModel {
        CheckFailureModel::UnknownFields(payload)
    }

    fn check(&self, schema: &StructSchema) -> (r: Result<(), Error>) {
        let mut declared: Vec<String> = Vec::new();
        let nd = self.fields.len();
        let mut i: usize = 0;
        while i < nd
            invariant
                i <= nd,
                nd == self.fields@.len(),
                declared.deep_view().len() == i,
                forall|j: int|
                    0 <= j < i ==> declared.deep_view()[j] == self.fields.deep_view()[j].key(),
            decreases nd - i,
        {
            let ghost prev = declared.deep_view();
            let key = self.fields[i].field_name();
            declared.push(key);
            proof {
                assert forall|j: int| 0 <= j < i + 1 implies declared.deep_view()[j]
                    == self.fields.deep_view()[j].key() by {
                    if j < i {
                        assert(declared.deep_view()[j] == prev[j]);
                    }
                }
            }
            i = i + 1;
        }
        let mut skeys: Vec<String> = Vec::new();
        let ns = schema.fields.len();
        let mut k: usize = 0;
        while k < ns
            invariant
                k <= ns,
                ns == schema.fields@.len(),
                skeys.deep_view().len() == k,
                forall|j: int|
                    0 <= j < k ==> skeys.deep_view()[j] == schema.fields.deep_view()[j].name,
            decreases ns - k,
        {
            let ghost prev = skeys.deep_view();
            skeys.push(schema.fields[k].name.clone());
            proof {
                assert forall|j: int| 0 <= j < k + 1 implies skeys.deep_view()[j]
                    == schema.fields.deep_view()[j].name by {
                    if j < k {
                        assert(skeys.deep_view()[j] == prev[j]);
                    }
                }
            }
            k = k + 1;
        }
        proof {
            assert(declared.deep_view() =~= self@.fields.map_values(|f: FieldModel| f.key()));
            assert(skeys.deep_view() =~= schema@.fields.map_values(
                |f: crate::schema_model::FieldSchemaModel| f.name,
            ));
        }
        match diff_keys(&declared, &skeys) {
            KeyCheck::Equal => Ok(()),
            KeyCheck::Missing(p) => Err(Error::CheckFailed(CheckFailure::MissingFields(p))),
            KeyCheck::Unknown(p) => Err(Error::CheckFailed(CheckFailure::UnknownFields(p))),
        }
    }
}

} // verus!
