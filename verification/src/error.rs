use vstd::prelude::*;

verus! {

/// Specification-level mirror of [`CheckFailure`]: each payload is the
/// sequence of offending member keys.
#[verifier::ext_equal]
pub enum CheckFailureModel {
    MissingFields(Seq<Seq<char>>),
    MissingVariants(Seq<Seq<char>>),
    UnknownFields(Seq<Seq<char>>),
    UnknownVariants(Seq<Seq<char>>),
}

/// Specification-level mirror of [`Error`].
#[verifier::ext_equal]
pub enum ErrorModel {
    CheckFailed(CheckFailureModel),
    Darling(Seq<char>),
    EnumNotDefined,
    FileOpenFailed(Seq<char>),
    FileReadFailed(Seq<char>),
    InvalidEnumVariant(Seq<char>),
    InvalidStructField(Seq<char>),
    MissingComponents,
    ModelNotFound(Seq<char>),
    UnknownField(Seq<char>),
    UnsupportedEnumType,
    UnsupportedNestedObjectType,
    UnsupportedSchemaType(Seq<char>),
    UnsupportedStructType,
}

/// Outcome of the consistency checker when the hand-authored member keys and
/// the schema keys disagree; each payload is sorted ascending.
#[derive(Debug, PartialEq, Eq)]
pub enum CheckFailure {
    MissingFields(Vec<String>),
    MissingVariants(Vec<String>),
    UnknownFields(Vec<String>),
    UnknownVariants(Vec<String>),
}

impl View for CheckFailure {
    type V = CheckFailureModel;

    open spec fn view(&self) -> CheckFailureModel {
        match self {
            CheckFailure::MissingFields(fs) => CheckFailureModel::MissingFields(fs.deep_view()),
            CheckFailure::MissingVariants(vs) => CheckFailureModel::MissingVariants(vs.deep_view()),
            CheckFailure::UnknownFields(fs) => CheckFailureModel::UnknownFields(fs.deep_view()),
            CheckFailure::UnknownVariants(vs) => CheckFailureModel::UnknownVariants(vs.deep_view()),
        }
    }
}

/// The full failure taxonomy of the engine. Every failure is terminal for an
/// invocation; the kind is preserved for programmatic inspection.
#[derive(Debug, PartialEq, Eq)]
pub enum Error {
    /// The consistency checker found a mismatch.
    CheckFailed(CheckFailure),
    /// Malformed per-member configuration, reported by the front end.
    Darling(String),
    /// The target is an enumeration but the schema string type has no
    /// enumeration list.
    EnumNotDefined,
    /// The schema document could not be opened, reported by the loader.
    FileOpenFailed(String),
    /// The schema document could not be parsed, reported by the loader.
    FileReadFailed(String),
    /// A hand-authored variant has no schema counterpart during generation.
    InvalidEnumVariant(String),
    /// A hand-authored field has no schema counterpart during generation.
    InvalidStructField(String),
    /// The document has no components section.
    MissingComponents,
    /// The referenced schema component is absent or only an indirection.
    ModelNotFound(String),
    /// The schema's own required-name list references an undeclared property.
    UnknownField(String),
    /// The target is an enumeration but the schema is not a string type.
    UnsupportedEnumType,
    /// An inline object property was encountered where only references are
    /// supported.
    UnsupportedNestedObjectType,
    /// An unhandled schema composition kind.
    UnsupportedSchemaType(String),
    /// The target is a struct but the schema is not an object type.
    UnsupportedStructType,
}

impl View for Error {
    type V = ErrorModel;

    open spec fn view(&self) -> ErrorModel {
        match self {
            Error::CheckFailed(cf) => ErrorModel::CheckFailed(cf@),
            Error::Darling(m) => ErrorModel::Darling(m@),
            Error::EnumNotDefined => ErrorModel::EnumNotDefined,
            Error::FileOpenFailed(p) => ErrorModel::FileOpenFailed(p@),
            Error::FileReadFailed(p) => ErrorModel::FileReadFailed(p@),
            Error::InvalidEnumVariant(v) => ErrorModel::InvalidEnumVariant(v@),
            Error::InvalidStructField(f) => ErrorModel::InvalidStructField(f@),
            Error::MissingComponents => ErrorModel::MissingComponents,
            Error::ModelNotFound(m) => ErrorModel::ModelNotFound(m@),
            Error::UnknownField(n) => ErrorModel::UnknownField(n@),
            Error::UnsupportedEnumType => ErrorModel::UnsupportedEnumType,
            Error::UnsupportedNestedObjectType => ErrorModel::UnsupportedNestedObjectType,
            Error::UnsupportedSchemaType(s) => ErrorModel::UnsupportedSchemaType(s@),
            Error::UnsupportedStructType => ErrorModel::UnsupportedStructType,
        }
    }
}

/// The payloads of a failure list, joined with a comma and a space.
pub open spec fn comma_join(items: Seq<Seq<char>>) -> Seq<char>
    decreases items.len(),
{
    if items.len() == 0 {
        Seq::empty()
    } else if items.len() == 1 {
        items[0]
    } else {
        items[0] + ", "@ + comma_join(items.skip(1))
    }
}

/// The human-readable message of a consistency failure.
pub open spec fn check_failure_message(cf: CheckFailureModel) -> Seq<char> {
    match cf {
        CheckFailureModel::MissingFields(fs) => "missing fields: "@ + comma_join(fs),
        CheckFailureModel::MissingVariants(vs) => "missing variants: "@ + comma_join(vs),
        CheckFailureModel::UnknownFields(fs) => "unknown fields: "@ + comma_join(fs),
        CheckFailureModel::UnknownVariants(vs) => "unknown variants: "@ + comma_join(vs),
    }
}

/// The human-readable message of a failure.
pub open spec fn error_message(e: ErrorModel) -> Seq<char> {
    match e {
        ErrorModel::CheckFailed(cf) => "schema check failed due to "@ + check_failure_message(cf),
        ErrorModel::Darling(m) => m,
        ErrorModel::EnumNotDefined => "enum not defined"@,
        ErrorModel::FileOpenFailed(p) => "failed to open file '"@ + p + "'"@,
        ErrorModel::FileReadFailed(p) => "failed to read file '"@ + p + "'"@,
        ErrorModel::InvalidEnumVariant(v) => "unknown variant '"@ + v + "'"@,
        ErrorModel::InvalidStructField(f) => "unknown field '"@ + f + "'"@,
        ErrorModel::MissingComponents => "schema missing components structure"@,
        ErrorModel::ModelNotFound(m) => "model '"@ + m + "' not found in schemas"@,
        ErrorModel::UnknownField(n) => "unknown field '"@ + n + "'"@,
        ErrorModel::UnsupportedEnumType => "enums are only supported for string types"@,
        ErrorModel::UnsupportedNestedObjectType => "nested objects are not supported"@,
        ErrorModel::UnsupportedSchemaType(s) => "'"@ + s + "' is not supported"@,
        ErrorModel::UnsupportedStructType => "structs are only supported for object types"@,
    }
}

/// Joins the items with `", "`, starting at index `i`.
fn join_comma_from(items: &Vec<String>, i: usize) -> (r: String)
    requires
        i <= items@.len(),
    ensures
        r@ == comma_join(items.deep_view().skip(i as int)),
    decreases items@.len() - i,
{
    let n = items.len();
    if i == n {
        let r = String::new();
        proof {
            assert(items.deep_view().skip(i as int).len() == 0);
        }
        r
    } else if i == n - 1 {
        let r = items[i].clone();
        proof {
            assert(items.deep_view().skip(i as int).len() == 1);
            assert(items.deep_view().skip(i as int)[0] == items@[i as int]@);
        }
        r
    } else {
        let mut r = items[i].clone();
        r.append(", ");
        let rest = join_comma_from(items, i + 1);
        r.append(rest.as_str());
        proof {
            let s = items.deep_view().skip(i as int);
            assert(s[0] == items@[i as int]@);
            assert(s.skip(1) =~= items.deep_view().skip(i + 1));
            assert(r@ == s[0] + ", "@ + comma_join(s.skip(1)));
        }
        r
    }
}

impl CheckFailure {
    /// Renders the failure as the diagnostic text the engine surfaces.
    pub fn message(&self) -> (r: String)
        ensures
            r@ == check_failure_message(self@),
    {
        match self {
            CheckFailure::MissingFields(fs) => {
                let mut s = String::from_str("missing fields: ");
                let joined = join_comma_from(fs, 0);
                s.append(joined.as_str());
                proof {
                    assert(fs.deep_view().skip(0) =~= fs.deep_view());
                }
                s
            },
            CheckFailure::MissingVariants(vs) => {
                let mut s = String::from_str("missing variants: ");
                let joined = join_comma_from(vs, 0);
                s.append(joined.as_str());
                proof {
                    assert(vs.deep_view().skip(0) =~= vs.deep_view());
                }
                s
            },
            CheckFailure::UnknownFields(fs) => {
                let mut s = String::from_str("unknown fields: ");
                let joined = join_comma_from(fs, 0);
                s.append(joined.as_str());
                proof {
                    assert(fs.deep_view().skip(0) =~= fs.deep_view());
                }
                s
            },
            CheckFailure::UnknownVariants(vs) => {
                let mut s = String::from_str("unknown variants: ");
                let joined = join_comma_from(vs, 0);
                s.append(joined.as_str());
                proof {
                    assert(vs.deep_view().skip(0) =~= vs.deep_view());
                }
                s
            },
        }
    }
}

impl Error {
    /// Renders the failure as the diagnostic text the engine surfaces.
    pub fn message(&self) -> (r: String)
        ensures
            r@ == error_message(self@),
    {
        match self {
            Error::CheckFailed(cf) => {
                let mut s = String::from_str("schema check failed due to ");
                let detail = cf.message();
                s.append(detail.as_str());
                s
            },
            Error::Darling(m) => m.clone(),
            Error::EnumNotDefined => String::from_str("enum not defined"),
            Error::FileOpenFailed(p) => {
                let mut s = String::from_str("failed to open file '");
                s.append(p.as_str());
                s.append("'");
                s
            },
            Error::FileReadFailed(p) => {
                let mut s = String::from_str("failed to read file '");
                s.append(p.as_str());
                s.append("'");
                s
            },
            Error::InvalidEnumVariant(v) => {
                let mut s = String::from_str("unknown variant '");
                s.append(v.as_str());
                s.append("'");
                s
            },
            Error::InvalidStructField(f) => {
                let mut s = String::from_str("unknown field '");
                s.append(f.as_str());
                s.append("'");
                s
            },
            Error::MissingComponents => String::from_str("schema missing components structure"),
            Error::ModelNotFound(m) => {
                let mut s = String::from_str("model '");
                s.append(m.as_str());
                s.append("' not found in schemas");
                s
            },
            Error::UnknownField(n) => {
                let mut s = String::from_str("unknown field '");
                s.append(n.as_str());
                s.append("'");
                s
            },
            Error::UnsupportedEnumType => {
                String::from_str("enums are only supported for string types")
            },
            Error::UnsupportedNestedObjectType => {
                String::from_str("nested objects are not supported")
            },
            Error::UnsupportedSchemaType(s) => {
                let mut r = String::from_str("'");
                r.append(s.as_str());
                r.append("' is not supported");
                r
            },
            Error::UnsupportedStructType => {
                String::from_str("structs are only supported for object types")
            },
        }
    }
}

} // verus!
