use vstd::prelude::*;

verus! {

/// The invocation configuration: the schema document's path, and an optional
/// explicit component reference overriding the declaration's own identifier.
#[derive(Debug, PartialEq, Eq, Clone)]
pub struct OpenApiArgs {
    pub schema: String,
    pub reference: Option<String>,
}

/// Specification-level mirror of [`OpenApiArgs`].
#[verifier::ext_equal]
pub struct OpenApiArgsModel {
    pub schema: Seq<char>,
    pub reference: Option<Seq<char>>,
}

impl View for OpenApiArgs {
    type V = OpenApiArgsModel;

    open spec fn view(&self) -> OpenApiArgsModel {
        OpenApiArgsModel {
            schema: self.schema@,
            reference: match self.reference {
                Some(r) => Some(r@),
                None => None,
            },
        }
    }
}

impl OpenApiArgsModel {
    /// The component reference to resolve: the explicit override if present,
    /// else the declaration's own identifier.
    pub open spec fn reference_or(self, ident: Seq<char>) -> Seq<char> {
        match self.reference {
            Some(r) => r,
            None => ident,
        }
    }
}

} // verus!
