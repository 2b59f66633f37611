//! The credential resolver: from what the process configuration holds under
//! the variable to the token, or to the failure that names the variable.

use crate::error::{missing_credential_spec, SpeakError, SpeakErrorView};
use vstd::prelude::*;

verus! {

/// What the process configuration holds under the credential variable.
#[derive(Debug, PartialEq, Eq)]
pub enum CredentialLookup {
    /// The variable is set; this is its value.
    Found { token: String },
    /// The variable holds nothing usable; `cause` says why.
    Missing { cause: String },
}

/// The model of a [`CredentialLookup`].
pub enum CredentialLookupView {
    Found { token: Seq<char> },
    Missing { cause: Seq<char> },
}

impl View for CredentialLookup {
    type V = CredentialLookupView;

    open spec fn view(&self) -> CredentialLookupView {
        match self {
            CredentialLookup::Found { token } => CredentialLookupView::Found { token: token@ },
            CredentialLookup::Missing { cause } => CredentialLookupView::Missing { cause: cause@ },
        }
    }
}

/// The token, or the failure of kind `MissingCredential` that names the variable.
pub open spec fn resolved(variable: Seq<char>, lookup: CredentialLookupView) -> Result<
    Seq<char>,
    SpeakErrorView,
> {
    match lookup {
        CredentialLookupView::Found { token } => Ok(token),
        CredentialLookupView::Missing { cause } => Err(missing_credential_spec(variable, cause)),
    }
}

/// Resolves the credential: the token where the variable is set, else the
/// failure that names the variable. Nothing is kept between calls.
pub fn resolve_credential(variable: &str, lookup: CredentialLookup) -> (result: Result<
    String,
    SpeakError,
>)
    ensures
        match result {
            Ok(token) => resolved(variable@, lookup@) == Ok::<Seq<char>, SpeakErrorView>(token@),
            Err(error) => resolved(variable@, lookup@) == Err::<Seq<char>, SpeakErrorView>(error@),
        },
{
    match lookup {
        CredentialLookup::Found { token } => Ok(token),
        CredentialLookup::Missing { cause } => Err(
            SpeakError::missing_credential(variable, cause.as_str()),
        ),
    }
}

} // verus!
