//! Textual canister identifiers.
//!
//! The remote platform addresses every service by a principal, written as
//! a dash-grouped base32 text. The library keeps principals in their
//! textual form and delegates the validity check to the candid crate.

use vstd::prelude::*;
use crate::network::ConfigError;

verus! {

/// Whether the text is a well-formed principal in its canonical textual
/// form. The check is candid's; its outcome depends on the text alone.
pub uninterp spec fn is_principal_text(s: Seq<char>) -> bool;

/// Relies on candid::Principal::from_text: parsing succeeds exactly on
/// canonical principal texts, and depends on the text alone.
#[verifier::external_body]
fn principal_text_ok(s: &str) -> (r: bool)
    ensures
        r == is_principal_text(s@),
{
    candid::Principal::from_text(s).is_ok()
}

/// A canister identifier, held as validated principal text.
#[derive(Debug, Clone, PartialEq, Eq)]
pub struct CanisterId {
    text: String,
}

impl View for CanisterId {
    type V = Seq<char>;

    closed spec fn view(&self) -> Seq<char> {
        self.text@
    }
}

impl CanisterId {
    /// The identifier is only ever built from text that candid accepts.
    pub closed spec fn wf(&self) -> bool {
        is_principal_text(self.text@)
    }

    /// Validates principal text and wraps it. Succeeds exactly on texts
    /// that candid parses as a principal.
    pub fn from_text(s: &str) -> (r: Result<CanisterId, ConfigError>)
        ensures
            r is Ok <==> is_principal_text(s@),
            r matches Ok(id) ==> id@ == s@ && id.wf(),
            r matches Err(e) ==> (e matches ConfigError::InvalidPrincipal(t) && t@ == s@),
    {
        if principal_text_ok(s) {
            Ok(CanisterId { text: s.to_owned() })
        } else {
            Err(ConfigError::InvalidPrincipal(s.to_owned()))
        }
    }

    /// The identifier's text.
    pub fn as_str(&self) -> (r: &str)
        ensures
            r@ == self@,
    {
        self.text.as_str()
    }

    /// A copy of the identifier, equal to it.
    pub fn duplicate(&self) -> (r: CanisterId)
        ensures
            r@ == self@,
            r.wf() <==> self.wf(),
    {
        CanisterId { text: self.text.clone() }
    }
}

} // verus!
