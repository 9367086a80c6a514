//! Declarations of the outside types that the options and the registration
//! request carry through unchanged.

use vstd::prelude::*;

verus! {

#[verifier::external_type_specification]
#[verifier::external_body]
pub struct ExUrl(url::Url);

#[verifier::external_type_specification]
#[verifier::external_body]
pub struct ExInputFile(teloxide_core::types::InputFile);

/// Relies on the `Clone` that `url::Url` derives: every field is cloned, so
/// the copy is the same URL.
pub assume_specification[ <url::Url as Clone>::clone ](u: &url::Url) -> (r: url::Url)
    ensures
        r == *u,
;

} // verus!
