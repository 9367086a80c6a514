use vstd::prelude::*;
use teloxide_core::types::InputFile;
use url::Url;
use crate::options::Options;

verus! {

/// The single-use projection of the options that the registration call
/// carries. Fields left `None` are omitted from the call, so the remote
/// service applies its own defaults.
pub struct RegistrationRequest {
    pub url: Url,
    pub certificate: Option<InputFile>,
    pub drop_pending_updates: Option<bool>,
}

/// Why setting up a webhook failed.
#[derive(Clone, Debug, PartialEq, Eq)]
pub enum SetupError {
    /// The remote service could not be reached.
    Transport(String),
    /// The remote service declined the registration, with its reason.
    Rejected(String),
}

/// The registration request that the options `o` describe.
pub open spec fn registration_of(o: Options) -> RegistrationRequest {
    RegistrationRequest {
        url: o.url,
        certificate: o.certificate,
        drop_pending_updates: o.drop_pending_updates,
    }
}

/// Builds the registration request from the options, moving the certificate
/// out of them so that it cannot be sent a second time.
pub fn take_registration(options: &mut Options) -> (r: RegistrationRequest)
    ensures
        r == registration_of(*old(options)),
        *final(options) == old(options).without_certificate(),
{
    let url = options.url.clone();
    let certificate = options.certificate.take();
    RegistrationRequest { url, certificate, drop_pending_updates: options.drop_pending_updates }
}

} // verus!
