use vstd::prelude::*;
use teloxide_core::types::InputFile;
use url::Url;
use crate::address::SocketAddress;

verus! {

/// Options related to setting up a webhook.
///
/// No validation happens here: whether the url's port is accepted and whether
/// it forwards to `address` are properties of the deployment, which the remote
/// service decides when the webhook is registered.
pub struct Options {
    /// Local address to listen to.
    pub address: SocketAddress,
    /// Public url that the remote service sends updates to. It must be
    /// forwarded to `address`, and should be kept private.
    pub url: Url,
    /// Public key certificate to upload, so that a self-signed root
    /// certificate can be checked. Default: none.
    pub certificate: Option<InputFile>,
    /// `Some(true)` asks the remote service to drop the updates queued before
    /// registration. Default: none.
    pub drop_pending_updates: Option<bool>,
}

impl Options {
    /// The options with both optional fields unset.
    pub open spec fn spec_new(address: SocketAddress, url: Url) -> Options {
        Options { address, url, certificate: None, drop_pending_updates: None }
    }

    /// These options with the certificate `v`.
    pub open spec fn with_certificate(self, v: InputFile) -> Options {
        Options { certificate: Some(v), ..self }
    }

    /// These options with pending updates to be dropped.
    pub open spec fn with_drop_pending_updates(self) -> Options {
        Options { drop_pending_updates: Some(true), ..self }
    }

    /// These options once the certificate has been handed to a registration.
    pub open spec fn without_certificate(self) -> Options {
        Options { certificate: None, ..self }
    }

    /// Constructs webhook options from the local address and the public url.
    pub fn new(address: SocketAddress, url: Url) -> (r: Self)
        ensures
            r == Options::spec_new(address, url),
    {
        Options { address, url, certificate: None, drop_pending_updates: None }
    }

    /// Sets the public key certificate to upload on registration.
    pub fn certificate(self, v: InputFile) -> (r: Self)
        ensures
            r == self.with_certificate(v),
    {
        Options { certificate: Some(v), ..self }
    }

    /// Asks for all pending updates to be dropped on registration.
    pub fn drop_pending_updates(self) -> (r: Self)
        ensures
            r == self.with_drop_pending_updates(),
    {
        Options { drop_pending_updates: Some(true), ..self }
    }
}

/// The two builder steps commute: setting the certificate and asking to drop
/// pending updates, in either order, gives the same options, with both set and
/// everything else kept.
pub proof fn lemma_builder_steps_commute(o: Options, v: InputFile)
    ensures
        o.with_certificate(v).with_drop_pending_updates()
            == o.with_drop_pending_updates().with_certificate(v),
        o.with_certificate(v).with_drop_pending_updates().certificate == Some(v),
        o.with_certificate(v).with_drop_pending_updates().drop_pending_updates == Some(true),
        o.with_certificate(v).with_drop_pending_updates().address == o.address,
        o.with_certificate(v).with_drop_pending_updates().url == o.url,
{
}

} // verus!
