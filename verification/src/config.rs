//! The configuration that a channel is built from.

use std::sync::Arc;

use vstd::prelude::*;

use crate::bootstrap::{BootstrapConfig, BootstrapError, BootstrapView};
use crate::instances::share;
use crate::uri::XdsUri;

verus! {

/// Configuration for building a channel. `C` is the type of the per-stream call
/// credentials.
#[derive(Debug)]
pub struct XdsChannelConfig<C: ?Sized> {
    target_uri: XdsUri,
    bootstrap: Option<BootstrapConfig>,
    call_creds: Option<Arc<C>>,
}

/// A configuration as plain values.
#[verifier::reject_recursive_types(C)]
pub struct ConfigView<C: ?Sized> {
    pub target: Seq<char>,
    pub bootstrap: Option<BootstrapView>,
    pub call_creds: Option<Arc<C>>,
}

/// The view of an optional bootstrap configuration.
pub open spec fn bootstrap_view(bootstrap: Option<BootstrapConfig>) -> Option<BootstrapView> {
    match bootstrap {
        Some(set) => Some(set@),
        None => None,
    }
}

impl<C: ?Sized> View for XdsChannelConfig<C> {
    type V = ConfigView<C>;

    closed spec fn view(&self) -> ConfigView<C> {
        ConfigView {
            target: self.target_uri.target@,
            bootstrap: bootstrap_view(self.bootstrap),
            call_creds: self.call_creds,
        }
    }
}

impl<C: ?Sized> XdsChannelConfig<C> {
    /// Creates a new config with the given target URI.
    #[must_use]
    pub fn new(target_uri: XdsUri) -> (r: Self)
        ensures
            r@ == (ConfigView::<C> {
                target: target_uri.target@,
                bootstrap: None,
                call_creds: None,
            }),
    {
        XdsChannelConfig { target_uri, bootstrap: None, call_creds: None }
    }

    /// Sets the bootstrap configuration.
    ///
    /// If not set, the builder falls back to loading from environment
    /// variables (`GRPC_XDS_BOOTSTRAP` or `GRPC_XDS_BOOTSTRAP_CONFIG`).
    #[must_use]
    pub fn with_bootstrap(self, bootstrap: BootstrapConfig) -> (r: Self)
        ensures
            r@ == (ConfigView { bootstrap: Some(bootstrap@), ..self@ }),
    {
        XdsChannelConfig { bootstrap: Some(bootstrap), ..self }
    }

    /// Sets the bootstrap configuration to what was eagerly loaded from environment
    /// variables, or hands back the error of that load.
    ///
    /// This is optional: the builder falls back to the environment automatically if
    /// no bootstrap is set. Use this method when you want to surface bootstrap errors
    /// at config time rather than build time.
    pub fn with_bootstrap_from_env(self, loaded: Result<BootstrapConfig, BootstrapError>) -> (r:
        Result<Self, BootstrapError>)
        ensures
            match loaded {
                Ok(bootstrap) => r matches Ok(config) && config@ == (ConfigView {
                    bootstrap: Some(bootstrap@),
                    ..self@
                }),
                Err(error) => r == Err::<Self, BootstrapError>(error),
            },
    {
        match loaded {
            Ok(bootstrap) => Ok(self.with_bootstrap(bootstrap)),
            Err(error) => Err(error),
        }
    }

    /// Set per-stream call credentials for the ADS stream (e.g. `google_default`).
    ///
    /// Attached on each (re)connect, only over a secure channel; over an insecure
    /// channel, stream creation fails. Not refreshed mid-stream.
    pub fn with_call_credentials(self, creds: Arc<C>) -> (r: Self)
        ensures
            r@ == (ConfigView { call_creds: Some(creds), ..self@ }),
    {
        XdsChannelConfig { call_creds: Some(creds), ..self }
    }

    /// The target URI.
    pub fn target_uri(&self) -> (r: &XdsUri)
        ensures
            r.target@ == self@.target,
    {
        &self.target_uri
    }

    /// The bootstrap configuration, if one was set.
    pub fn bootstrap(&self) -> (r: Option<&BootstrapConfig>)
        ensures
            match r {
                Some(set) => self@.bootstrap == Some(set@),
                None => self@.bootstrap is None,
            },
    {
        self.bootstrap.as_ref()
    }

    /// The call credentials, if they were set.
    pub fn call_creds(&self) -> (r: Option<Arc<C>>)
        ensures
            r == self@.call_creds,
    {
        share(&self.call_creds)
    }
}

impl<C: ?Sized> Clone for XdsChannelConfig<C> {
    fn clone(&self) -> (r: Self)
        ensures
            r@ == self@,
    {
        XdsChannelConfig {
            target_uri: self.target_uri.clone(),
            bootstrap: match &self.bootstrap {
                Some(set) => Some(set.clone()),
                None => None,
            },
            call_creds: share(&self.call_creds),
        }
    }
}

} // verus!
