//! Errors of building a channel.

use vstd::prelude::*;

use crate::bootstrap::BootstrapError;

verus! {

/// A certificate provider instance could not be initialized.
#[derive(Debug)]
pub struct CertProviderError {
    /// What went wrong.
    pub reason: String,
}

/// Errors that can occur when building a channel.
#[derive(Debug)]
pub enum BuildError {
    /// Bootstrap configuration could not be loaded.
    Bootstrap(BootstrapError),
    /// A `certificate_providers` entry in the bootstrap failed to initialize.
    CertProvider(CertProviderError),
}

impl BuildError {
    /// The error in words.
    pub open spec fn text(self) -> Seq<char> {
        match self {
            BuildError::Bootstrap(cause) => "bootstrap: "@ + cause.text(),
            BuildError::CertProvider(cause) => "certificate provider: "@ + cause.reason@,
        }
    }

    /// The error in words.
    pub fn message(&self) -> (r: String)
        ensures
            r@ == self.text(),
    {
        match self {
            BuildError::Bootstrap(cause) => {
                "bootstrap: ".to_owned().concat(cause.message().as_str())
            },
            BuildError::CertProvider(cause) => {
                "certificate provider: ".to_owned().concat(cause.reason.as_str())
            },
        }
    }
}

impl From<BootstrapError> for BuildError {
    fn from(cause: BootstrapError) -> (r: Self) {
        BuildError::Bootstrap(cause)
    }
}

impl vstd::std_specs::convert::FromSpecImpl<BootstrapError> for BuildError {
    open spec fn obeys_from_spec() -> bool {
        true
    }

    open spec fn from_spec(cause: BootstrapError) -> Self {
        BuildError::Bootstrap(cause)
    }
}

impl From<CertProviderError> for BuildError {
    fn from(cause: CertProviderError) -> (r: Self) {
        BuildError::CertProvider(cause)
    }
}

impl vstd::std_specs::convert::FromSpecImpl<CertProviderError> for BuildError {
    open spec fn obeys_from_spec() -> bool {
        true
    }

    open spec fn from_spec(cause: CertProviderError) -> Self {
        BuildError::CertProvider(cause)
    }
}

} // verus!
