//! The bootstrap configuration of the xDS client and where it comes from.

use vstd::prelude::*;

use crate::instances::InstanceMap;

verus! {

/// The environment variable that names the bootstrap file.
pub const BOOTSTRAP_FILE_VAR: &'static str = "GRPC_XDS_BOOTSTRAP";

/// The environment variable that holds the bootstrap configuration itself.
pub const BOOTSTRAP_INLINE_VAR: &'static str = "GRPC_XDS_BOOTSTRAP_CONFIG";

/// Errors that can occur when loading the bootstrap configuration.
#[derive(Debug)]
pub enum BootstrapError {
    /// No environment variable gives a bootstrap configuration.
    NotSet,
    /// The configuration could not be read.
    Load(String),
    /// The configuration was read and cannot be used.
    Validation(String),
}

impl BootstrapError {
    /// The error in words.
    pub open spec fn text(self) -> Seq<char> {
        match self {
            BootstrapError::NotSet =>
                "neither GRPC_XDS_BOOTSTRAP nor GRPC_XDS_BOOTSTRAP_CONFIG is set"@,
            BootstrapError::Load(reason) => reason@,
            BootstrapError::Validation(reason) => reason@,
        }
    }

    /// The error in words.
    pub fn message(&self) -> (r: String)
        ensures
            r@ == self.text(),
    {
        match self {
            BootstrapError::NotSet => {
                "neither GRPC_XDS_BOOTSTRAP nor GRPC_XDS_BOOTSTRAP_CONFIG is set".to_owned()
            },
            BootstrapError::Load(reason) => reason.clone(),
            BootstrapError::Validation(reason) => reason.clone(),
        }
    }
}

/// Where a bootstrap configuration is read from.
#[derive(Debug)]
pub enum BootstrapSource {
    /// The file at this path.
    File(String),
    /// This text.
    Inline(String),
}

/// Where the environment says that the bootstrap configuration is: the file that
/// `GRPC_XDS_BOOTSTRAP` names, and only where that variable is not set, the text in
/// `GRPC_XDS_BOOTSTRAP_CONFIG`.
pub fn bootstrap_source(file: Option<String>, inline: Option<String>) -> (r: Result<
    BootstrapSource,
    BootstrapError,
>)
    ensures
        r == (match (file, inline) {
            (Some(path), _) => Ok::<BootstrapSource, BootstrapError>(BootstrapSource::File(path)),
            (None, Some(text)) => Ok(BootstrapSource::Inline(text)),
            (None, None) => Err(BootstrapError::NotSet),
        }),
{
    match file {
        Some(path) => Ok(BootstrapSource::File(path)),
        None => match inline {
            Some(text) => Ok(BootstrapSource::Inline(text)),
            None => Err(BootstrapError::NotSet),
        },
    }
}

/// The plugin behind a certificate provider instance and its configuration text.
#[derive(Debug)]
pub struct CertProviderConfig {
    /// The name of the plugin, such as `file_watcher`.
    pub plugin_name: String,
    /// The plugin's configuration.
    pub config: String,
}

impl Clone for CertProviderConfig {
    fn clone(&self) -> (r: Self)
        ensures
            r == *self,
    {
        CertProviderConfig { plugin_name: self.plugin_name.clone(), config: self.config.clone() }
    }
}

/// What the bootstrap configuration tells the channel.
#[derive(Debug)]
pub struct BootstrapConfig {
    server_uri: String,
    use_tls: bool,
    certificate_providers: InstanceMap<CertProviderConfig>,
    node: String,
}

/// A bootstrap configuration as plain values.
pub struct BootstrapView {
    pub server_uri: Seq<char>,
    pub use_tls: bool,
    pub certificate_providers: Map<Seq<char>, CertProviderConfig>,
    pub node: Seq<char>,
}

impl View for BootstrapConfig {
    type V = BootstrapView;

    closed spec fn view(&self) -> BootstrapView {
        BootstrapView {
            server_uri: self.server_uri@,
            use_tls: self.use_tls,
            certificate_providers: self.certificate_providers@,
            node: self.node@,
        }
    }
}

impl BootstrapConfig {
    /// A configuration for the management server at `server_uri`, reached over TLS
    /// if `use_tls`, with the named certificate provider instances and the text that
    /// describes this node.
    pub fn new(
        server_uri: String,
        use_tls: bool,
        certificate_providers: InstanceMap<CertProviderConfig>,
        node: String,
    ) -> (r: Self)
        ensures
            r@ == (BootstrapView {
                server_uri: server_uri@,
                use_tls,
                certificate_providers: certificate_providers@,
                node: node@,
            }),
    {
        BootstrapConfig { server_uri, use_tls, certificate_providers, node }
    }

    /// The URI of the management server.
    pub fn server_uri(&self) -> (r: &str)
        ensures
            r@ == self@.server_uri,
    {
        self.server_uri.as_str()
    }

    /// Whether the management server is reached over TLS.
    pub fn use_tls(&self) -> (r: bool)
        ensures
            r == self@.use_tls,
    {
        self.use_tls
    }

    /// The certificate provider instances that the bootstrap configures.
    pub fn certificate_providers(&self) -> (r: &InstanceMap<CertProviderConfig>)
        ensures
            r@ == self@.certificate_providers,
    {
        &self.certificate_providers
    }

    /// The description of this node.
    pub fn node(&self) -> (r: &str)
        ensures
            r@ == self@.node,
    {
        self.node.as_str()
    }
}

impl Clone for BootstrapConfig {
    fn clone(&self) -> (r: Self)
        ensures
            r@ == self@,
    {
        let certificate_providers = self.certificate_providers.clone();
        assert(certificate_providers@ =~= self.certificate_providers@);
        BootstrapConfig {
            server_uri: self.server_uri.clone(),
            use_tls: self.use_tls,
            certificate_providers,
            node: self.node.clone(),
        }
    }
}

} // verus!
