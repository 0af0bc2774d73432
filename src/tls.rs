//! TLS options of the gateway and the arguments it is started with.
use vstd::prelude::*;

use crate::err::DemeanorError;

verus! {

/// A PKCS#12 server identity and its passphrase.
pub struct TlsIdentity {
    identity: Vec<u8>,
    pw: String,
}

impl TlsIdentity {
    pub fn new(identity: Vec<u8>, pw: String) -> (r: TlsIdentity)
        ensures
            r.identity_view() == identity@,
            r.password_view() == pw@,
    {
        TlsIdentity { identity, pw }
    }

    pub closed spec fn identity_view(&self) -> Seq<u8> {
        self.identity@
    }

    pub closed spec fn password_view(&self) -> Seq<char> {
        self.pw@
    }

    /// The PKCS#12 archive.
    pub fn identity(&self) -> (r: &Vec<u8>)
        ensures
            r@ == self.identity_view(),
    {
        &self.identity
    }

    /// The passphrase of the archive.
    pub fn password(&self) -> (r: &str)
        ensures
            r@ == self.password_view(),
    {
        self.pw.as_str()
    }
}

/// Whether the gateway was given a TLS identity.
pub enum UseTls {
    Yes(TlsIdentity),
    No,
}

impl UseTls {
    pub fn use_tls(&self) -> (r: bool)
        ensures
            r == (self is Yes),
    {
        match self {
            UseTls::Yes(_) => true,
            UseTls::No => false,
        }
    }
}

/// Reconciles the TLS identity given at startup with what the configuration
/// asks for: a configuration that serves TLS without an identity is refused;
/// an identity that no server needs is dropped.
pub fn resolve_tls(config_uses_tls: bool, use_tls: UseTls) -> (r: Result<UseTls, DemeanorError>)
    ensures
        config_uses_tls && use_tls is No <==> r is Err,
        r matches Err(e) ==> e.0@ == "Missing required options for TLS"@,
        !config_uses_tls ==> (r matches Ok(u) && u is No),
        config_uses_tls && use_tls is Yes ==> r == Ok::<UseTls, DemeanorError>(use_tls),
{
    if config_uses_tls && !use_tls.use_tls() {
        Err(DemeanorError::new("Missing required options for TLS"))
    } else if !config_uses_tls {
        Ok(UseTls::No)
    } else {
        Ok(use_tls)
    }
}

/// The configuration file read when none is named.
pub const DEFAULT_CONFIG_PATH: &'static str = "/etc/miss-demeanor/config.toml";

/// The options the gateway is started with.
pub struct Args {
    pub use_tls: UseTls,
    pub config_path: String,
}

impl Args {
    /// The arguments, with the default configuration path where none is named.
    pub fn new(use_tls: UseTls, config_path: Option<String>) -> (r: Args)
        ensures
            r.use_tls == use_tls,
            config_path matches Some(p) ==> r.config_path@ == p@,
            config_path is None ==> r.config_path@ == DEFAULT_CONFIG_PATH@,
    {
        let config_path = match config_path {
            Some(p) => p,
            None => DEFAULT_CONFIG_PATH.to_owned(),
        };
        Args { use_tls, config_path }
    }
}

} // verus!
