//! The configuration records that the gateway is built from.
use vstd::prelude::*;

use crate::err::DemeanorError;

verus! {

/// Access to the module path of a plugin descriptor.
pub trait PluginConfig {
    spec fn plugin_path_view(&self) -> Seq<char>;

    fn get_plugin_path(&self) -> (r: &str)
        ensures
            r@ == self.plugin_path_view(),
    ;
}

/// A record looked up by a string key: a plugin by its name, an endpoint by
/// its path.
pub trait Keyed {
    spec fn key(&self) -> Seq<char>;

    fn key_ref(&self) -> (r: &String)
        ensures
            r@ == self.key(),
    ;
}

/// The transport a server listens on.
#[derive(Debug, PartialEq, Eq, Structural)]
pub enum ServerType {
    Webhook,
    UnixSocket,
    UnknownServerType,
}

/// The server type that a configuration name stands for.
pub open spec fn server_type_of(name: Seq<char>) -> ServerType {
    if name == "webhook"@ {
        ServerType::Webhook
    } else if name == "unix_socket"@ {
        ServerType::UnixSocket
    } else {
        ServerType::UnknownServerType
    }
}

impl From<String> for ServerType {
    fn from(v: String) -> (r: ServerType)
        ensures
            r == server_type_of(v@),
    {
        if v == "webhook".to_owned() {
            ServerType::Webhook
        } else if v == "unix_socket".to_owned() {
            ServerType::UnixSocket
        } else {
            ServerType::UnknownServerType
        }
    }
}

impl vstd::std_specs::convert::FromSpecImpl<String> for ServerType {
    open spec fn obeys_from_spec() -> bool {
        true
    }

    open spec fn from_spec(v: String) -> ServerType {
        server_type_of(v@)
    }
}

/// The kind of listener that serves a server's connections.
#[derive(Debug, PartialEq, Eq, Structural)]
pub enum Transport {
    Tcp,
    Unix,
}

impl ServerType {
    /// The listener for this server type; an unknown type is a startup error.
    pub fn transport(&self) -> (r: Result<Transport, DemeanorError>)
        ensures
            *self == ServerType::Webhook ==> r == Ok::<Transport, DemeanorError>(Transport::Tcp),
            *self == ServerType::UnixSocket ==> r == Ok::<Transport, DemeanorError>(Transport::Unix),
            *self == ServerType::UnknownServerType <==> r is Err,
            r is Err ==> r->Err_0.0@ == "Server type not recognized - exiting"@,
    {
        match self {
            ServerType::Webhook => Ok(Transport::Tcp),
            ServerType::UnixSocket => Ok(Transport::Unix),
            ServerType::UnknownServerType => Err(
                DemeanorError::new("Server type not recognized - exiting"),
            ),
        }
    }
}

/// An HTTP path owned by the trigger of the given name.
#[derive(Debug)]
pub struct Endpoint {
    pub path: String,
    pub trigger_name: String,
}

impl Keyed for Endpoint {
    open spec fn key(&self) -> Seq<char> {
        self.path@
    }

    fn key_ref(&self) -> (r: &String) {
        &self.path
    }
}

/// One listening server and the endpoints it serves.
#[derive(Debug)]
pub struct Server {
    pub server_type: ServerType,
    pub listen_addr: String,
    pub use_tls: bool,
    pub endpoints: Vec<Endpoint>,
}

/// First stage of a pipeline. `next_plugin` names a checker when `use_checker`
/// is set and a handler otherwise.
#[derive(Debug)]
pub struct Trigger {
    pub name: String,
    pub plugin_path: String,
    pub next_plugin: String,
    pub use_checker: bool,
}

/// Optional middle stage; `next_plugin` names a handler.
#[derive(Debug)]
pub struct Checker {
    pub name: String,
    pub plugin_path: String,
    pub next_plugin: String,
}

/// Terminal stage of a pipeline.
#[derive(Debug)]
pub struct Handler {
    pub name: String,
    pub plugin_path: String,
}

impl Keyed for Trigger {
    open spec fn key(&self) -> Seq<char> {
        self.name@
    }

    fn key_ref(&self) -> (r: &String) {
        &self.name
    }
}

impl PluginConfig for Trigger {
    open spec fn plugin_path_view(&self) -> Seq<char> {
        self.plugin_path@
    }

    fn get_plugin_path(&self) -> (r: &str) {
        self.plugin_path.as_str()
    }
}

impl Keyed for Checker {
    open spec fn key(&self) -> Seq<char> {
        self.name@
    }

    fn key_ref(&self) -> (r: &String) {
        &self.name
    }
}

impl PluginConfig for Checker {
    open spec fn plugin_path_view(&self) -> Seq<char> {
        self.plugin_path@
    }

    fn get_plugin_path(&self) -> (r: &str) {
        self.plugin_path.as_str()
    }
}

impl Keyed for Handler {
    open spec fn key(&self) -> Seq<char> {
        self.name@
    }

    fn key_ref(&self) -> (r: &String) {
        &self.name
    }
}

impl PluginConfig for Handler {
    open spec fn plugin_path_view(&self) -> Seq<char> {
        self.plugin_path@
    }

    fn get_plugin_path(&self) -> (r: &str) {
        self.plugin_path.as_str()
    }
}

/// The plugin binding that a configuration selects.
#[derive(Debug)]
pub enum TriggerType {
    CAbi,
    Interpreted,
    UnknownTriggerType(String),
}

/// The plugin binding that a configuration name stands for: `c_abi` or
/// `interpreted`, anything else being kept as an unknown name.
pub open spec fn trigger_type_of(v: String) -> TriggerType {
    if v@ == "c_abi"@ {
        TriggerType::CAbi
    } else if v@ == "interpreted"@ {
        TriggerType::Interpreted
    } else {
        TriggerType::UnknownTriggerType(v)
    }
}

impl From<String> for TriggerType {
    fn from(v: String) -> (r: TriggerType)
        ensures
            r == trigger_type_of(v),
    {
        if v == "c_abi".to_owned() {
            TriggerType::CAbi
        } else if v == "interpreted".to_owned() {
            TriggerType::Interpreted
        } else {
            TriggerType::UnknownTriggerType(v)
        }
    }
}

impl vstd::std_specs::convert::FromSpecImpl<String> for TriggerType {
    open spec fn obeys_from_spec() -> bool {
        true
    }

    open spec fn from_spec(v: String) -> TriggerType {
        trigger_type_of(v)
    }
}

impl TriggerType {
    /// Human-readable name of the binding.
    pub fn name(&self) -> (r: String)
        ensures
            self is CAbi ==> r@ == "C ABI"@,
            self is Interpreted ==> r@ == "Interpreted"@,
            self matches TriggerType::UnknownTriggerType(s) ==> r@ == s@,
    {
        match self {
            TriggerType::CAbi => "C ABI".to_owned(),
            TriggerType::Interpreted => "Interpreted".to_owned(),
            TriggerType::UnknownTriggerType(s) => s.as_str().to_owned(),
        }
    }
}

/// The whole configuration of one gateway process.
#[derive(Debug)]
pub struct TomlConfig {
    pub trigger_type: TriggerType,
    pub servers: Vec<Server>,
    pub triggers: Vec<Trigger>,
    pub checkers: Vec<Checker>,
    pub handlers: Vec<Handler>,
}

/// Whether some server of the list serves TLS.
pub open spec fn any_uses_tls(servers: Seq<Server>) -> bool {
    exists|i: int| 0 <= i < servers.len() && #[trigger] servers[i].use_tls
}

impl TomlConfig {
    /// Whether any configured server requires TLS.
    pub fn requires_tls(&self) -> (r: bool)
        ensures
            r == any_uses_tls(self.servers@),
    {
        let mut i: usize = 0;
        while i < self.servers.len()
            invariant
                i <= self.servers@.len(),
                forall|j: int| 0 <= j < i ==> !(#[trigger] self.servers@[j]).use_tls,
            decreases self.servers@.len() - i,
        {
            if self.servers[i].use_tls {
                return true;
            }
            i = i + 1;
        }
        false
    }
}

} // verus!
