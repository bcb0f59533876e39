//! Runtime configuration: built-in defaults, and the precedence between the
//! command line, the configuration file and those defaults.

use vstd::prelude::*;
use vstd::string::StringExecFns;
use crate::error::SignalError;
use crate::session::{mode_role, optional_text, SessionRole};

verus! {

/// The settings a peer runs with.
pub struct NetworkConfig {
    /// Port of the local signaling endpoint.
    pub port: String,
    /// Requested role: `"offer"`, `"answer"`, or anything else to auto-detect.
    pub mode: String,
    /// Host and port of the remote peer's signaling endpoint.
    pub remote_address: String,
}

/// Mathematical value of a [`NetworkConfig`].
pub struct NetworkConfigView {
    pub port: Seq<char>,
    pub mode: Seq<char>,
    pub remote_address: Seq<char>,
}

impl View for NetworkConfig {
    type V = NetworkConfigView;

    open spec fn view(&self) -> NetworkConfigView {
        NetworkConfigView {
            port: self.port@,
            mode: self.mode@,
            remote_address: self.remote_address@,
        }
    }
}

/// One source of settings, in which any setting may be absent.
pub struct ConfigLayer {
    pub port: Option<String>,
    pub mode: Option<String>,
    pub remote_address: Option<String>,
}

/// Mathematical value of a [`ConfigLayer`].
pub struct ConfigLayerView {
    pub port: Option<Seq<char>>,
    pub mode: Option<Seq<char>>,
    pub remote_address: Option<Seq<char>>,
}

impl View for ConfigLayer {
    type V = ConfigLayerView;

    open spec fn view(&self) -> ConfigLayerView {
        ConfigLayerView {
            port: optional_text(self.port),
            mode: optional_text(self.mode),
            remote_address: optional_text(self.remote_address),
        }
    }
}

/// The built-in settings.
pub open spec fn builtin_config() -> NetworkConfigView {
    NetworkConfigView { port: "8080"@, mode: "answer"@, remote_address: "127.0.0.1:8081"@ }
}

/// The value of one setting: the command line wins over the file, and the
/// file wins over the built-in value.
pub open spec fn pick(cli: Option<Seq<char>>, file: Option<Seq<char>>, builtin: Seq<char>) -> Seq<
    char,
> {
    match cli {
        Some(v) => v,
        None => match file {
            Some(v) => v,
            None => builtin,
        },
    }
}

/// The settings that result from a file layer and a command-line layer.
pub open spec fn layered_config(file: ConfigLayerView, cli: ConfigLayerView) -> NetworkConfigView {
    NetworkConfigView {
        port: pick(cli.port, file.port, builtin_config().port),
        mode: pick(cli.mode, file.mode, builtin_config().mode),
        remote_address: pick(
            cli.remote_address,
            file.remote_address,
            builtin_config().remote_address,
        ),
    }
}

/// The address the local signaling endpoint binds to: loopback, at `port`.
pub open spec fn local_address_text(port: Seq<char>) -> Seq<char> {
    "127.0.0.1:"@ + port
}

/// What reading the configuration file gave.
pub enum ConfigSource {
    /// No file was named.
    NotNamed,
    /// A file was named and could not be read.
    Unreadable,
    /// The file was read and is not a valid configuration.
    Malformed,
    /// The settings found in the file.
    Parsed(ConfigLayer),
}

/// The settings of the file behind a source, where it has any. Where no
/// file was named there is no setting from a file; a named file that is
/// missing or malformed is an error.
pub open spec fn file_layer(source: ConfigSource) -> Option<ConfigLayerView> {
    match source {
        ConfigSource::NotNamed => Some(
            ConfigLayerView { port: None, mode: None, remote_address: None },
        ),
        ConfigSource::Unreadable => None,
        ConfigSource::Malformed => None,
        ConfigSource::Parsed(layer) => Some(layer@),
    }
}

/// The role that the layers ask for: the one named by the mode that the
/// command line, or else the file, gives explicitly. Where neither gives a
/// mode, or the mode names no role, the role is left to the probe.
pub open spec fn requested_role(file: ConfigLayerView, cli: ConfigLayerView) -> Option<SessionRole> {
    match cli.mode {
        Some(mode) => mode_role(mode),
        None => match file.mode {
            Some(mode) => mode_role(mode),
            None => None,
        },
    }
}

/// Built-in port of the local signaling endpoint.
pub fn default_port() -> (r: String)
    ensures
        r@ == builtin_config().port,
{
    String::from_str("8080")
}

/// Built-in role request.
pub fn default_mode() -> (r: String)
    ensures
        r@ == builtin_config().mode,
{
    String::from_str("answer")
}

/// Built-in address of the remote peer.
pub fn default_remote_address() -> (r: String)
    ensures
        r@ == builtin_config().remote_address,
{
    String::from_str("127.0.0.1:8081")
}

fn pick_setting(cli: Option<String>, file: Option<String>, builtin: String) -> (r: String)
    ensures
        r@ == pick(optional_text(cli), optional_text(file), builtin@),
{
    match cli {
        Some(v) => v,
        None => match file {
            Some(v) => v,
            None => builtin,
        },
    }
}

impl Default for NetworkConfig {
    /// The built-in settings.
    fn default() -> (r: Self)
        ensures
            r@ == builtin_config(),
    {
        NetworkConfig {
            port: default_port(),
            mode: default_mode(),
            remote_address: default_remote_address(),
        }
    }
}

impl ConfigLayer {
    /// A layer that gives no setting.
    pub fn empty() -> (layer: ConfigLayer)
        ensures
            layer@ == (ConfigLayerView { port: None, mode: None, remote_address: None }),
    {
        ConfigLayer { port: None, mode: None, remote_address: None }
    }

    /// The role that this file layer and the command line ask for.
    pub fn requested_role(&self, cli: &ConfigLayer) -> (role: Option<SessionRole>)
        ensures
            role == requested_role(self@, cli@),
    {
        match &cli.mode {
            Some(mode) => SessionRole::from_mode(mode.as_str()),
            None => match &self.mode {
                Some(mode) => SessionRole::from_mode(mode.as_str()),
                None => None,
            },
        }
    }
}

/// Mathematical value of the outcome of loading the configuration file.
pub open spec fn layer_outcome(r: Result<ConfigLayer, SignalError>) -> Option<ConfigLayerView> {
    match r {
        Ok(layer) => Some(layer@),
        Err(_) => None,
    }
}

/// Settles what the configuration file contributes. Where no file was
/// named it contributes nothing, so that the built-in settings and the
/// command line decide. A named file that cannot be read, or that is
/// malformed, fails with `Config`.
pub fn load_config(source: ConfigSource) -> (r: Result<ConfigLayer, SignalError>)
    ensures
        layer_outcome(r) == file_layer(source),
        r is Err ==> r == Err::<ConfigLayer, SignalError>(SignalError::Config),
{
    match source {
        ConfigSource::NotNamed => Ok(ConfigLayer::empty()),
        ConfigSource::Unreadable => Err(SignalError::Config),
        ConfigSource::Malformed => Err(SignalError::Config),
        ConfigSource::Parsed(layer) => Ok(layer),
    }
}

impl NetworkConfig {
    /// Combines the layers: a setting given on the command line wins, then
    /// one given in the file, then the built-in value.
    pub fn layered(file: ConfigLayer, cli: ConfigLayer) -> (r: NetworkConfig)
        ensures
            r@ == layered_config(file@, cli@),
    {
        NetworkConfig {
            port: pick_setting(cli.port, file.port, default_port()),
            mode: pick_setting(cli.mode, file.mode, default_mode()),
            remote_address: pick_setting(
                cli.remote_address,
                file.remote_address,
                default_remote_address(),
            ),
        }
    }

    /// The address the local signaling endpoint binds to.
    pub fn local_address(&self) -> (r: String)
        ensures
            r@ == local_address_text(self.port@),
    {
        String::from_str("127.0.0.1:").concat(self.port.as_str())
    }
}

} // verus!
