use vstd::prelude::*;

verus! {

/// Why starting, stopping or opening a listener was refused.
#[derive(Clone, Copy, Debug, PartialEq, Eq, Structural)]
pub enum ServerError {
    /// The server was asked to start with no virtual host added.
    NoHosts,
    /// The server was asked to stop while no listener was opened.
    NotRunning,
    /// No TLS configuration could be built from the virtual hosts.
    MissingTlsConfig,
}

impl ServerError {
    /// The text that accompanies the error where it carries one.
    pub fn message(&self) -> (text: &'static str)
        ensures
            *self == ServerError::NotRunning ==> text@ == "Vetis is not running"@,
            *self == ServerError::MissingTlsConfig ==> text@ == "Missing TLS config"@,
            *self == ServerError::NoHosts ==> text@ == "No hosts"@,
    {
        match self {
            ServerError::NoHosts => "No hosts",
            ServerError::NotRunning => "Vetis is not running",
            ServerError::MissingTlsConfig => "Missing TLS config",
        }
    }
}

} // verus!
