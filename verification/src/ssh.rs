use crate::text::{decimal, decimal_text, owned};
use vstd::prelude::*;

verus! {

/// Asks the user which fingerprint of an unknown host to trust.
pub struct UnknownHostFingerprintAsk {
    pub fingerprints: Vec<String>,
}

/// The user's answer to such a question.
pub struct UnknownHostFingerprintReply {
    pub fingerprint: String,
}

/// Keeps the SSH sessions of the application.
pub struct SshSessionManager;

/// The client side of an SSH session.
pub struct Client {}

/// How to authenticate against an SSH server.
pub enum AuthMethod {
    Password { password: String },
    PublicKey { private_key: String, passphrase: String },
}

/// An SSH server to connect to.
pub struct SshConfig {
    pub host: String,
    pub port: u16,
    pub username: String,
    pub auth_method: AuthMethod,
}

/// The server whose key a connection is checking.
pub struct SshHandler {
    pub host: String,
    pub port: u16,
}

/// What the backend tells the window.
pub enum ServerEvent {
    UnknownHostFingerprint { fingerprints: Vec<String> },
}

/// What the window tells the backend.
pub enum ClientEvent {
    UnknownHostFingerprintReply { fingerprint: String },
}

/// The fingerprint that the user chose.
pub struct UnknownHostFingerprintResponse {
    pub fingerprint: String,
}

impl ServerEvent {
    /// The name under which an event is sent to the window.
    pub fn event_name(&self) -> (name: String)
        ensures
            name@ == "ssh:unknown-host-fingerprint"@,
    {
        match self {
            ServerEvent::UnknownHostFingerprint { .. } => owned("ssh:unknown-host-fingerprint"),
        }
    }
}

/// The address of a server: its host and port with a colon between.
pub fn server_address(config: &SshConfig) -> (address: String)
    ensures
        address@ == config.host@ + ":"@ + decimal(config.port as nat),
{
    let mut address = owned(config.host.as_str());
    address.append(":");
    address.append(decimal_text(config.port as u64).as_str());
    address
}

} // verus!
