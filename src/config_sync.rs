//! Connection details used to push configuration changes to the server.
use vstd::prelude::*;
use vstd::string::StringExecFns;

verus! {

/// The server the client is connected to, if any, and the identifier it
/// was given there.
#[derive(Debug, Clone)]
pub struct ConfigSyncState {
    server_url: Option<String>,
    client_uuid: Option<String>,
}

/// Where a configuration change is to be sent, and as which client.
#[derive(Debug, Clone)]
pub struct SyncTarget {
    pub url: String,
    pub client_uuid: String,
}

impl ConfigSyncState {
    pub closed spec fn spec_server_url(&self) -> Option<Seq<char>> {
        match self.server_url {
            Some(s) => Some(s@),
            None => None,
        }
    }

    pub closed spec fn spec_client_uuid(&self) -> Option<Seq<char>> {
        match self.client_uuid {
            Some(s) => Some(s@),
            None => None,
        }
    }

    /// Connected: both the server address and the client identifier are known.
    pub open spec fn spec_connected(&self) -> bool {
        self.spec_server_url() is Some && self.spec_client_uuid() is Some
    }

    /// A state with no server.
    pub fn new() -> (r: Self)
        ensures
            r.spec_server_url() is None,
            r.spec_client_uuid() is None,
    {
        ConfigSyncState { server_url: None, client_uuid: None }
    }

    /// Records the server and the identifier it gave this client.
    pub fn set_connected(&mut self, server_url: String, client_uuid: String)
        ensures
            final(self).spec_server_url() == Some(server_url@),
            final(self).spec_client_uuid() == Some(client_uuid@),
    {
        self.server_url = Some(server_url);
        self.client_uuid = Some(client_uuid);
    }

    /// Forgets the server.
    pub fn set_disconnected(&mut self)
        ensures
            final(self).spec_server_url() is None,
            final(self).spec_client_uuid() is None,
    {
        self.server_url = None;
        self.client_uuid = None;
    }

    /// Whether a server is known to send changes to.
    pub fn is_connected(&self) -> (r: bool)
        ensures
            r == self.spec_connected(),
    {
        self.server_url.is_some() && self.client_uuid.is_some()
    }

    /// Where a change to the resource at `path` goes: the server address
    /// followed by `path`; `None` when not connected, and the change is
    /// then skipped.
    pub fn sync_target(&self, path: &str) -> (r: Option<SyncTarget>)
        ensures
            r is Some <==> self.spec_connected(),
            r matches Some(t) ==> t.url@ == self.spec_server_url()->0 + path@
                && Some(t.client_uuid@) == self.spec_client_uuid(),
    {
        match (&self.server_url, &self.client_uuid) {
            (Some(url), Some(uuid)) => Some(
                SyncTarget { url: url.clone().concat(path), client_uuid: uuid.clone() },
            ),
            _ => None,
        }
    }
}

impl Default for ConfigSyncState {
    fn default() -> (r: Self)
        ensures
            r.spec_server_url() is None,
            r.spec_client_uuid() is None,
    {
        Self::new()
    }
}

/// The path on the server for the prompt sections.
pub const PROMPTS_PATH: &'static str = "/api/config/prompts";

/// The path on the server for the speech-to-text timeout.
pub const STT_TIMEOUT_PATH: &'static str = "/api/config/stt-timeout";

} // verus!
