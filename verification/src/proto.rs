//! The protocol shared by the unprivileged client and the privileged service:
//! the upstream resolver selection, commands, events and status snapshots.

use vstd::prelude::*;

verus! {

/// Default loopback port the proxy binds. 53 in production (requires privilege);
/// overridable for unprivileged dev/tests.
pub const DEFAULT_PROXY_PORT: u16 = 53;

/// Fixed IPC endpoint name. On Windows this becomes a named pipe
/// (`\\.\pipe\voidns-service`); on Unix a filesystem socket path.
pub const IPC_PIPE_NAME: &'static str = "voidns-service";

/// The Unix socket path of the service's control endpoint.
pub const IPC_SOCK_PATH: &'static str = "/run/voidns/control.sock";

/// Upstream DoH resolver selection.
#[derive(Debug, Clone, PartialEq, Eq)]
pub enum UpstreamSel {
    /// The voidns hosted DoH endpoint, reached through a fixed bootstrap IP so
    /// the proxy never has to resolve its own upstream.
    Voidns,
    Cloudflare,
    Google,
    Quad9,
    /// Arbitrary DoH endpoint. `ip` is the bootstrap address, `hostname` the
    /// TLS SNI / certificate name, `path` the query path and `port` the TCP port.
    Custom { ip: String, hostname: String, path: String, port: u16 },
}

impl Default for UpstreamSel {
    fn default() -> (r: Self)
        ensures
            r is Cloudflare,
    {
        UpstreamSel::Cloudflare
    }
}

/// The label the UI shows for an upstream: the provider's name, or the
/// hostname of a custom endpoint.
pub open spec fn upstream_label(u: UpstreamSel) -> Seq<char> {
    match u {
        UpstreamSel::Voidns => "voidns"@,
        UpstreamSel::Cloudflare => "Cloudflare"@,
        UpstreamSel::Google => "Google"@,
        UpstreamSel::Quad9 => "Quad9"@,
        UpstreamSel::Custom { hostname, .. } => hostname@,
    }
}

impl UpstreamSel {
    /// Short human label for the UI.
    pub fn label(&self) -> (r: &str)
        ensures
            r@ == upstream_label(*self),
    {
        match self {
            UpstreamSel::Voidns => "voidns",
            UpstreamSel::Cloudflare => "Cloudflare",
            UpstreamSel::Google => "Google",
            UpstreamSel::Quad9 => "Quad9",
            UpstreamSel::Custom { hostname, .. } => hostname.as_str(),
        }
    }
}

/// Commands sent client -> service.
#[derive(Debug, Clone)]
pub enum Command {
    /// Spin up the proxy and redirect system DNS to it.
    Connect { upstream: UpstreamSel },
    /// Restore DNS and stop the proxy.
    Disconnect,
    /// Request a one-shot status reply.
    GetStatus,
    /// Ask the service to stream `Event::Status` on every state change.
    Subscribe,
    /// Liveness check.
    Ping,
}

/// Events / replies sent service -> client.
#[derive(Debug, Clone)]
pub enum Event {
    Status(Status),
    Pong,
    /// A command was rejected or failed.
    Error { message: String },
}

/// Connection lifecycle state mirrored by the client's button.
#[derive(Debug, Clone, Copy, PartialEq, Eq, Structural)]
pub enum ConnState {
    Disconnected,
    Connecting,
    Connected,
    Error,
}

/// Full status snapshot.
#[derive(Debug, Clone)]
pub struct Status {
    pub state: ConnState,
    /// Active upstream label when connected.
    pub upstream: Option<String>,
    /// Loopback address:port the proxy is listening on.
    pub listen: Option<String>,
    /// Last error message, if `state == Error`.
    pub error: Option<String>,
}

/// The mathematical model of a [`Status`].
pub struct StatusView {
    pub state: ConnState,
    pub upstream: Option<Seq<char>>,
    pub listen: Option<Seq<char>>,
    pub error: Option<Seq<char>>,
}

/// The view of an optional string.
pub open spec fn opt_view(o: Option<String>) -> Option<Seq<char>> {
    match o {
        Some(s) => Some(s@),
        None => None,
    }
}

impl View for Status {
    type V = StatusView;

    open spec fn view(&self) -> StatusView {
        StatusView {
            state: self.state,
            upstream: opt_view(self.upstream),
            listen: opt_view(self.listen),
            error: opt_view(self.error),
        }
    }
}

/// The status of a service with nothing connected.
pub open spec fn disconnected_view() -> StatusView {
    StatusView { state: ConnState::Disconnected, upstream: None, listen: None, error: None }
}

/// Copies an optional string.
pub fn copy_opt_string(o: &Option<String>) -> (r: Option<String>)
    ensures
        opt_view(r) == opt_view(*o),
{
    match o {
        Some(s) => Some(s.clone()),
        None => None,
    }
}

impl Status {
    pub fn disconnected() -> (r: Self)
        ensures
            r@ == disconnected_view(),
    {
        Status { state: ConnState::Disconnected, upstream: None, listen: None, error: None }
    }

    /// A copy of this status with the same view.
    pub fn copy(&self) -> (r: Self)
        ensures
            r@ == self@,
    {
        Status {
            state: self.state,
            upstream: copy_opt_string(&self.upstream),
            listen: copy_opt_string(&self.listen),
            error: copy_opt_string(&self.error),
        }
    }
}

/// The mathematical model of an [`UpstreamSel`].
pub enum UpstreamView {
    Voidns,
    Cloudflare,
    Google,
    Quad9,
    Custom { ip: Seq<char>, hostname: Seq<char>, path: Seq<char>, port: u16 },
}

impl View for UpstreamSel {
    type V = UpstreamView;

    open spec fn view(&self) -> UpstreamView {
        match self {
            UpstreamSel::Voidns => UpstreamView::Voidns,
            UpstreamSel::Cloudflare => UpstreamView::Cloudflare,
            UpstreamSel::Google => UpstreamView::Google,
            UpstreamSel::Quad9 => UpstreamView::Quad9,
            UpstreamSel::Custom { ip, hostname, path, port } => UpstreamView::Custom {
                ip: ip@,
                hostname: hostname@,
                path: path@,
                port: *port,
            },
        }
    }
}

/// The mathematical model of a [`Command`].
pub enum CommandView {
    Connect { upstream: UpstreamView },
    Disconnect,
    GetStatus,
    Subscribe,
    Ping,
}

impl View for Command {
    type V = CommandView;

    open spec fn view(&self) -> CommandView {
        match self {
            Command::Connect { upstream } => CommandView::Connect { upstream: upstream@ },
            Command::Disconnect => CommandView::Disconnect,
            Command::GetStatus => CommandView::GetStatus,
            Command::Subscribe => CommandView::Subscribe,
            Command::Ping => CommandView::Ping,
        }
    }
}

} // verus!
