//! The Connect/Disconnect state machine. It decides; the service performs the
//! outside work (starting the proxy, redirecting DNS, broadcasting) in the
//! order the steps below return, and reports each outcome back.

use vstd::prelude::*;

use crate::net::{decimal, ipv4_text, localhost_v4, socket_addr_text, socket_text};
use crate::proto::{ConnState, Status, StatusView, UpstreamSel, upstream_label};

verus! {

/// The controller's state: the published status, the proxy port and whether
/// a proxy is running.
pub struct Controller {
    status: Status,
    port: u16,
    proxy_running: bool,
}

/// The mathematical model of a [`Controller`].
pub struct ControllerView {
    pub status: StatusView,
    pub port: u16,
    pub proxy_running: bool,
}

impl View for Controller {
    type V = ControllerView;

    closed spec fn view(&self) -> ControllerView {
        ControllerView { status: self.status@, port: self.port, proxy_running: self.proxy_running }
    }
}

/// What each state of a status carries: a label while connecting or
/// connected, the listen address only when connected, a message only on error.
pub open spec fn status_wf(s: StatusView) -> bool {
    match s.state {
        ConnState::Disconnected => s.upstream is None && s.listen is None && s.error is None,
        ConnState::Connecting => s.upstream is Some && s.listen is None && s.error is None,
        ConnState::Connected => s.upstream is Some && s.listen is Some && s.error is None,
        ConnState::Error => s.upstream is None && s.listen is None && s.error is Some,
    }
}

/// A well-formed controller: a well-formed status, and a proxy running
/// exactly when connected.
pub open spec fn controller_wf(c: ControllerView) -> bool {
    &&& status_wf(c.status)
    &&& c.proxy_running <==> c.status.state == ConnState::Connected
}

/// The address the proxy listens on, as text: `127.0.0.1:<port>`.
pub open spec fn listen_text(port: u16) -> Seq<char> {
    ipv4_text(seq![127u8, 0u8, 0u8, 1u8]) + seq![':'] + decimal(port as nat)
}

pub open spec fn connecting_view(label: Seq<char>) -> StatusView {
    StatusView { state: ConnState::Connecting, upstream: Some(label), listen: None, error: None }
}

pub open spec fn connected_view(label: Seq<char>, listen: Seq<char>) -> StatusView {
    StatusView {
        state: ConnState::Connected,
        upstream: Some(label),
        listen: Some(listen),
        error: None,
    }
}

pub open spec fn error_view(message: Seq<char>) -> StatusView {
    StatusView { state: ConnState::Error, upstream: None, listen: None, error: Some(message) }
}

/// A connect request while connected or connecting changes nothing.
pub open spec fn connect_blocked(s: StatusView) -> bool {
    s.state == ConnState::Connected || s.state == ConnState::Connecting
}

/// The controller after a connect request for an upstream with this label.
pub open spec fn begin_connect_spec(c: ControllerView, label: Seq<char>) -> ControllerView {
    if connect_blocked(c.status) {
        c
    } else {
        ControllerView { status: connecting_view(label), port: c.port, proxy_running: c.proxy_running }
    }
}

/// The controller after a connect attempt failed with this message.
pub open spec fn connect_failed_spec(c: ControllerView, message: Seq<char>) -> ControllerView {
    ControllerView { status: error_view(message), port: c.port, proxy_running: false }
}

/// The controller after a connect attempt for this label succeeded.
pub open spec fn connect_succeeded_spec(c: ControllerView, label: Seq<char>) -> ControllerView {
    ControllerView {
        status: connected_view(label, listen_text(c.port)),
        port: c.port,
        proxy_running: true,
    }
}

/// The controller after a disconnect.
pub open spec fn disconnect_spec(c: ControllerView) -> ControllerView {
    ControllerView {
        status: crate::proto::disconnected_view(),
        port: c.port,
        proxy_running: false,
    }
}

/// A connect attempt in progress: the label of its upstream.
pub struct ConnectAttempt {
    pub label: String,
}

/// What a connect request asks of the service.
pub enum ConnectStep {
    /// Already connected or connecting: reply with this status, do nothing.
    Unchanged(Status),
    /// Publish `published`, start the proxy on `127.0.0.1:<listen_port>`,
    /// redirect the system DNS to it, and report the outcome.
    Proceed { attempt: ConnectAttempt, published: Status, listen_port: u16 },
}

/// What a disconnect asks of the service: restore the system DNS, stop the
/// proxy when `stop_proxy`, flush the DNS cache, then publish `published`.
pub struct DisconnectStep {
    pub stop_proxy: bool,
    pub published: Status,
}

impl Controller {
    #[verifier::type_invariant]
    spec fn inv(self) -> bool {
        controller_wf(self@)
    }

    /// A disconnected controller for a proxy on `port`.
    pub fn new(port: u16) -> (r: Self)
        ensures
            r@ == (ControllerView {
                status: crate::proto::disconnected_view(),
                port,
                proxy_running: false,
            }),
    {
        Controller { status: Status::disconnected(), port, proxy_running: false }
    }

    /// The current status.
    pub fn status(&self) -> (r: Status)
        ensures
            r@ == self@.status,
            controller_wf(self@),
    {
        proof {
            use_type_invariant(self);
        }
        self.status.copy()
    }

    /// The proxy port.
    pub fn port(&self) -> (r: u16)
        ensures
            r == self@.port,
    {
        self.port
    }

    /// Starts a connect: unless already connected or connecting, the status
    /// becomes `Connecting` with the upstream's label.
    pub fn begin_connect(&mut self, upstream: &UpstreamSel) -> (r: ConnectStep)
        ensures
            final(self)@ == begin_connect_spec(old(self)@, upstream_label(*upstream)),
            controller_wf(old(self)@),
            controller_wf(final(self)@),
            connect_blocked(old(self)@.status) ==> (r matches ConnectStep::Unchanged(s) && s@
                == old(self)@.status),
            !connect_blocked(old(self)@.status) ==> (r matches ConnectStep::Proceed {
                attempt,
                published,
                listen_port,
            } && attempt.label@ == upstream_label(*upstream) && published@ == final(self)@.status
                && listen_port == old(self)@.port),
    {
        proof {
            use_type_invariant(&*self);
        }
        if self.status.state == ConnState::Connected || self.status.state == ConnState::Connecting {
            return ConnectStep::Unchanged(self.status.copy());
        }
        let label = upstream.label().to_owned();
        let published = Status {
            state: ConnState::Connecting,
            upstream: Some(label.clone()),
            listen: None,
            error: None,
        };
        *self = Controller { status: published.copy(), port: self.port, proxy_running: self.proxy_running };
        ConnectStep::Proceed { attempt: ConnectAttempt { label }, published, listen_port: self.port }
    }

    /// A connect attempt failed (the proxy did not start, or the redirect
    /// failed and the proxy was stopped): the status becomes `Error`. Only a
    /// connect in progress can fail.
    pub fn connect_failed(&mut self, message: String) -> (r: Status)
        requires
            old(self)@.status.state == ConnState::Connecting,
        ensures
            final(self)@ == connect_failed_spec(old(self)@, message@),
            controller_wf(old(self)@),
            controller_wf(final(self)@),
            r@ == final(self)@.status,
    {
        proof {
            use_type_invariant(&*self);
        }
        let st = Status { state: ConnState::Error, upstream: None, listen: None, error: Some(message) };
        let r = st.copy();
        *self = Controller { status: st, port: self.port, proxy_running: false };
        r
    }

    /// A connect attempt succeeded: the proxy runs and the status becomes
    /// `Connected` on `127.0.0.1:<port>`. Only a connect in progress can
    /// succeed, so `Connected` is reached only through a connect.
    pub fn connect_succeeded(&mut self, attempt: ConnectAttempt) -> (r: Status)
        requires
            old(self)@.status.state == ConnState::Connecting,
        ensures
            final(self)@ == connect_succeeded_spec(old(self)@, attempt.label@),
            controller_wf(old(self)@),
            controller_wf(final(self)@),
            r@ == final(self)@.status,
    {
        proof {
            use_type_invariant(&*self);
        }
        let listen = socket_addr_text(&localhost_v4(), self.port);
        proof {
            assert(listen@ =~= listen_text(self.port));
        }
        let st = Status {
            state: ConnState::Connected,
            upstream: Some(attempt.label),
            listen: Some(listen),
            error: None,
        };
        let r = st.copy();
        *self = Controller { status: st, port: self.port, proxy_running: true };
        r
    }

    /// Disconnects: whatever the state, the status becomes `Disconnected` and
    /// no proxy runs.
    pub fn disconnect(&mut self) -> (r: DisconnectStep)
        ensures
            final(self)@ == disconnect_spec(old(self)@),
            controller_wf(old(self)@),
            controller_wf(final(self)@),
            r.stop_proxy == old(self)@.proxy_running,
            r.published@ == crate::proto::disconnected_view(),
    {
        proof {
            use_type_invariant(&*self);
        }
        let stop_proxy = self.proxy_running;
        *self = Controller { status: Status::disconnected(), port: self.port, proxy_running: false };
        DisconnectStep { stop_proxy, published: Status::disconnected() }
    }
}

/// Every step keeps the controller well formed.
pub proof fn law_steps_keep_controller_wf(c: ControllerView, label: Seq<char>, message: Seq<char>)
    requires
        controller_wf(c),
    ensures
        controller_wf(begin_connect_spec(c, label)),
        controller_wf(connect_failed_spec(c, message)),
        controller_wf(connect_succeeded_spec(c, label)),
        controller_wf(disconnect_spec(c)),
{
}

/// A connect request while connected or connecting leaves the controller as
/// it was.
pub proof fn law_connect_when_active_is_noop(c: ControllerView, label: Seq<char>)
    requires
        connect_blocked(c.status),
    ensures
        begin_connect_spec(c, label) == c,
{
}

/// From a disconnected or failed state, a connect whose proxy and redirect
/// both succeed ends connected to that upstream on `127.0.0.1:<port>`, with
/// the proxy running; one that fails ends in `Error` with the failure's
/// message and no proxy.
pub proof fn law_connect_outcomes(c: ControllerView, label: Seq<char>, message: Seq<char>)
    requires
        controller_wf(c),
        !connect_blocked(c.status),
    ensures
        begin_connect_spec(c, label).status == connecting_view(label),
        connect_succeeded_spec(begin_connect_spec(c, label), label) == (ControllerView {
            status: connected_view(label, listen_text(c.port)),
            port: c.port,
            proxy_running: true,
        }),
        connect_failed_spec(begin_connect_spec(c, label), message) == (ControllerView {
            status: error_view(message),
            port: c.port,
            proxy_running: false,
        }),
{
}

/// A failed connect can be retried: from `Error` a connect request proceeds.
pub proof fn law_error_allows_retry(c: ControllerView, label: Seq<char>, message: Seq<char>)
    ensures
        !connect_blocked(connect_failed_spec(c, message).status),
        begin_connect_spec(connect_failed_spec(c, message), label).status == connecting_view(label),
{
}

/// Disconnect always ends disconnected with no proxy, and a second
/// disconnect changes nothing.
pub proof fn law_disconnect_idempotent(c: ControllerView)
    ensures
        disconnect_spec(c).status == crate::proto::disconnected_view(),
        !disconnect_spec(c).proxy_running,
        disconnect_spec(disconnect_spec(c)) == disconnect_spec(c),
{
}

/// `Connected` is reached only through a connect in progress: no other
/// step leads into it, and a connect request keeps it only where it already
/// held.
pub proof fn law_connected_only_through_connect(c: ControllerView, label: Seq<char>, message: Seq<char>)
    ensures
        begin_connect_spec(c, label).status.state == ConnState::Connected ==> c.status.state
            == ConnState::Connected,
        connect_failed_spec(c, message).status.state != ConnState::Connected,
        disconnect_spec(c).status.state != ConnState::Connected,
{
}

} // verus!
