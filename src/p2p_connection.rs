//! The state machine of a direct connection to one remote device.
//!
//! The transport (ICE negotiation, the data channel) runs outside; it reports
//! its state changes and received frames here, and carries out the frames that
//! this machine queues for sending.
use vstd::prelude::*;
use crate::clock::now_unix_seconds;
use crate::device_info::DeviceInfo;

verus! {

/// Configuration of a peer connection.
#[derive(Debug, Clone)]
pub struct P2PConfig {
    /// Local port; 0 lets the system choose.
    pub port: u16,
    /// STUN/TURN servers used for NAT traversal.
    pub ice_servers: Vec<String>,
    /// Seconds to wait for the connection to come up.
    pub connection_timeout: u64,
    /// Largest buffer of received data, in bytes.
    pub max_buffer_size: usize,
    pub encrypted: bool,
}

impl Default for P2PConfig {
    fn default() -> (r: Self)
        ensures
            r.port == 0,
            r.ice_servers@.len() == 2,
            r.connection_timeout == 30,
            r.max_buffer_size == 1024 * 1024,
            r.encrypted,
    {
        let mut ice_servers: Vec<String> = Vec::new();
        ice_servers.push("stun:stun.l.google.com:19302".to_owned());
        ice_servers.push("stun:stun1.l.google.com:19302".to_owned());
        P2PConfig {
            port: 0,
            ice_servers,
            connection_timeout: 30,
            max_buffer_size: 1024 * 1024,
            encrypted: true,
        }
    }
}

/// State of a peer connection.
#[derive(Debug, PartialEq, Eq)]
pub enum P2PConnectionState {
    Disconnected,
    Connecting,
    Connected,
    Reconnecting,
    Error(String),
}

/// The mathematical value of a [`P2PConnectionState`].
pub enum ConnStateView {
    Disconnected,
    Connecting,
    Connected,
    Reconnecting,
    Error(Seq<char>),
}

impl View for P2PConnectionState {
    type V = ConnStateView;

    open spec fn view(&self) -> ConnStateView {
        match self {
            P2PConnectionState::Disconnected => ConnStateView::Disconnected,
            P2PConnectionState::Connecting => ConnStateView::Connecting,
            P2PConnectionState::Connected => ConnStateView::Connected,
            P2PConnectionState::Reconnecting => ConnStateView::Reconnecting,
            P2PConnectionState::Error(m) => ConnStateView::Error(m@),
        }
    }
}

impl Clone for P2PConnectionState {
    fn clone(&self) -> (r: Self)
        ensures
            r@ == self@,
    {
        match self {
            P2PConnectionState::Disconnected => P2PConnectionState::Disconnected,
            P2PConnectionState::Connecting => P2PConnectionState::Connecting,
            P2PConnectionState::Connected => P2PConnectionState::Connected,
            P2PConnectionState::Reconnecting => P2PConnectionState::Reconnecting,
            P2PConnectionState::Error(m) => P2PConnectionState::Error(m.clone()),
        }
    }
}

/// Localised label of a connection state.
pub open spec fn conn_state_label(s: ConnStateView) -> Seq<char> {
    match s {
        ConnStateView::Disconnected => "Desconectado"@,
        ConnStateView::Connecting => "Conectando"@,
        ConnStateView::Connected => "Conectado"@,
        ConnStateView::Reconnecting => "Reconectando"@,
        ConnStateView::Error(_) => "Error"@,
    }
}

/// Icon of a connection state.
pub open spec fn conn_state_icon(s: ConnStateView) -> Seq<char> {
    match s {
        ConnStateView::Disconnected => "🔴"@,
        ConnStateView::Connecting => "🟡"@,
        ConnStateView::Connected => "🟢"@,
        ConnStateView::Reconnecting => "🔄"@,
        ConnStateView::Error(_) => "❌"@,
    }
}

impl P2PConnectionState {
    /// Icon for the state.
    pub fn emoji(&self) -> (r: &'static str)
        ensures
            r@ == conn_state_icon(self@),
    {
        match self {
            P2PConnectionState::Disconnected => "🔴",
            P2PConnectionState::Connecting => "🟡",
            P2PConnectionState::Connected => "🟢",
            P2PConnectionState::Reconnecting => "🔄",
            P2PConnectionState::Error(_) => "❌",
        }
    }

    /// Localised label for the state.
    pub fn display_name(&self) -> (r: &'static str)
        ensures
            r@ == conn_state_label(self@),
    {
        match self {
            P2PConnectionState::Disconnected => "Desconectado",
            P2PConnectionState::Connecting => "Conectando",
            P2PConnectionState::Connected => "Conectado",
            P2PConnectionState::Reconnecting => "Reconectando",
            P2PConnectionState::Error(_) => "Error",
        }
    }
}

/// State changes reported by the transport.
#[derive(Debug, Clone, Copy, PartialEq, Eq, Structural)]
pub enum TransportState {
    New,
    Connecting,
    Connected,
    Disconnected,
    Failed,
    Closed,
}

/// The connection state that a transport state leads to.
pub open spec fn state_after_transport(t: TransportState) -> ConnStateView {
    match t {
        TransportState::Connected => ConnStateView::Connected,
        TransportState::Disconnected => ConnStateView::Disconnected,
        TransportState::Failed => ConnStateView::Error("Conexión falló"@),
        _ => ConnStateView::Connecting,
    }
}

/// Failures of connection operations.
#[derive(Debug, Clone, Copy, PartialEq, Eq, Structural)]
pub enum ConnectionError {
    /// `connect` was called on a connection that is not disconnected.
    AlreadyConnected,
    /// Data was sent, or an answer given, without a live connection.
    NotConnected,
    /// The connection did not come up in time.
    ConnectionTimeout,
    /// The remote answer could not complete the negotiation.
    NegotiationFailed,
}

impl ConnectionError {
    /// A user-facing description of the error.
    pub fn message(&self) -> (r: String)
        ensures
            r@ == connection_error_text(*self),
    {
        let s = match self {
            ConnectionError::AlreadyConnected => "already connected",
            ConnectionError::NotConnected => "not connected",
            ConnectionError::ConnectionTimeout => "connection timed out",
            ConnectionError::NegotiationFailed => "negotiation failed",
        };
        s.to_owned()
    }
}

/// Text of a connection error.
pub open spec fn connection_error_text(e: ConnectionError) -> Seq<char> {
    match e {
        ConnectionError::AlreadyConnected => "already connected"@,
        ConnectionError::NotConnected => "not connected"@,
        ConnectionError::ConnectionTimeout => "connection timed out"@,
        ConnectionError::NegotiationFailed => "negotiation failed"@,
    }
}

/// A frame queued for the transport.
#[derive(Debug)]
pub enum OutgoingFrame {
    Binary(Vec<u8>),
    Text(String),
}

/// The mathematical value of an [`OutgoingFrame`].
pub enum FrameView {
    Binary(Seq<u8>),
    Text(Seq<char>),
}

impl View for OutgoingFrame {
    type V = FrameView;

    open spec fn view(&self) -> FrameView {
        match self {
            OutgoingFrame::Binary(b) => FrameView::Binary(b@),
            OutgoingFrame::Text(t) => FrameView::Text(t@),
        }
    }
}

/// The values of a list of frames.
pub open spec fn frames_view(v: Seq<OutgoingFrame>) -> Seq<FrameView> {
    v.map_values(|f: OutgoingFrame| f@)
}

/// A summary of a connection.
#[derive(Debug, Clone)]
pub struct P2PConnectionStats {
    pub state: P2PConnectionState,
    pub is_connected: bool,
    pub remote_device: Option<DeviceInfo>,
    pub pending_data_count: usize,
}

impl Default for P2PConnectionStats {
    fn default() -> (r: Self)
        ensures
            r.state@ is Disconnected,
            !r.is_connected,
            r.remote_device is None,
            r.pending_data_count == 0,
    {
        P2PConnectionStats {
            state: P2PConnectionState::Disconnected,
            is_connected: false,
            remote_device: None,
            pending_data_count: 0,
        }
    }
}

/// A connection to one remote device.
pub struct P2PConnection {
    config: P2PConfig,
    state: P2PConnectionState,
    remote_device: Option<DeviceInfo>,
    /// Frames received and not yet collected.
    pending_data: Vec<Vec<u8>>,
    /// Frames waiting for the transport.
    outgoing: Vec<OutgoingFrame>,
    /// When the current connection attempt started (Unix seconds).
    connect_started: Option<i64>,
}

impl P2PConnection {
    /// The current state.
    pub closed spec fn state_view(&self) -> ConnStateView {
        self.state@
    }

    /// The remote device of the current connection, if any.
    pub closed spec fn remote(&self) -> Option<DeviceInfo> {
        self.remote_device
    }

    /// Received frames not yet collected.
    pub closed spec fn inbox(&self) -> Seq<Seq<u8>> {
        self.pending_data@.map_values(|b: Vec<u8>| b@)
    }

    /// Frames waiting for the transport.
    pub closed spec fn outbox(&self) -> Seq<FrameView> {
        frames_view(self.outgoing@)
    }

    /// The configured connection timeout, in seconds.
    pub closed spec fn timeout(&self) -> u64 {
        self.config.connection_timeout
    }

    /// When the current attempt started.
    pub closed spec fn started_at(&self) -> Option<i64> {
        self.connect_started
    }

    /// Whether an attempt that is still connecting has run for the timeout at `now`.
    pub open spec fn attempt_expired(&self, now: i64) -> bool {
        &&& self.state_view() is Connecting
        &&& match self.started_at() {
            Some(s) => now - s >= self.timeout(),
            None => false,
        }
    }

    /// A disconnected connection with nothing queued.
    pub fn new(config: P2PConfig) -> (r: Self)
        ensures
            r.state_view() is Disconnected,
            r.remote() is None,
            r.inbox().len() == 0,
            r.outbox().len() == 0,
            r.timeout() == config.connection_timeout,
            r.started_at() is None,
    {
        let r = P2PConnection {
            config,
            state: P2PConnectionState::Disconnected,
            remote_device: None,
            pending_data: Vec::new(),
            outgoing: Vec::new(),
            connect_started: None,
        };
        assert(r.outbox() =~= Seq::<FrameView>::empty());
        r
    }

    /// A disconnected connection with the default configuration.
    pub fn new_default() -> (r: Self)
        ensures
            r.state_view() is Disconnected,
            r.remote() is None,
            r.inbox().len() == 0,
            r.outbox().len() == 0,
            r.timeout() == 30,
            r.started_at() is None,
    {
        P2PConnection::new(P2PConfig::default())
    }

    /// Starts connecting to `device`. Refused with `AlreadyConnected` (and no
    /// change) unless the connection is disconnected; otherwise the state is
    /// `Connecting`, the device is recorded and the attempt's start time set.
    pub fn connect(&mut self, device: DeviceInfo) -> (r: Result<(), ConnectionError>)
        ensures
            !(old(self).state_view() is Disconnected) ==> r == Err::<(), ConnectionError>(ConnectionError::AlreadyConnected)
                && *final(self) == *old(self),
            old(self).state_view() is Disconnected ==> r is Ok && final(self).state_view() is Connecting
                && final(self).remote() == Some(device) && final(self).started_at() is Some
                && final(self).inbox() == old(self).inbox() && final(self).outbox() == old(self).outbox()
                && final(self).timeout() == old(self).timeout(),
    {
        match self.state {
            P2PConnectionState::Disconnected => {},
            _ => return Err(ConnectionError::AlreadyConnected),
        }
        self.state = P2PConnectionState::Connecting;
        self.remote_device = Some(device);
        self.connect_started = Some(now_unix_seconds());
        Ok(())
    }

    /// Applies a state change reported by the transport.
    pub fn on_transport_state(&mut self, t: TransportState)
        ensures
            final(self).state_view() == state_after_transport(t),
            final(self).remote() == old(self).remote(),
            final(self).inbox() == old(self).inbox(),
            final(self).outbox() == old(self).outbox(),
            final(self).timeout() == old(self).timeout(),
            final(self).started_at() == old(self).started_at(),
    {
        self.state = match t {
            TransportState::Connected => P2PConnectionState::Connected,
            TransportState::Disconnected => P2PConnectionState::Disconnected,
            TransportState::Failed => P2PConnectionState::Error("Conexión falló".to_owned()),
            _ => P2PConnectionState::Connecting,
        };
    }

    /// Ends an attempt that has been connecting for the configured timeout or
    /// longer at time `now`: the state becomes an error. Returns whether it did.
    pub fn check_timeout(&mut self, now: i64) -> (r: bool)
        ensures
            r == old(self).attempt_expired(now),
            r ==> final(self).state_view() == ConnStateView::Error(connection_error_text(ConnectionError::ConnectionTimeout)),
            !r ==> *final(self) == *old(self),
            final(self).remote() == old(self).remote(),
            final(self).inbox() == old(self).inbox(),
            final(self).outbox() == old(self).outbox(),
    {
        let connecting = match self.state {
            P2PConnectionState::Connecting => true,
            _ => false,
        };
        if !connecting {
            return false;
        }
        match self.connect_started {
            Some(s) => {
                if (now as i128) - (s as i128) >= self.config.connection_timeout as i128 {
                    self.state = P2PConnectionState::Error(ConnectionError::ConnectionTimeout.message());
                    true
                } else {
                    false
                }
            },
            None => false,
        }
    }

    /// Whether the remote answer can complete the negotiation now: only while
    /// connecting, and only with a non-empty session description.
    pub fn process_answer(&self, answer_sdp: &str) -> (r: Result<(), ConnectionError>)
        ensures
            !(self.state_view() is Connecting) ==> r == Err::<(), ConnectionError>(ConnectionError::NotConnected),
            self.state_view() is Connecting && answer_sdp@.len() == 0 ==> r == Err::<(), ConnectionError>(ConnectionError::NegotiationFailed),
            self.state_view() is Connecting && answer_sdp@.len() > 0 ==> r is Ok,
    {
        match self.state {
            P2PConnectionState::Connecting => {
                if answer_sdp.is_empty() {
                    Err(ConnectionError::NegotiationFailed)
                } else {
                    Ok(())
                }
            },
            _ => Err(ConnectionError::NotConnected),
        }
    }

    /// Queues a binary frame; only while connected.
    pub fn send_data(&mut self, data: Vec<u8>) -> (r: Result<(), ConnectionError>)
        ensures
            old(self).state_view() is Connected ==> r is Ok && final(self).outbox() == old(self).outbox().push(FrameView::Binary(data@)),
            !(old(self).state_view() is Connected) ==> r == Err::<(), ConnectionError>(ConnectionError::NotConnected)
                && final(self).outbox() == old(self).outbox(),
            final(self).state_view() == old(self).state_view(),
            final(self).remote() == old(self).remote(),
            final(self).inbox() == old(self).inbox(),
            final(self).timeout() == old(self).timeout(),
            final(self).started_at() == old(self).started_at(),
    {
        match self.state {
            P2PConnectionState::Connected => {
                let ghost before = self.outgoing@;
                let ghost d = data@;
                self.outgoing.push(OutgoingFrame::Binary(data));
                assert(frames_view(self.outgoing@) =~= frames_view(before).push(FrameView::Binary(d)));
                Ok(())
            },
            _ => Err(ConnectionError::NotConnected),
        }
    }

    /// Queues a text frame; only while connected.
    pub fn send_text(&mut self, text: String) -> (r: Result<(), ConnectionError>)
        ensures
            old(self).state_view() is Connected ==> r is Ok && final(self).outbox() == old(self).outbox().push(FrameView::Text(text@)),
            !(old(self).state_view() is Connected) ==> r == Err::<(), ConnectionError>(ConnectionError::NotConnected)
                && final(self).outbox() == old(self).outbox(),
            final(self).state_view() == old(self).state_view(),
            final(self).remote() == old(self).remote(),
            final(self).inbox() == old(self).inbox(),
            final(self).timeout() == old(self).timeout(),
            final(self).started_at() == old(self).started_at(),
    {
        match self.state {
            P2PConnectionState::Connected => {
                let ghost before = self.outgoing@;
                let ghost t = text@;
                self.outgoing.push(OutgoingFrame::Text(text));
                assert(frames_view(self.outgoing@) =~= frames_view(before).push(FrameView::Text(t)));
                Ok(())
            },
            _ => Err(ConnectionError::NotConnected),
        }
    }

    /// Hands the queued frames to the transport, in order, and empties the queue.
    pub fn take_outgoing(&mut self) -> (r: Vec<OutgoingFrame>)
        ensures
            frames_view(r@) == old(self).outbox(),
            final(self).outbox().len() == 0,
            final(self).state_view() == old(self).state_view(),
            final(self).remote() == old(self).remote(),
            final(self).inbox() == old(self).inbox(),
            final(self).timeout() == old(self).timeout(),
            final(self).started_at() == old(self).started_at(),
    {
        let r = self.outgoing.split_off(0);
        assert(self.outbox() =~= Seq::<FrameView>::empty());
        r
    }

    /// Stores a frame received from the transport.
    pub fn receive_frame(&mut self, data: Vec<u8>)
        ensures
            final(self).inbox() == old(self).inbox().push(data@),
            final(self).state_view() == old(self).state_view(),
            final(self).remote() == old(self).remote(),
            final(self).outbox() == old(self).outbox(),
            final(self).timeout() == old(self).timeout(),
            final(self).started_at() == old(self).started_at(),
    {
        let ghost before = self.pending_data@;
        let ghost d = data@;
        self.pending_data.push(data);
        assert(self.inbox() =~= before.map_values(|b: Vec<u8>| b@).push(d));
    }

    /// Collects the received frames, in order, and empties the buffer.
    pub fn get_pending_data(&mut self) -> (r: Vec<Vec<u8>>)
        ensures
            r@.map_values(|b: Vec<u8>| b@) == old(self).inbox(),
            final(self).inbox().len() == 0,
            final(self).state_view() == old(self).state_view(),
            final(self).remote() == old(self).remote(),
            final(self).outbox() == old(self).outbox(),
            final(self).timeout() == old(self).timeout(),
            final(self).started_at() == old(self).started_at(),
    {
        let r = self.pending_data.split_off(0);
        assert(self.inbox() =~= Seq::<Seq<u8>>::empty());
        r
    }

    /// Closes the connection from any state: disconnected, no remote device,
    /// nothing left to send, no attempt running.
    pub fn disconnect(&mut self)
        ensures
            final(self).state_view() is Disconnected,
            final(self).remote() is None,
            final(self).outbox().len() == 0,
            final(self).started_at() is None,
            final(self).inbox() == old(self).inbox(),
            final(self).timeout() == old(self).timeout(),
    {
        self.state = P2PConnectionState::Disconnected;
        self.remote_device = None;
        self.outgoing = Vec::new();
        self.connect_started = None;
        assert(self.outbox() =~= Seq::<FrameView>::empty());
    }

    /// The current state.
    pub fn get_state(&self) -> (r: P2PConnectionState)
        ensures
            r@ == self.state_view(),
    {
        self.state.clone()
    }

    /// Whether the connection is up.
    pub fn is_connected(&self) -> (r: bool)
        ensures
            r == (self.state_view() is Connected),
    {
        match self.state {
            P2PConnectionState::Connected => true,
            _ => false,
        }
    }

    /// Whether the connection is with the device of id `device_id`.
    pub fn is_linked_to(&self, device_id: &str) -> (r: bool)
        ensures
            r == (self.remote() matches Some(d) && d.id@ == device_id@),
    {
        match &self.remote_device {
            Some(d) => crate::device_info::text_eq(d.id.as_str(), device_id),
            None => false,
        }
    }

    /// A copy of the remote device record, if any.
    pub fn get_remote_device(&self) -> (r: Option<DeviceInfo>)
        ensures
            match (r, self.remote()) {
                (Some(a), Some(b)) => a.same_as(&b),
                (None, None) => true,
                _ => false,
            },
    {
        match &self.remote_device {
            Some(d) => Some(d.clone()),
            None => None,
        }
    }

    /// A summary of the connection.
    pub fn get_stats(&self) -> (r: P2PConnectionStats)
        ensures
            r.state@ == self.state_view(),
            r.is_connected == (self.state_view() is Connected),
            r.pending_data_count == self.inbox().len(),
            match (r.remote_device, self.remote()) {
                (Some(a), Some(b)) => a.same_as(&b),
                (None, None) => true,
                _ => false,
            },
    {
        P2PConnectionStats {
            state: self.get_state(),
            is_connected: self.is_connected(),
            remote_device: self.get_remote_device(),
            pending_data_count: self.pending_data.len(),
        }
    }
}

} // verus!
