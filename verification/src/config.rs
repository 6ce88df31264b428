//! Listener configuration.

use vstd::prelude::*;

verus! {

/// The receive buffer size used when the configuration names none.
pub const DEFAULT_MTU: usize = 1400;

/// Retransmission settings handed to each new connection.
#[derive(Clone, Copy, Debug, PartialEq, Eq)]
pub struct KcpNoDelayConfig {
    /// Whether to enable the no-delay mode.
    pub nodelay: bool,
    /// Internal update interval in milliseconds.
    pub interval: i32,
    /// Number of duplicate acknowledgements that trigger a resend; 0 disables.
    pub resend: i32,
    /// Whether to switch congestion control off.
    pub nc: bool,
}

/// What a listener is configured with. Only `mtu` concerns the listener
/// itself; the other fields are defaults for the connections it admits.
#[derive(Clone, Copy, Debug, PartialEq, Eq)]
pub struct KcpConfig {
    /// Largest datagram that is read, in bytes.
    pub mtu: Option<usize>,
    /// Retransmission settings of new connections.
    pub nodelay: Option<KcpNoDelayConfig>,
    /// Send and receive window sizes of new connections, in packets.
    pub wnd_size: Option<(u16, u16)>,
}

impl KcpConfig {
    /// The default configuration: no field is set, so datagrams are read
    /// into [`DEFAULT_MTU`] bytes and new connections keep the protocol's own
    /// settings.
    pub open spec fn spec_default() -> KcpConfig {
        KcpConfig { mtu: None, nodelay: None, wnd_size: None }
    }

    /// The size of the buffer that datagrams are read into: the configured
    /// `mtu`, or [`DEFAULT_MTU`] without one.
    pub open spec fn spec_recv_buffer_len(&self) -> usize {
        match self.mtu {
            Some(mtu) => mtu,
            None => DEFAULT_MTU,
        }
    }

    /// The size of the buffer that datagrams are read into.
    #[verifier::when_used_as_spec(spec_recv_buffer_len)]
    pub fn recv_buffer_len(&self) -> (n: usize)
        ensures
            n == self.spec_recv_buffer_len(),
    {
        self.mtu.unwrap_or(DEFAULT_MTU)
    }
}

impl Default for KcpConfig {
    fn default() -> (c: KcpConfig)
        ensures
            c == KcpConfig::spec_default(),
    {
        KcpConfig { mtu: None, nodelay: None, wnd_size: None }
    }
}

} // verus!
