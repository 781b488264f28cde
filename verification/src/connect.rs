//! Options of an MQTT connection of the AWS MQTT library, and of its socket.
use vstd::prelude::*;
use vstd::string::StringExecFns;
use crate::mqtt::config::{duration_as_millis, duration_as_secs, duration_millis, duration_secs};

verus! {

/// `aws_socket_type`: a stream socket.
pub const AWS_SOCKET_STREAM: u32 = 0;

/// `aws_socket_domain`: IPv4.
pub const AWS_SOCKET_IPV4: u32 = 0;

/// Options of a socket.
#[derive(Clone, Copy, Debug, PartialEq, Eq, Structural)]
pub struct SocketOptions {
    pub socket_type: u32,
    pub domain: u32,
    pub connect_timeout_ms: u32,
    pub keep_alive_interval_sec: u16,
    pub keep_alive_timeout_sec: u16,
    pub keep_alive_max_failed_probes: u16,
    pub keepalive: bool,
}

/// Builds [`SocketOptions`].
#[derive(Clone, Copy, Debug, PartialEq, Eq, Structural)]
pub struct SocketOptionsBuilder {
    pub inner: SocketOptions,
}

impl SocketOptionsBuilder {
    /// An IPv4 stream socket that waits as long as it can to connect and
    /// sends no keep-alives.
    pub fn new() -> (r: Self)
        ensures
            r.inner == (SocketOptions {
                socket_type: AWS_SOCKET_STREAM,
                domain: AWS_SOCKET_IPV4,
                connect_timeout_ms: u32::MAX,
                keep_alive_interval_sec: 0,
                keep_alive_timeout_sec: 0,
                keep_alive_max_failed_probes: 0,
                keepalive: false,
            }),
    {
        SocketOptionsBuilder {
            inner: SocketOptions {
                socket_type: AWS_SOCKET_STREAM,
                domain: AWS_SOCKET_IPV4,
                connect_timeout_ms: u32::MAX,
                keep_alive_interval_sec: 0,
                keep_alive_timeout_sec: 0,
                keep_alive_max_failed_probes: 0,
                keepalive: false,
            },
        }
    }

    /// The options built.
    pub fn build(&mut self) -> (r: SocketOptions)
        ensures
            r == old(self).inner,
            *final(self) == *old(self),
    {
        self.inner
    }
}

/// `v` saturated to `max`.
pub open spec fn saturate(v: int, max: int) -> int {
    if v <= max {
        v
    } else {
        max
    }
}

/// Options of an MQTT connection.
#[derive(Debug)]
pub struct ConnectionOptionsBuilder {
    pub host_name: String,
    pub port: u32,
    pub client_id: String,
    pub keep_alive_time_secs: u16,
    pub ping_timeout_ms: u32,
    pub protocol_operation_timeout_ms: u32,
    pub clean_session: bool,
    pub socket_options: Option<SocketOptions>,
}

impl ConnectionOptionsBuilder {
    /// Nothing set: the library's defaults apply.
    pub fn new() -> (r: Self)
        ensures
            r.host_name@.len() == 0,
            r.port == 0,
            r.client_id@.len() == 0,
            r.keep_alive_time_secs == 0,
            r.ping_timeout_ms == 0,
            r.protocol_operation_timeout_ms == 0,
            !r.clean_session,
            r.socket_options is None,
    {
        ConnectionOptionsBuilder {
            host_name: String::new(),
            port: 0,
            client_id: String::new(),
            keep_alive_time_secs: 0,
            ping_timeout_ms: 0,
            protocol_operation_timeout_ms: 0,
            clean_session: false,
            socket_options: None,
        }
    }

    /// The server name to connect to.
    pub fn host_name(&mut self, value: &str) -> (r: &mut Self)
        ensures
            r.host_name@ == value@,
            r.port == old(self).port,
            r.client_id == old(self).client_id,
            r.keep_alive_time_secs == old(self).keep_alive_time_secs,
            r.ping_timeout_ms == old(self).ping_timeout_ms,
            r.protocol_operation_timeout_ms == old(self).protocol_operation_timeout_ms,
            r.clean_session == old(self).clean_session,
            r.socket_options == old(self).socket_options,
            *final(self) == *final(r),
    {
        self.host_name = String::from_str(value);
        self
    }

    /// The port on the server to connect to.
    pub fn port(&mut self, value: u32) -> (r: &mut Self)
        ensures
            *r == (ConnectionOptionsBuilder { port: value, ..*old(self) }),
            *final(self) == *final(r),
    {
        self.port = value;
        self
    }

    /// The client id to place in the CONNECT packet.
    pub fn client_id(&mut self, value: &str) -> (r: &mut Self)
        ensures
            r.client_id@ == value@,
            r.host_name == old(self).host_name,
            r.port == old(self).port,
            r.keep_alive_time_secs == old(self).keep_alive_time_secs,
            r.ping_timeout_ms == old(self).ping_timeout_ms,
            r.protocol_operation_timeout_ms == old(self).protocol_operation_timeout_ms,
            r.clean_session == old(self).clean_session,
            r.socket_options == old(self).socket_options,
            *final(self) == *final(r),
    {
        self.client_id = String::from_str(value);
        self
    }

    /// The keep alive time in seconds, saturated to `u16::MAX`.
    pub fn keep_alive_time_secs(&mut self, secs: u64) -> (r: &mut Self)
        ensures
            *r == (ConnectionOptionsBuilder {
                keep_alive_time_secs: saturate(secs as int, u16::MAX as int) as u16,
                ..*old(self)
            }),
            *final(self) == *final(r),
    {
        self.keep_alive_time_secs = if secs <= u16::MAX as u64 {
            secs as u16
        } else {
            u16::MAX
        };
        self
    }

    /// The keep alive value to place in the CONNECT packet: whole seconds,
    /// saturated to `u16::MAX` seconds.
    pub fn keep_alive_time(&mut self, value: core::time::Duration) -> (r: &mut Self)
        ensures
            *r == (ConnectionOptionsBuilder {
                keep_alive_time_secs: saturate(duration_secs(value) as int, u16::MAX as int) as u16,
                ..*old(self)
            }),
            *final(self) == *final(r),
    {
        let secs = duration_as_secs(&value);
        self.keep_alive_time_secs(secs)
    }

    /// The ping timeout in milliseconds, saturated to `u32::MAX`.
    pub fn ping_timeout_millis(&mut self, millis: u128) -> (r: &mut Self)
        ensures
            *r == (ConnectionOptionsBuilder {
                ping_timeout_ms: saturate(millis as int, u32::MAX as int) as u32,
                ..*old(self)
            }),
            *final(self) == *final(r),
    {
        self.ping_timeout_ms = if millis <= u32::MAX as u128 {
            millis as u32
        } else {
            u32::MAX
        };
        self
    }

    /// The time after which a connection without a ping response is
    /// re-established: whole milliseconds, saturated to `u32::MAX`.
    pub fn ping_timeout(&mut self, value: core::time::Duration) -> (r: &mut Self)
        ensures
            *r == (ConnectionOptionsBuilder {
                ping_timeout_ms: saturate(duration_millis(value) as int, u32::MAX as int) as u32,
                ..*old(self)
            }),
            *final(self) == *final(r),
    {
        let millis = duration_as_millis(&value);
        self.ping_timeout_millis(millis)
    }

    /// The protocol operation timeout in milliseconds, saturated to
    /// `u32::MAX`.
    pub fn protocol_operation_timeout_millis(&mut self, millis: u128) -> (r: &mut Self)
        ensures
            *r == (ConnectionOptionsBuilder {
                protocol_operation_timeout_ms: saturate(millis as int, u32::MAX as int) as u32,
                ..*old(self)
            }),
            *final(self) == *final(r),
    {
        self.protocol_operation_timeout_ms = if millis <= u32::MAX as u128 {
            millis as u32
        } else {
            u32::MAX
        };
        self
    }

    /// The timeout of operations that wait for a response: whole
    /// milliseconds, saturated to `u32::MAX`; zero disables it.
    pub fn protocol_operation_timeout(&mut self, value: core::time::Duration) -> (r: &mut Self)
        ensures
            *r == (ConnectionOptionsBuilder {
                protocol_operation_timeout_ms: saturate(duration_millis(value) as int, u32::MAX as int)
                    as u32,
                ..*old(self)
            }),
            *final(self) == *final(r),
    {
        let millis = duration_as_millis(&value);
        self.protocol_operation_timeout_millis(millis)
    }

    /// Whether to discard all server session data and start fresh.
    pub fn clean_session(&mut self, value: bool) -> (r: &mut Self)
        ensures
            *r == (ConnectionOptionsBuilder { clean_session: value, ..*old(self) }),
            *final(self) == *final(r),
    {
        self.clean_session = value;
        self
    }

    /// The options of the socket (required to connect).
    pub fn socket_options(&mut self, options: &SocketOptions) -> (r: &mut Self)
        ensures
            *r == (ConnectionOptionsBuilder { socket_options: Some(*options), ..*old(self) }),
            *final(self) == *final(r),
    {
        self.socket_options = Some(*options);
        self
    }
}

} // verus!
