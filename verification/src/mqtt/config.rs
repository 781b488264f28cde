//! Configuration of the MQTT client.
use vstd::prelude::*;
use vstd::string::StringSliceAdditionalSpecFns;
use crate::mqtt::error::Error;

verus! {

/// The whole seconds of a duration, as `Duration::as_secs` gives them (the
/// fractional part left out).
pub uninterp spec fn duration_secs(d: core::time::Duration) -> u64;

/// The whole milliseconds of a duration, as `Duration::as_millis` gives them.
pub uninterp spec fn duration_millis(d: core::time::Duration) -> u128;

/// `Duration::as_secs`: the contract claims only that the result is the
/// named whole seconds of the duration, a function of the duration alone.
#[verifier::external_body]
pub(crate) fn duration_as_secs(d: &core::time::Duration) -> (r: u64)
    ensures
        r == duration_secs(*d),
{
    d.as_secs()
}

/// `Duration::as_millis`: the contract claims only that the result is the
/// named whole milliseconds of the duration, a function of the duration alone.
#[verifier::external_body]
pub(crate) fn duration_as_millis(d: &core::time::Duration) -> (r: u128)
    ensures
        r == duration_millis(*d),
{
    d.as_millis()
}

/// Index of the first NUL byte of `b`, if any.
pub open spec fn first_nul(b: Seq<u8>) -> Option<int> {
    if exists|i: int| 0 <= i < b.len() && b[i] == 0 {
        Some(choose|i: int| 0 <= i < b.len() && b[i] == 0 && forall|j: int| 0 <= j < i ==> b[j] != 0)
    } else {
        None
    }
}

/// A string the C side can take (`CString::new` accepts it): no NUL byte.
/// Otherwise the error gives the position of the first NUL byte.
pub fn c_string(s: &str) -> (r: Result<String, Error>)
    ensures
        r is Ok <==> first_nul(s.spec_bytes()) is None,
        r matches Ok(t) ==> t@ == s@,
        r matches Err(e) ==> (e matches Error::StringConversion(p) && first_nul(s.spec_bytes())
            == Some(p as int)),
{
    let bytes = s.as_bytes();
    let mut i: usize = 0;
    while i < bytes.len()
        invariant
            bytes@ == s.spec_bytes(),
            i <= bytes@.len(),
            forall|j: int| 0 <= j < i ==> bytes@[j] != 0,
        decreases bytes@.len() - i,
    {
        if bytes[i] == 0 {
            let ghost w = choose|k: int|
                0 <= k < bytes@.len() && bytes@[k] == 0 && forall|j: int| 0 <= j < k ==> bytes@[j] != 0;
            assert(0 <= i < bytes@.len() && bytes@[i as int] == 0 && forall|j: int|
                0 <= j < i ==> bytes@[j] != 0);
            assert(w == i) by {
                if w < i {
                    assert(bytes@[w] != 0);
                } else if w > i {
                    assert(bytes@[i as int] != 0);
                }
            }
            return Err(Error::StringConversion(i));
        }
        i = i + 1;
    }
    Ok(s.to_owned())
}

/// The configuration settings for the MQTT client.
#[derive(Debug)]
pub struct Config {
    pub endpoint: String,
    pub port: u16,
    pub client_id: String,
    pub clean_session: bool,
    pub keep_alive_s: u16,
    pub ping_timeout_ms: u32,
    pub username: String,
    pub password: String,
    pub cert: Vec<u8>,
    pub private_key: Vec<u8>,
}

/// Builds a [`Config`] from optional settings.
#[derive(Debug)]
pub struct ConfigBuilder {
    pub endpoint: Option<String>,
    pub client_id: Option<String>,
    pub clean_session: bool,
    pub keep_alive_s: Option<u16>,
    pub ping_timeout_ms: Option<u32>,
    pub cert: Option<Vec<u8>>,
    pub private_key: Option<Vec<u8>>,
    pub port: Option<u16>,
    pub username: Option<String>,
    pub password: Option<String>,
}

/// `t` holds the string `s` when it has no NUL byte; otherwise the setter
/// failed with the position of the first one.
pub open spec fn string_set(s: &str, r: Result<ConfigBuilder, Error>, field: spec_fn(ConfigBuilder) -> Option<String>) -> bool {
    &&& (r is Ok <==> first_nul(s.spec_bytes()) is None)
    &&& (r matches Err(e) ==> e matches Error::StringConversion(p) && first_nul(s.spec_bytes()) == Some(p as int))
    &&& (r matches Ok(b) ==> field(b) matches Some(v) && v@ == s@)
}

/// `c` holds the settings of `b`, with the defaults for those not set.
pub open spec fn built_from(b: ConfigBuilder, c: Config) -> bool {
    &&& Some(c.endpoint) == b.endpoint
    &&& Some(c.client_id) == b.client_id
    &&& c.clean_session == b.clean_session
    &&& c.keep_alive_s == (match b.keep_alive_s {
        Some(k) => k,
        None => 1000,
    })
    &&& c.ping_timeout_ms == (match b.ping_timeout_ms {
        Some(p) => p,
        None => 500,
    })
    &&& c.cert@ == (match b.cert {
        Some(v) => v@,
        None => Seq::<u8>::empty(),
    })
    &&& c.private_key@ == (match b.private_key {
        Some(v) => v@,
        None => Seq::<u8>::empty(),
    })
    &&& c.port == (match b.port {
        Some(p) => p,
        None => 0,
    })
    &&& c.username@ == (match b.username {
        Some(v) => v@,
        None => Seq::<char>::empty(),
    })
    &&& c.password@ == (match b.password {
        Some(v) => v@,
        None => Seq::<char>::empty(),
    })
}

impl ConfigBuilder {
    /// A builder with nothing set.
    pub fn new() -> (r: Self)
        ensures
            r.endpoint is None && r.client_id is None && !r.clean_session && r.keep_alive_s is None
                && r.ping_timeout_ms is None && r.cert is None && r.private_key is None
                && r.port is None && r.username is None && r.password is None,
    {
        ConfigBuilder {
            endpoint: None,
            client_id: None,
            clean_session: false,
            keep_alive_s: None,
            ping_timeout_ms: None,
            cert: None,
            private_key: None,
            port: None,
            username: None,
            password: None,
        }
    }

    /// Sets the endpoint for the MQTT client.
    pub fn with_endpoint(self, endpoint: &str) -> (r: Result<Self, Error>)
        ensures
            string_set(endpoint, r, |b: ConfigBuilder| b.endpoint),
            r matches Ok(b) ==> b == (ConfigBuilder { endpoint: b.endpoint, ..self }),
    {
        let mut this = self;
        let v = c_string(endpoint)?;
        this.endpoint = Some(v);
        Ok(this)
    }

    /// Sets the client ID for the MQTT client.
    pub fn with_client_id(self, client_id: &str) -> (r: Result<Self, Error>)
        ensures
            string_set(client_id, r, |b: ConfigBuilder| b.client_id),
            r matches Ok(b) ==> b == (ConfigBuilder { client_id: b.client_id, ..self }),
    {
        let mut this = self;
        let v = c_string(client_id)?;
        this.client_id = Some(v);
        Ok(this)
    }

    /// Sets the `clean_session` flag.
    pub fn with_clean_session(self) -> (r: Self)
        ensures
            r == (ConfigBuilder { clean_session: true, ..self }),
    {
        let mut this = self;
        this.clean_session = true;
        this
    }

    /// Sets the keep-alive time in seconds; the seconds are taken modulo
    /// 2^16, as a cast to `u16` does.
    pub fn with_keep_alive_secs(self, secs: u64) -> (r: Self)
        ensures
            r == (ConfigBuilder { keep_alive_s: Some((secs % 65536) as u16), ..self }),
    {
        let mut this = self;
        this.keep_alive_s = Some((secs % 65536) as u16);
        this
    }

    /// Sets the keep-alive duration: its whole seconds, modulo 2^16.
    pub fn with_keep_alive(self, keep_alive: core::time::Duration) -> (r: Self)
        ensures
            r == (ConfigBuilder { keep_alive_s: Some((duration_secs(keep_alive) % 65536) as u16), ..self }),
    {
        let secs = duration_as_secs(&keep_alive);
        self.with_keep_alive_secs(secs)
    }

    /// Sets the ping timeout in milliseconds; taken modulo 2^32, as a cast
    /// to `u32` does.
    pub fn with_ping_timeout_millis(self, millis: u128) -> (r: Self)
        ensures
            r == (ConfigBuilder { ping_timeout_ms: Some((millis % 4294967296) as u32), ..self }),
    {
        let mut this = self;
        this.ping_timeout_ms = Some((millis % 4294967296) as u32);
        this
    }

    /// Sets the ping timeout: its whole milliseconds, modulo 2^32.
    pub fn with_ping_timeout(self, timeout: core::time::Duration) -> (r: Self)
        ensures
            r == (ConfigBuilder {
                ping_timeout_ms: Some((duration_millis(timeout) % 4294967296) as u32),
                ..self
            }),
    {
        let millis = duration_as_millis(&timeout);
        self.with_ping_timeout_millis(millis)
    }

    /// Sets the client's certificate.
    pub fn with_cert(self, cert: Vec<u8>) -> (r: Self)
        ensures
            r == (ConfigBuilder { cert: Some(cert), ..self }),
    {
        let mut this = self;
        this.cert = Some(cert);
        this
    }

    /// Sets the client's private key.
    pub fn with_private_key(self, private_key: Vec<u8>) -> (r: Self)
        ensures
            r == (ConfigBuilder { private_key: Some(private_key), ..self }),
    {
        let mut this = self;
        this.private_key = Some(private_key);
        this
    }

    /// Sets the port of the MQTT broker.
    pub fn with_port(self, port: u16) -> (r: Self)
        ensures
            r == (ConfigBuilder { port: Some(port), ..self }),
    {
        let mut this = self;
        this.port = Some(port);
        this
    }

    /// Sets the username for the MQTT broker.
    pub fn with_username(self, username: &str) -> (r: Result<Self, Error>)
        ensures
            string_set(username, r, |b: ConfigBuilder| b.username),
            r matches Ok(b) ==> b == (ConfigBuilder { username: b.username, ..self }),
    {
        let mut this = self;
        let v = c_string(username)?;
        this.username = Some(v);
        Ok(this)
    }

    /// Sets the password for the MQTT broker.
    pub fn with_password(self, password: &str) -> (r: Result<Self, Error>)
        ensures
            string_set(password, r, |b: ConfigBuilder| b.password),
            r matches Ok(b) ==> b == (ConfigBuilder { password: b.password, ..self }),
    {
        let mut this = self;
        let v = c_string(password)?;
        this.password = Some(v);
        Ok(this)
    }

    /// The configuration: endpoint and client id are required (the
    /// endpoint is checked first); the keep-alive defaults to 1000 s, the
    /// ping timeout to 500 ms, the port to 0, and the rest to empty.
    pub fn build(self) -> (r: Result<Config, Error>)
        ensures
            self.endpoint is None ==> r matches Err(Error::MissEndpoint),
            self.endpoint is Some && self.client_id is None ==> r matches Err(Error::MissClientId),
            self.endpoint is Some && self.client_id is Some ==> (r matches Ok(c) && built_from(self, c)),
    {
        let endpoint = match self.endpoint {
            Some(e) => e,
            None => return Err(Error::MissEndpoint),
        };
        let client_id = match self.client_id {
            Some(c) => c,
            None => return Err(Error::MissClientId),
        };
        Ok(
            Config {
                endpoint,
                client_id,
                clean_session: self.clean_session,
                keep_alive_s: match self.keep_alive_s {
                    Some(k) => k,
                    None => 1000,
                },
                ping_timeout_ms: match self.ping_timeout_ms {
                    Some(p) => p,
                    None => 500,
                },
                cert: match self.cert {
                    Some(v) => v,
                    None => Vec::new(),
                },
                private_key: match self.private_key {
                    Some(v) => v,
                    None => Vec::new(),
                },
                port: match self.port {
                    Some(p) => p,
                    None => 0,
                },
                username: match self.username {
                    Some(v) => v,
                    None => String::new(),
                },
                password: match self.password {
                    Some(v) => v,
                    None => String::new(),
                },
            },
        )
    }
}

} // verus!
