//! Decisions of the secure tunnel client: where a tunnel connects, and what
//! happens to the events the tunnel library reports.
use vstd::prelude::*;
use vstd::string::StringExecFns;
use crate::mqtt::error::Error;

verus! {

/// The credentials of a tunnel the service opened for this device.
#[derive(Debug)]
pub struct Credentials {
    pub access_token: String,
    pub region: String,
    pub client_mode: String,
}

/// The data endpoint of the tunneling service in a region.
pub open spec fn endpoint_of(region: Seq<char>) -> Seq<char> {
    "data.tunneling.iot."@ + region + ".amazonaws.com"@
}

/// The data endpoint of the tunneling service in `region`:
/// `data.tunneling.iot.<region>.amazonaws.com`.
pub fn tunnel_endpoint(region: &str) -> (r: String)
    ensures
        r@ == endpoint_of(region@),
{
    let mut s = String::from_str("data.tunneling.iot.");
    s.append(region);
    s.append(".amazonaws.com");
    s
}

/// The websocket address of a destination-mode tunnel in `region`.
pub fn tunnel_uri(region: &str) -> (r: String)
    ensures
        r@ == "wss://"@ + endpoint_of(region@) + "/tunnel?local-proxy-mode=destination"@,
{
    let mut s = String::from_str("wss://");
    let endpoint = tunnel_endpoint(region);
    s.append(endpoint.as_str());
    s.append("/tunnel?local-proxy-mode=destination");
    s
}

/// Data received through a tunnel stream.
#[derive(Debug)]
pub struct TunnelMessage {
    pub connection_id: u32,
    pub payload: Vec<u8>,
}

/// A received payload is passed on unless it is empty.
pub fn received_message(connection_id: u32, payload: Vec<u8>) -> (r: Option<TunnelMessage>)
    ensures
        r is Some <==> payload@.len() > 0,
        r matches Some(m) ==> m.connection_id == connection_id && m.payload == payload,
{
    if payload.len() == 0 {
        None
    } else {
        Some(TunnelMessage { connection_id, payload })
    }
}

/// A stream start is taken only when it reports no error: its connection.
pub fn started_stream(error_code: i32, connection_id: u32) -> (r: Option<u32>)
    ensures
        r == (if error_code == 0 {
            Some(connection_id)
        } else {
            None::<u32>
        }),
{
    if error_code == 0 {
        Some(connection_id)
    } else {
        None
    }
}

/// The result of creating the tunnel client, from the error code of its
/// subscription (`None` when no report came).
pub fn tunnel_client_result(reported: Option<i32>) -> (r: Result<(), Error>)
    ensures
        r is Ok <==> reported == Some(0i32),
        r is Err ==> r matches Err(Error::TunnelClientCreate),
{
    match reported {
        Some(0) => Ok(()),
        _ => Err(Error::TunnelClientCreate),
    }
}

/// The result of opening a tunnel, from the code its start returned and
/// the connection its first stream reported (`None` when none came).
pub fn tunnel_open_result(start_code: i32, stream: Option<u32>) -> (r: Result<u32, Error>)
    ensures
        start_code == 0 && stream is Some ==> r == Ok::<u32, Error>(stream.unwrap()),
        !(start_code == 0 && stream is Some) ==> r matches Err(Error::TunnelCreate),
{
    if start_code != 0 {
        return Err(Error::TunnelCreate);
    }
    match stream {
        Some(id) => Ok(id),
        None => Err(Error::TunnelCreate),
    }
}

/// The result of handing bytes read from the local service to the tunnel.
pub fn send_result(code: i32) -> (r: Result<(), Error>)
    ensures
        r is Ok <==> code == 0,
        r matches Err(e) ==> (e matches Error::IoError(m) && m@ == "couldn't send a message"@),
{
    if code != 0 {
        Err(Error::IoError(String::from_str("couldn't send a message")))
    } else {
        Ok(())
    }
}

/// The sessions still running, in order: `finished[i]` tells whether the
/// `i`-th one has finished.
pub fn running_sessions<H>(sessions: Vec<H>, finished: &Vec<bool>) -> (r: Vec<H>)
    requires
        finished@.len() == sessions@.len(),
    ensures
        r@ == kept_running(sessions@, finished@),
{
    let ghost all = sessions@;
    let mut rest = sessions;
    let mut out: Vec<H> = Vec::new();
    let n = rest.len();
    let mut i: usize = 0;
    while i < n
        invariant
            n == all.len() == finished@.len(),
            i <= n,
            rest@ == all.skip(i as int),
            out@ == kept_running(all.take(i as int), finished@),
        decreases n - i,
    {
        let h = rest.remove(0);
        assert(all.take(i + 1).drop_last() == all.take(i as int));
        if !finished[i] {
            out.push(h);
        }
        assert(rest@ =~= all.skip(i + 1));
        i = i + 1;
    }
    assert(all.take(n as int) == all);
    out
}

/// The sessions of `s` that have not finished, in order.
pub open spec fn kept_running<H>(s: Seq<H>, finished: Seq<bool>) -> Seq<H>
    decreases s.len(),
{
    if s.len() == 0 {
        seq![]
    } else if finished[s.len() - 1] {
        kept_running(s.drop_last(), finished)
    } else {
        kept_running(s.drop_last(), finished).push(s.last())
    }
}

} // verus!
