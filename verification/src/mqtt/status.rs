//! Connection status of the MQTT client and the results of its operations.
use vstd::prelude::*;
use crate::mqtt::codes::{AwsMqttConnectReturnCode, AwsMqttError, mqtt_error_of_code};
use crate::mqtt::error::Error;

verus! {

/// Connection status of the MQTT client.
#[derive(Clone, Copy, Debug, PartialEq, Eq, Structural)]
pub enum ClientStatus {
    Connected,
    Interrupted,
    Closed,
    Unknown,
}

impl ClientStatus {
    /// The status of a client that has seen no event yet.
    pub fn default_status() -> (r: ClientStatus)
        ensures
            r == ClientStatus::Unknown,
    {
        ClientStatus::Unknown
    }
}

/// What the AWS MQTT library reports about the connection.
#[derive(Clone, Copy, Debug, PartialEq, Eq, Structural)]
pub enum ConnectionEvent {
    /// A connection attempt finished.
    Completed { error_code: i32, return_code: AwsMqttConnectReturnCode, session_present: bool },
    /// The connection was closed.
    Closed,
    /// The connection was lost; the library tries to resume it.
    Interrupted { error_code: i32 },
    /// A lost connection came back.
    Resumed { return_code: AwsMqttConnectReturnCode, session_present: bool },
}

/// The status after `event`, from `status`.
pub open spec fn status_after(status: ClientStatus, event: ConnectionEvent) -> ClientStatus {
    match event {
        ConnectionEvent::Completed { error_code, return_code, .. } => if error_code != 0
            && return_code != AwsMqttConnectReturnCode::Accepted {
            ClientStatus::Closed
        } else {
            ClientStatus::Connected
        },
        ConnectionEvent::Closed => ClientStatus::Closed,
        ConnectionEvent::Interrupted { .. } => ClientStatus::Interrupted,
        ConnectionEvent::Resumed { return_code, .. } => if return_code
            == AwsMqttConnectReturnCode::Accepted {
            ClientStatus::Connected
        } else {
            status
        },
    }
}

/// The status after `event`, from `status`: a completed attempt closes the
/// client only when it failed with an error and a refused CONNACK, and
/// connects it otherwise; a close closes it; an interruption interrupts
/// it; a resumption connects it when the broker accepted, and leaves it as
/// it was otherwise.
pub fn next_status(status: ClientStatus, event: ConnectionEvent) -> (r: ClientStatus)
    ensures
        r == status_after(status, event),
{
    match event {
        ConnectionEvent::Completed { error_code, return_code, .. } => {
            let accepted = match return_code {
                AwsMqttConnectReturnCode::Accepted => true,
                _ => false,
            };
            if error_code != 0 && !accepted {
                ClientStatus::Closed
            } else {
                ClientStatus::Connected
            }
        },
        ConnectionEvent::Closed => ClientStatus::Closed,
        ConnectionEvent::Interrupted { .. } => ClientStatus::Interrupted,
        ConnectionEvent::Resumed { return_code, .. } => match return_code {
            AwsMqttConnectReturnCode::Accepted => ClientStatus::Connected,
            _ => status,
        },
    }
}

/// Whether the client may publish, subscribe and unsubscribe.
pub fn is_connected(status: ClientStatus) -> (r: bool)
    ensures
        r <==> status == ClientStatus::Connected,
{
    match status {
        ClientStatus::Connected => true,
        _ => false,
    }
}

/// Whatever the status before, a successful connection attempt or an
/// accepted resumption leaves the client connected, after which it can
/// publish; a close or an interruption leaves it unable to.
pub proof fn lemma_connection_events(status: ClientStatus, rc: AwsMqttConnectReturnCode, sp: bool, code: i32)
    ensures
        status_after(status, ConnectionEvent::Completed { error_code: 0, return_code: rc, session_present: sp })
            == ClientStatus::Connected,
        status_after(
            status,
            ConnectionEvent::Resumed { return_code: AwsMqttConnectReturnCode::Accepted, session_present: sp },
        ) == ClientStatus::Connected,
        status_after(status, ConnectionEvent::Closed) != ClientStatus::Connected,
        status_after(status, ConnectionEvent::Interrupted { error_code: code }) != ClientStatus::Connected,
{
}

/// What a connection event does: the client's new status, and the status
/// to report to the one who waits for the outcome of the first connection
/// attempt, if anyone still waits.
#[derive(Clone, Copy, Debug, PartialEq, Eq, Structural)]
pub struct EventOutcome {
    pub status: ClientStatus,
    pub report: Option<ClientStatus>,
}

/// The outcome of `event` from `status`, with `waiting` telling whether the
/// outcome of the first connection attempt is still awaited: only a
/// completed attempt is reported, and only while it is awaited.
pub open spec fn outcome_of(status: ClientStatus, waiting: bool, event: ConnectionEvent) -> EventOutcome {
    let s = status_after(status, event);
    EventOutcome {
        status: s,
        report: if waiting && event is Completed {
            Some(s)
        } else {
            None
        },
    }
}

/// Whether the outcome of the first attempt is still awaited after `event`.
pub open spec fn waiting_after(waiting: bool, event: ConnectionEvent) -> bool {
    waiting && !(event is Completed)
}

/// The reports made along `events`, from `status`.
pub open spec fn reports_along(status: ClientStatus, waiting: bool, events: Seq<ConnectionEvent>) -> Seq<
    ClientStatus,
>
    decreases events.len(),
{
    if events.len() == 0 {
        seq![]
    } else {
        let o = outcome_of(status, waiting, events[0]);
        let rest = reports_along(o.status, waiting_after(waiting, events[0]), events.drop_first());
        match o.report {
            Some(r) => seq![r] + rest,
            None => rest,
        }
    }
}

/// Applies a connection event: the new status, and the status to report
/// when the outcome of the first connection attempt is still awaited and
/// the event completes an attempt.
pub fn on_event(status: ClientStatus, waiting: bool, event: ConnectionEvent) -> (r: EventOutcome)
    ensures
        r == outcome_of(status, waiting, event),
{
    let s = next_status(status, event);
    let completed = match event {
        ConnectionEvent::Completed { .. } => true,
        _ => false,
    };
    EventOutcome {
        status: s,
        report: if waiting && completed {
            Some(s)
        } else {
            None
        },
    }
}

/// Only the first completed connection attempt is reported: when nobody
/// waits nothing is reported; while someone waits, the events before the
/// first completion report nothing, the first completion reports the
/// status it leads to, and nothing after it is reported.
pub proof fn lemma_only_first_completion_reported(status: ClientStatus, events: Seq<ConnectionEvent>)
    ensures
        reports_along(status, false, events) == Seq::<ClientStatus>::empty(),
        (forall|i: int| 0 <= i < events.len() ==> !(#[trigger] events[i] is Completed)) ==> reports_along(
            status,
            true,
            events,
        ) == Seq::<ClientStatus>::empty(),
        forall|k: int|
            0 <= k < events.len() && #[trigger] events[k] is Completed && (forall|j: int|
                0 <= j < k ==> !(events[j] is Completed)) ==> reports_along(status, true, events) == seq![
                status_after(status, events[k]),
            ],
    decreases events.len(),
{
    if events.len() > 0 {
        let e = events[0];
        let rest = events.drop_first();
        let s1 = status_after(status, e);
        lemma_only_first_completion_reported(s1, rest);
        assert forall|i: int| 0 <= i < rest.len() implies rest[i] == events[i + 1] by {}
        if !(e is Completed) {
            assert forall|k: int|
                0 <= k < events.len() && #[trigger] events[k] is Completed && (forall|j: int|
                    0 <= j < k ==> !(events[j] is Completed)) implies reports_along(status, true, events)
                == seq![status_after(status, events[k])] by {
                assert(k > 0);
                let k1 = k - 1;
                assert(rest[k1] is Completed);
                assert forall|j: int| 0 <= j < k1 implies !(rest[j] is Completed) by {
                    assert(rest[j] == events[j + 1]);
                }
                // a completed attempt's status does not depend on the status before it
                assert(status_after(s1, rest[k1]) == status_after(status, events[k]));
            }
            if forall|i: int| 0 <= i < events.len() ==> !(#[trigger] events[i] is Completed) {
                assert forall|i: int| 0 <= i < rest.len() implies !(#[trigger] rest[i] is Completed) by {
                    assert(rest[i] == events[i + 1]);
                }
            }
        } else {
            assert(reports_along(status, true, events) == seq![s1] + reports_along(s1, false, rest));
            assert(seq![s1] + Seq::<ClientStatus>::empty() =~= seq![s1]);
            assert forall|k: int|
                0 <= k < events.len() && #[trigger] events[k] is Completed && (forall|j: int|
                    0 <= j < k ==> !(events[j] is Completed)) implies k == 0 by {
                if k > 0 {
                    assert(!(events[0] is Completed));
                }
            }
        }
    }
}

/// A completed connection attempt decides the status on its own, whatever
/// the status before: it closes the client when it failed with an error
/// and the broker did not accept (any refusing CONNACK), and connects it
/// when there was no error or the broker accepted. When the creator still
/// waits, it is told that same status.
pub proof fn lemma_completed_attempt(
    before: ClientStatus,
    other: ClientStatus,
    error_code: i32,
    return_code: AwsMqttConnectReturnCode,
    session_present: bool,
)
    ensures
        ({
            let e = ConnectionEvent::Completed { error_code, return_code, session_present };
            &&& error_code != 0 && return_code != AwsMqttConnectReturnCode::Accepted ==> status_after(before, e)
                == ClientStatus::Closed
            &&& error_code == 0 ==> status_after(before, e) == ClientStatus::Connected
            &&& return_code == AwsMqttConnectReturnCode::Accepted ==> status_after(before, e)
                == ClientStatus::Connected
            &&& status_after(before, e) == status_after(other, e)
            &&& outcome_of(before, true, e).report == Some(status_after(before, e))
        }),
{
}

/// The result of creating the client, from the status the first
/// connection attempt reported (`None` when no report came).
pub fn creation_result(reported: Option<ClientStatus>) -> (r: Result<(), Error>)
    ensures
        r is Ok <==> reported == Some(ClientStatus::Connected),
        r is Err ==> r matches Err(Error::MqttClientCreate),
{
    match reported {
        Some(ClientStatus::Connected) => Ok(()),
        _ => Err(Error::MqttClientCreate),
    }
}

/// The error for a nonzero error code of the AWS MQTT library.
pub open spec fn mqtt_error_for(code: i32) -> Error {
    match mqtt_error_of_code(code as int) {
        Some(e) => Error::AwsMqttError(e),
        None => Error::AwsUnknownMqttError(code),
    }
}

/// The result of a publish or unsubscribe, from the error code that came
/// back (`None` when none came): zero is success, a known code is that
/// MQTT error, any other code an unknown one.
pub fn operation_result(reported: Option<i32>) -> (r: Result<(), Error>)
    ensures
        reported == Some(0i32) ==> r is Ok,
        reported matches Some(c) ==> (c != 0 ==> r == Err::<(), Error>(mqtt_error_for(c))),
        reported is None ==> r matches Err(Error::AwsReceiveResponse),
{
    match reported {
        Some(0) => Ok(()),
        Some(code) => match AwsMqttError::try_from_i32(code) {
            Ok(e) => Err(Error::AwsMqttError(e)),
            Err(_) => Err(Error::AwsUnknownMqttError(code)),
        },
        None => Err(Error::AwsReceiveResponse),
    }
}

/// The error for an operation the library refused to start (packet id 0).
pub fn check_packet_id(packet_id: u16) -> (r: Result<u16, Error>)
    ensures
        packet_id != 0 ==> r == Ok::<u16, Error>(packet_id),
        packet_id == 0 ==> r == Err::<u16, Error>(Error::AwsMqttError(AwsMqttError::ProtocolError)),
{
    if packet_id == 0 {
        Err(Error::AwsMqttError(AwsMqttError::ProtocolError))
    } else {
        Ok(packet_id)
    }
}

} // verus!

verus! {

/// The result of waiting for a subscribed message (`None` when the
/// subscription ended without one).
pub fn message_result<M>(received: Option<M>) -> (r: Result<M, Error>)
    ensures
        received matches Some(m) ==> r == Ok::<M, Error>(m),
        received is None ==> r matches Err(Error::AwsReceiveMessage),
{
    match received {
        Some(m) => Ok(m),
        None => Err(Error::AwsReceiveMessage),
    }
}

} // verus!
