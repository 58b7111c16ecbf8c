//! Decisions of the eSPI service: what to do with each controller event, and how OOB packets
//! are framed on their way in and out.
use vstd::prelude::*;

verus! {

/// OOB port number of the eSPI controller
pub const OOB_PORT_ID: usize = 1;

/// Size of the buffer an incoming OOB packet is copied into, with room for the PEC byte.
pub const PEC_BUFFER_SIZE: usize = 100;

/// eSPI service error
#[derive(Debug, Clone, Copy, PartialEq, Eq, Structural)]
pub enum Error {
    /// A message could not be (de)serialized
    Serialize,
}

/// An event from the eSPI controller, as far as the service reads it.
#[derive(Debug, Clone, Copy, PartialEq, Eq, Structural)]
pub enum ControllerEvent {
    /// Peripheral channel event on a port
    PeripheralEvent {
        /// Port the event came on
        port: usize,
    },
    /// Out-of-band channel event on a port
    OobEvent {
        /// Port the event came on
        port: usize,
        /// True when the host wrote data for the controller
        direction: bool,
    },
    /// Port 80 write
    Port80,
    /// Virtual wire change
    WireChange,
    /// The controller reported an error
    Failed,
}

/// What the service does with a controller event.
#[derive(Debug, Clone, Copy, PartialEq, Eq, Structural)]
pub enum EventAction {
    /// Complete the port without further processing
    CompletePort(usize),
    /// Read the OOB packet and hand it to the MCTP layer
    ReceiveOob,
    /// Only record the event
    Log,
}

/// Decides what to do with a controller event.
///
/// Peripheral channel events are not handled (all communication goes through OOB) and their
/// port is completed at once; OOB writes from the host are received; OOB events in the other
/// direction are completed; everything else is only recorded.
pub fn controller_event_action(event: ControllerEvent) -> (r: EventAction)
    ensures
        r == (match event {
            ControllerEvent::PeripheralEvent { port } => EventAction::CompletePort(port),
            ControllerEvent::OobEvent { port, direction } => if direction {
                EventAction::ReceiveOob
            } else {
                EventAction::CompletePort(port)
            },
            _ => EventAction::Log,
        }),
{
    match event {
        ControllerEvent::PeripheralEvent { port } => EventAction::CompletePort(port),
        ControllerEvent::OobEvent { port, direction } => {
            if direction {
                EventAction::ReceiveOob
            } else {
                EventAction::CompletePort(port)
            }
        },
        _ => EventAction::Log,
    }
}

/// Appends the zero PEC byte that the MCTP layer expects after an incoming packet.
///
/// The packet is copied into a buffer of [`PEC_BUFFER_SIZE`] bytes, so it must be shorter than
/// that.
pub fn append_pec(packet: &[u8]) -> (r: Vec<u8>)
    requires
        packet.len() < PEC_BUFFER_SIZE,
    ensures
        r@ == packet@.push(0u8),
{
    let mut with_pec: Vec<u8> = Vec::new();
    let mut i: usize = 0;
    while i < packet.len()
        invariant
            i <= packet.len(),
            with_pec@ == packet@.take(i as int),
        decreases packet.len() - i,
    {
        with_pec.push(packet[i]);
        proof {
            assert(packet@.take(i as int + 1) == packet@.take(i as int).push(packet@[i as int]));
        }
        i = i + 1;
    }
    proof {
        assert(packet@.take(packet.len() as int) == packet@);
    }
    with_pec.push(0u8);
    with_pec
}

/// What the MCTP layer made of an incoming packet.
#[derive(Debug, Clone, Copy, PartialEq, Eq, Structural)]
pub enum Deserialized {
    /// A whole message
    Message,
    /// Part of a message
    Partial,
    /// A malformed packet
    Malformed,
}

/// The outcome of an incoming packet: a whole message is routed (`Ok(true)`); a partial or
/// malformed one completes the OOB port and fails with a serialization error.
pub fn deserialize_outcome(result: Deserialized) -> (r: (Option<usize>, Result<bool, Error>))
    ensures
        r == (match result {
            Deserialized::Message => (None, Ok::<bool, Error>(true)),
            _ => (Some(OOB_PORT_ID), Err::<bool, Error>(Error::Serialize)),
        }),
{
    match result {
        Deserialized::Message => (None, Ok(true)),
        Deserialized::Partial => (Some(OOB_PORT_ID), Err(Error::Serialize)),
        Deserialized::Malformed => (Some(OOB_PORT_ID), Err(Error::Serialize)),
    }
}

/// Drops the trailing PEC byte of an outgoing packet.
pub fn strip_pec(packet: &[u8]) -> (r: Vec<u8>)
    requires
        packet.len() >= 1,
    ensures
        r@ == packet@.drop_last(),
{
    let n = packet.len() - 1;
    let mut out: Vec<u8> = Vec::new();
    let mut i: usize = 0;
    while i < n
        invariant
            n == packet.len() - 1,
            i <= n,
            out@ == packet@.take(i as int),
        decreases n - i,
    {
        out.push(packet[i]);
        proof {
            assert(packet@.take(i as int + 1) == packet@.take(i as int).push(packet@[i as int]));
        }
        i = i + 1;
    }
    proof {
        assert(packet@.take(n as int) == packet@.drop_last());
    }
    out
}

/// MCTP endpoint ID of the EC, the source of every reply.
pub const EC_ENDPOINT_ID: u8 = 0x80;

/// Message tag of every reply.
pub const REPLY_MESSAGE_TAG: u8 = 3;

/// How a reply to the host is addressed on the MCTP bus.
#[derive(Debug, Clone, Copy, PartialEq, Eq, Structural)]
pub struct ReplyContext {
    /// Endpoint the reply comes from
    pub source_endpoint_id: u8,
    /// Endpoint the reply goes to
    pub destination_endpoint_id: u8,
    /// Sequence number of the first packet
    pub packet_sequence_number: u8,
    /// Message tag
    pub message_tag: u8,
    /// SMBus/eSPI address of the receiver
    pub destination_slave_address: u8,
    /// SMBus/eSPI address of the sender
    pub source_slave_address: u8,
}

/// The context of a reply sent to the host on behalf of the service with the given endpoint ID:
/// from the EC's endpoint, first packet numbered 0, tagged [`REPLY_MESSAGE_TAG`], from slave
/// address 0 to slave address 1.
pub fn reply_context(service_endpoint_id: u8) -> (r: ReplyContext)
    ensures
        r == (ReplyContext {
            source_endpoint_id: EC_ENDPOINT_ID,
            destination_endpoint_id: service_endpoint_id,
            packet_sequence_number: 0,
            message_tag: REPLY_MESSAGE_TAG,
            destination_slave_address: 1,
            source_slave_address: 0,
        }),
{
    ReplyContext {
        source_endpoint_id: EC_ENDPOINT_ID,
        destination_endpoint_id: service_endpoint_id,
        packet_sequence_number: 0,
        message_tag: REPLY_MESSAGE_TAG,
        destination_slave_address: 1,
        source_slave_address: 0,
    }
}

/// What the sender does with the next packet of a serialized message.
#[derive(Debug, Clone, PartialEq, Eq)]
pub enum PacketStep {
    /// Every packet was sent
    Done,
    /// Sending stops with this error
    Fail(Error),
    /// Write these bytes to the controller, then service the event that follows
    Send(Vec<u8>),
}

/// Decides what to do with the next packet of an outgoing message: `None` when none is left,
/// `Some(Err(()))` when it could not be serialized, and otherwise its bytes, whose trailing PEC
/// byte is not sent.
pub fn packet_step(packet: Option<Result<&[u8], ()>>) -> (r: PacketStep)
    requires
        packet matches Some(Ok(p)) ==> p.len() >= 1,
    ensures
        packet is None ==> r == PacketStep::Done,
        packet matches Some(Err(_)) ==> r == PacketStep::Fail(Error::Serialize),
        packet matches Some(Ok(p)) ==> r matches PacketStep::Send(bytes) && bytes@ == p@.drop_last(),
{
    match packet {
        None => PacketStep::Done,
        Some(Err(_)) => PacketStep::Fail(Error::Serialize),
        Some(Ok(p)) => PacketStep::Send(strip_pec(p)),
    }
}

/// Copies an outgoing packet to the start of the controller's write buffer and returns the
/// length to report, which the controller takes as one byte (truncated).
pub fn write_to_buffer(dest: &mut Vec<u8>, packet: &[u8]) -> (r: u8)
    requires
        packet.len() <= old(dest).len(),
    ensures
        final(dest).len() == old(dest).len(),
        final(dest)@.take(packet.len() as int) == packet@,
        final(dest)@.skip(packet.len() as int) == old(dest)@.skip(packet.len() as int),
        r == packet.len() % 256,
{
    let mut i: usize = 0;
    while i < packet.len()
        invariant
            packet.len() <= old(dest).len(),
            i <= packet.len(),
            dest.len() == old(dest).len(),
            forall|k: int| 0 <= k < i ==> #[trigger] dest@[k] == packet@[k],
            forall|k: int| i <= k < dest.len() ==> #[trigger] dest@[k] == old(dest)@[k],
        decreases packet.len() - i,
    {
        dest.set(i, packet[i]);
        i = i + 1;
    }
    proof {
        assert(dest@.take(packet.len() as int) =~= packet@);
        assert(dest@.skip(packet.len() as int) =~= old(dest)@.skip(packet.len() as int));
    }
    let len = packet.len();
    (len % 256) as u8
}

/// Whether a result message is marked as an error in its header.
pub fn result_is_error(is_ok: bool) -> (r: bool)
    ensures
        r == !is_ok,
{
    !is_ok
}

} // verus!
