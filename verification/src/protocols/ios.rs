//! The frames received from the iPhone: `LIDR` header, then the LiDAR payload.

use crate::bridge_core::buffer::counter_after_one;
use crate::bridge_core::monitor::Monitor;
use crate::clock::instant_elapsed;
use std::time::Instant;
use vstd::prelude::*;

verus! {

/// The four bytes that open every LiDAR packet ("LIDR").
pub const LIDAR_PACKET_HEADER: [u8; 4] = [0x4C, 0x49, 0x44, 0x52];

/// The largest packet accepted, header included (1 MiB).
pub const MAX_PACKET_SIZE: usize = 1048576;

/// The number of connection errors tolerated before giving up.
pub const MAX_RECONNECT_ATTEMPTS: u32 = 5;

/// The header as a sequence.
pub open spec fn lidar_header() -> Seq<u8> {
    seq![0x4Cu8, 0x49u8, 0x44u8, 0x52u8]
}

/// Why a packet or a connection was refused.
#[derive(Debug, PartialEq, Eq, Structural, Clone, Copy)]
pub enum ProtocolError {
    /// The packet is shorter than the header or does not start with it.
    InvalidHeader,
    /// The packet is longer than [`MAX_PACKET_SIZE`].
    PacketTooLarge,
    /// More connection errors than [`MAX_RECONNECT_ATTEMPTS`] occurred.
    ReconnectLimitExceeded,
}

impl ProtocolError {
    /// The text of the error.
    pub open spec fn text(self) -> Seq<char> {
        match self {
            ProtocolError::InvalidHeader => "Invalid packet header"@,
            ProtocolError::PacketTooLarge => "Packet size exceeds maximum"@,
            ProtocolError::ReconnectLimitExceeded => "Max reconnection attempts exceeded"@,
        }
    }

    /// The text of the error, as shown to users.
    pub fn message(&self) -> (r: String)
        ensures
            r@ == self.text(),
    {
        match self {
            ProtocolError::InvalidHeader => "Invalid packet header".to_owned(),
            ProtocolError::PacketTooLarge => "Packet size exceeds maximum".to_owned(),
            ProtocolError::ReconnectLimitExceeded => "Max reconnection attempts exceeded".to_owned(),
        }
    }
}

/// Whether `data` starts with the LiDAR header.
pub open spec fn has_lidar_header(data: Seq<u8>) -> bool {
    data.len() >= 4 && data.subrange(0, 4) == lidar_header()
}

/// The verdict on a received packet: its payload (what follows the header), or
/// why it is refused. The header is checked before the size.
pub open spec fn packet_verdict(data: Seq<u8>) -> Result<Seq<u8>, ProtocolError> {
    if !has_lidar_header(data) {
        Err(ProtocolError::InvalidHeader)
    } else if data.len() > MAX_PACKET_SIZE {
        Err(ProtocolError::PacketTooLarge)
    } else {
        Ok(data.subrange(4, data.len() as int))
    }
}

/// A packet made of the header and a payload, within the size limit, is accepted
/// and yields exactly that payload.
pub proof fn law_lidar_packet_roundtrip(payload: Seq<u8>)
    requires
        payload.len() + 4 <= MAX_PACKET_SIZE,
    ensures
        packet_verdict(lidar_header() + payload) == Ok::<Seq<u8>, ProtocolError>(payload),
{
    let data = lidar_header() + payload;
    assert(data.subrange(0, 4) =~= lidar_header());
    assert(data.subrange(4, data.len() as int) =~= payload);
}

/// What happens to a packet, byte by byte: unless it is at least four bytes long
/// and starts with 4C 49 44 52 ("LIDR") it is refused as a bad header; with the
/// header but over 1 MiB it is refused as too large; otherwise its payload is
/// every byte after the first four, in order.
pub proof fn law_packet_verdict_by_bytes(data: Seq<u8>)
    ensures
        (data.len() < 4 || data[0] != 0x4C || data[1] != 0x49 || data[2] != 0x44 || data[3] != 0x52)
            ==> packet_verdict(data) == Err::<Seq<u8>, ProtocolError>(ProtocolError::InvalidHeader),
        (data.len() >= 4 && data[0] == 0x4C && data[1] == 0x49 && data[2] == 0x44 && data[3] == 0x52
            && data.len() > 1048576) ==> packet_verdict(data) == Err::<Seq<u8>, ProtocolError>(
            ProtocolError::PacketTooLarge,
        ),
        (data.len() >= 4 && data[0] == 0x4C && data[1] == 0x49 && data[2] == 0x44 && data[3] == 0x52
            && data.len() <= 1048576) ==> (packet_verdict(data) matches Ok(payload) && payload.len()
            == data.len() - 4 && forall|i: int| 0 <= i < payload.len() ==> #[trigger] payload[i] == data[i
            + 4]),
        packet_verdict(data) is Ok ==> data.len() >= 4 && data[0] == 0x4C && data[1] == 0x49 && data[2]
            == 0x44 && data[3] == 0x52,
{
    if data.len() >= 4 {
        let s = data.subrange(0, 4);
        assert(s[0] == data[0] && s[1] == data[1] && s[2] == data[2] && s[3] == data[3]);
        if data[0] == 0x4C && data[1] == 0x49 && data[2] == 0x44 && data[3] == 0x52 {
            assert(s =~= lidar_header());
        }
    }
}

/// The state of the connection to the iPhone that the protocol's decisions read:
/// how many connection errors occurred.
pub struct IosSession {
    reconnect_attempts: u32,
}

impl IosSession {
    /// The number of connection errors so far.
    pub closed spec fn attempts(&self) -> u32 {
        self.reconnect_attempts
    }

    /// A session with no connection error yet.
    pub fn new() -> (r: Self)
        ensures
            r.attempts() == 0,
    {
        IosSession { reconnect_attempts: 0 }
    }

    /// The number of connection errors so far.
    pub fn reconnect_attempts(&self) -> (r: u32)
        ensures
            r == self.attempts(),
    {
        self.reconnect_attempts
    }

    /// Checks a received packet. A packet without the header is counted as a drop
    /// by `monitor`; an oversized one is refused without being counted.
    pub fn validate_frame(&self, monitor: &mut Monitor, data: &[u8]) -> (r: Result<(), ProtocolError>)
        ensures
            r is Ok <==> packet_verdict(data@) is Ok,
            r matches Err(e) ==> packet_verdict(data@) == Err::<Seq<u8>, ProtocolError>(e),
            final(monitor).drops() == if r == Err::<(), ProtocolError>(ProtocolError::InvalidHeader) {
                counter_after_one(old(monitor).drops())
            } else {
                old(monitor).drops()
            },
            final(monitor).frames() == old(monitor).frames(),
            final(monitor).latency_us() == old(monitor).latency_us(),
            final(monitor).started_at() == old(monitor).started_at(),
    {
        if data.len() < 4 || data[0] != 0x4C || data[1] != 0x49 || data[2] != 0x44 || data[3] != 0x52 {
            proof {
                if data@.len() >= 4 {
                    assert(data@.subrange(0, 4) != lidar_header()) by {
                        let s = data@.subrange(0, 4);
                        assert(s[0] == data@[0] && s[1] == data@[1] && s[2] == data@[2] && s[3] == data@[3]);
                    }
                }
            }
            monitor.record_drop();
            return Err(ProtocolError::InvalidHeader);
        }
        assert(data@.subrange(0, 4) =~= lidar_header());
        if data.len() > MAX_PACKET_SIZE {
            return Err(ProtocolError::PacketTooLarge);
        }
        Ok(())
    }

    /// Handles a packet received at the end of a wait that began at `start`: a
    /// valid packet is counted as a frame with the time elapsed since `start`,
    /// and its payload is returned.
    pub fn accept_frame(&self, monitor: &mut Monitor, data: &[u8], start: Instant) -> (r: Result<Vec<u8>, ProtocolError>)
        ensures
            match packet_verdict(data@) {
                Ok(payload) => r matches Ok(v) && v@ == payload
                    && final(monitor).frames() == counter_after_one(old(monitor).frames())
                    && final(monitor).drops() == old(monitor).drops(),
                Err(e) => r == Err::<Vec<u8>, ProtocolError>(e)
                    && final(monitor).frames() == old(monitor).frames()
                    && final(monitor).latency_us() == old(monitor).latency_us()
                    && final(monitor).drops() == if e == ProtocolError::InvalidHeader {
                        counter_after_one(old(monitor).drops())
                    } else {
                        old(monitor).drops()
                    },
            },
            final(monitor).started_at() == old(monitor).started_at(),
    {
        match self.validate_frame(monitor, data) {
            Err(e) => Err(e),
            Ok(()) => {
                let latency = instant_elapsed(&start);
                monitor.record_frame(latency);
                let mut payload: Vec<u8> = Vec::with_capacity(data.len() - 4);
                let mut i: usize = 4;
                while i < data.len()
                    invariant
                        4 <= i <= data@.len(),
                        payload@ == data@.subrange(4, i as int),
                    decreases data@.len() - i,
                {
                    payload.push(data[i]);
                    i = i + 1;
                    assert(payload@ =~= data@.subrange(4, i as int));
                }
                Ok(payload)
            },
        }
    }

    /// Counts a connection error. Past [`MAX_RECONNECT_ATTEMPTS`] errors the
    /// connection is given up; before that the caller waits and retries.
    pub fn handle_connection_error(&mut self) -> (r: Result<(), ProtocolError>)
        requires
            old(self).attempts() < u32::MAX,
        ensures
            final(self).attempts() == old(self).attempts() + 1,
            r is Ok <==> final(self).attempts() <= MAX_RECONNECT_ATTEMPTS,
            r is Err ==> r == Err::<(), ProtocolError>(ProtocolError::ReconnectLimitExceeded),
    {
        self.reconnect_attempts = self.reconnect_attempts + 1;
        if self.reconnect_attempts > MAX_RECONNECT_ATTEMPTS {
            return Err(ProtocolError::ReconnectLimitExceeded);
        }
        Ok(())
    }

    /// Counts a frame lost because the receiving buffer overflowed.
    pub fn handle_buffer_overflow(&self, monitor: &mut Monitor)
        ensures
            final(monitor).drops() == counter_after_one(old(monitor).drops()),
            final(monitor).frames() == old(monitor).frames(),
            final(monitor).latency_us() == old(monitor).latency_us(),
            final(monitor).started_at() == old(monitor).started_at(),
    {
        monitor.record_drop();
    }
}

} // verus!
