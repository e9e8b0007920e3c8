//! The control-message and reply types exchanged with the transport layer,
//! and the protocol identifiers.
//!
//! A capture buffer travels on the wire split into four fixed chunks of 32
//! intervals; that framing is kept here in [`CaptureData`] so that the
//! transport can forward the value as it stands.

use vstd::prelude::*;

verus! {

/// Identifier of a supported infrared protocol.
#[derive(Clone, Copy, PartialEq, Eq, Structural, Debug)]
pub enum ProtocolId {
    Nec,
    Nec16,
    NecSamsung,
    NecApple,
    Rc5,
    Rc6,
    Sbp,
}

/// The wire numbering of each protocol identifier.
pub open spec fn protocol_id_u8(p: ProtocolId) -> u8 {
    match p {
        ProtocolId::Nec => 1,
        ProtocolId::Nec16 => 2,
        ProtocolId::NecSamsung => 3,
        ProtocolId::NecApple => 4,
        ProtocolId::Rc5 => 5,
        ProtocolId::Rc6 => 6,
        ProtocolId::Sbp => 7,
    }
}

impl ProtocolId {
    /// The wire number of this protocol.
    pub fn as_u8(&self) -> (r: u8)
        ensures
            r == protocol_id_u8(*self),
    {
        match self {
            ProtocolId::Nec => 1,
            ProtocolId::Nec16 => 2,
            ProtocolId::NecSamsung => 3,
            ProtocolId::NecApple => 4,
            ProtocolId::Rc5 => 5,
            ProtocolId::Rc6 => 6,
            ProtocolId::Sbp => 7,
        }
    }

    /// The protocol of a wire number, if any.
    pub fn from_u8(v: u8) -> (r: Option<ProtocolId>)
        ensures
            r matches Some(p) ==> protocol_id_u8(p) == v,
            r is None <==> !(1 <= v <= 7),
    {
        match v {
            1 => Some(ProtocolId::Nec),
            2 => Some(ProtocolId::Nec16),
            3 => Some(ProtocolId::NecSamsung),
            4 => Some(ProtocolId::NecApple),
            5 => Some(ProtocolId::Rc5),
            6 => Some(ProtocolId::Rc6),
            7 => Some(ProtocolId::Sbp),
            _ => None,
        }
    }
}

/// A request to transmit one remote-control command.
#[derive(Clone, Copy, PartialEq, Eq, Structural, Debug)]
pub struct RemoteControlCmd {
    pub pid: u8,
    pub addr: u16,
    pub cmd: u8,
}

/// A control message from the host to the device.
#[derive(Clone, Copy, PartialEq, Eq, Structural, Debug)]
pub enum Command {
    Idle,
    Info,
    CaptureProtocol(u32),
    Capture,
    RemoteControlSend(RemoteControlCmd),
}

/// A finalized capture buffer: up to 128 inter-edge intervals in ticks,
/// framed as four chunks of 32 for the transport.
#[derive(Clone, Copy, Debug)]
pub struct CaptureData {
    pub samplerate: u32,
    pub len: u32,
    pub bufs: [[u16; 32]; 4],
}

impl CaptureData {
    /// The recorded intervals, in order.
    pub open spec fn intervals(self) -> Seq<u16> {
        Seq::new(self.len as nat, |i: int| self.bufs@[i / 32]@[i % 32])
    }

    /// The length is within capacity and every slot past it is clear.
    pub open spec fn wf(self) -> bool {
        &&& self.len <= 128
        &&& forall|i: int|
            self.len <= i < 128 ==> #[trigger] self.bufs@[i / 32]@[i % 32] == 0u16
    }

    /// Read the interval at `idx`.
    pub fn interval_at(&self, idx: u32) -> (r: u16)
        requires
            idx < self.len,
            self.wf(),
        ensures
            r == self.intervals()[idx as int],
    {
        self.bufs[(idx / 32) as usize][(idx % 32) as usize]
    }
}

/// An address/command pair decoded by the device in protocol-capture mode.
#[derive(Clone, Copy, PartialEq, Eq, Structural, Debug)]
pub struct GenericRemote {
    pub addr: u16,
    pub cmd: u16,
}

/// Device identification data.
#[derive(Clone, Copy, PartialEq, Eq, Structural, Debug)]
pub struct Info {
    pub version: u32,
    /// Bitfield of available transmitters.
    pub transmitters: u32,
    /// Samplerate of the capture timer.
    pub samplerate: u32,
}

/// A reply from the device to the host.
#[derive(Clone, Copy, Debug)]
pub enum Reply {
    Ack,
    CaptureReply { data: CaptureData },
    CaptureProtocolReply { data: GenericRemote },
    Info { info: Info },
}

} // verus!
