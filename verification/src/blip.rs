//! Device façade: the control state machine that the firmware drives.
//!
//! [`Blip`] owns the edge capturer and a mode flag. The acquisition timer
//! calls [`Blip::tick`] once per tick with the current pin level; the
//! transport hands every fully parsed inbound control message to
//! [`Blip::handle_command`] and sends the reply back.

use vstd::prelude::*;

use crate::capture::{capturer_init, sample_rel, Capturer};
use crate::protocol::{Command, Info, Reply};

verus! {

/// Version reported in the device information reply.
pub const VERSION: u32 = 1;

/// Operating mode of the device.
#[derive(Clone, Copy, PartialEq, Eq, Structural, Debug)]
pub enum State {
    Idle,
    CaptureRaw,
    IrSend,
}

/// The device control state machine.
pub struct Blip {
    pub state: State,
    pub capturer: Capturer,
    pub samplerate: u32,
}

impl Blip {
    pub open spec fn wf(self) -> bool {
        self.capturer.wf()
    }

    /// Create a device in idle mode at `samplerate` ticks per second.
    pub fn new(samplerate: u32) -> (r: Blip)
        ensures
            r.state == State::Idle,
            r.capturer == capturer_init(samplerate),
            r.samplerate == samplerate,
            r.wf(),
    {
        Blip { state: State::Idle, capturer: Capturer::new(samplerate), samplerate }
    }

    /// One timer tick: in capture mode the pin level is fed to the
    /// capturer and a finalized buffer is handed out; the other modes
    /// ignore the tick.
    pub fn tick(&mut self, timestamp: u32, level: bool) -> (r: Option<Reply>)
        requires
            old(self).wf(),
        ensures
            final(self).wf(),
            final(self).state == old(self).state,
            final(self).samplerate == old(self).samplerate,
            old(self).state is CaptureRaw ==> sample_rel(
                old(self).capturer,
                level,
                timestamp,
                final(self).capturer,
                r,
            ),
            !(old(self).state is CaptureRaw) ==> *final(self) == *old(self) && r is None,
    {
        match self.state {
            State::Idle => None,
            State::IrSend => None,
            State::CaptureRaw => self.capturer.sample(level, timestamp),
        }
    }

    /// Handle one inbound control message and produce the reply.
    pub fn handle_command(&mut self, cmd: Command) -> (r: Reply)
        requires
            old(self).wf(),
        ensures
            final(self).wf(),
            final(self).samplerate == old(self).samplerate,
            ({
                match cmd {
                    Command::Idle => {
                        &&& final(self).state == State::Idle
                        &&& final(self).capturer == old(self).capturer
                        &&& r is Ack
                    },
                    Command::Info => {
                        &&& *final(self) == *old(self)
                        &&& (r matches Reply::Info { info } && info == (Info {
                            version: VERSION,
                            transmitters: 0,
                            samplerate: old(self).samplerate,
                        }))
                    },
                    Command::Capture => {
                        &&& final(self).state == State::CaptureRaw
                        &&& final(self).capturer == old(self).capturer.reset_state()
                        &&& r is Ack
                    },
                    Command::CaptureProtocol(_) => {
                        &&& *final(self) == *old(self)
                        &&& r is Ack
                    },
                    Command::RemoteControlSend(_) => {
                        &&& final(self).state == State::IrSend
                        &&& final(self).capturer == old(self).capturer
                        &&& r is Ack
                    },
                }
            }),
    {
        match cmd {
            Command::Idle => {
                self.state = State::Idle;
                Reply::Ack
            },
            Command::Info => Reply::Info {
                info: Info { version: VERSION, transmitters: 0, samplerate: self.samplerate },
            },
            Command::Capture => {
                self.capturer.reset();
                self.state = State::CaptureRaw;
                Reply::Ack
            },
            Command::CaptureProtocol(_) => Reply::Ack,
            Command::RemoteControlSend(_) => {
                self.state = State::IrSend;
                Reply::Ack
            },
        }
    }
}

} // verus!
