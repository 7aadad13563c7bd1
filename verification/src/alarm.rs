use vstd::prelude::*;

use crate::bytes::copy_bytes;
use crate::errors::{class_of, classify, ErrorClass, HandlerError, TransportError};
use crate::frame::{Frame, FrameKind, FrameModel};
use crate::CONNECTION_TIMEOUT_MS;
use crate::DEFUSE_TIMEOUT_MS;
use crate::UPDATE_SIZE;

verus! {

/// Whether the device is idle or armed; an armed device carries the absolute
/// time at which it escalates unless it is disarmed first.
#[derive(Clone, Copy, Debug, PartialEq, Eq, Structural)]
pub enum ArmState {
    Idle,
    Armed { defuse_deadline_ms: u64 },
}

/// One occurrence the connection loop reacts to: a delivery from the stream,
/// a condition reported in place of one, or the earliest pending deadline
/// elapsing.
#[derive(Debug)]
pub enum Event {
    Delivery(Frame),
    Transport(TransportError),
    DeadlineElapsed,
}

/// Mathematical image of an `Event`.
pub ghost enum EventModel {
    Delivery(FrameModel),
    Transport(TransportError),
    DeadlineElapsed,
}

impl View for Event {
    type V = EventModel;

    open spec fn view(&self) -> EventModel {
        match self {
            Event::Delivery(f) => EventModel::Delivery(f@),
            Event::Transport(e) => EventModel::Transport(*e),
            Event::DeadlineElapsed => EventModel::DeadlineElapsed,
        }
    }
}

/// What the loop does after one event: keep waiting, end with a boolean
/// alert outcome, or abort the connection.
#[derive(Clone, Copy, Debug, PartialEq, Eq, Structural)]
pub enum Step {
    Continue,
    Terminal(bool),
    Fatal(HandlerError),
}

/// The steady-state protocol condition: the most recently accepted payload,
/// the arm state, and the inactivity deadline.
#[derive(Debug)]
pub struct AlarmState {
    pub last_message: Vec<u8>,
    pub arm: ArmState,
    pub connection_deadline_ms: u64,
}

/// Mathematical image of an `AlarmState`.
pub ghost struct AlarmModel {
    pub last_message: Seq<u8>,
    pub arm: ArmState,
    pub connection_deadline_ms: u64,
}

impl View for AlarmState {
    type V = AlarmModel;

    open spec fn view(&self) -> AlarmModel {
        AlarmModel {
            last_message: self.last_message@,
            arm: self.arm,
            connection_deadline_ms: self.connection_deadline_ms,
        }
    }
}

/// The sentinel the payload buffer holds until a first valid binary message
/// arrives: `UPDATE_SIZE` bytes of 0xFF.
pub open spec fn sentinel() -> Seq<u8> {
    Seq::new(UPDATE_SIZE as nat, |i: int| 0xffu8)
}

/// A command code that ends the run with a boolean outcome.
pub open spec fn is_terminal_code(c: u8) -> bool {
    c == 2 || c == 3
}

/// A command code the protocol recognizes.
pub open spec fn is_command_code(c: u8) -> bool {
    c == 0 || c == 1 || c == 2 || c == 3
}

impl AlarmModel {
    /// The payload buffer always holds exactly `UPDATE_SIZE` bytes.
    pub open spec fn wf(self) -> bool {
        self.last_message.len() == UPDATE_SIZE
    }

    /// The next wakeup: the earliest of the connection deadline and, while
    /// armed, the defuse deadline.
    pub open spec fn next_deadline(self) -> u64 {
        match self.arm {
            ArmState::Idle => self.connection_deadline_ms,
            ArmState::Armed { defuse_deadline_ms } => if defuse_deadline_ms
                < self.connection_deadline_ms {
                defuse_deadline_ms
            } else {
                self.connection_deadline_ms
            },
        }
    }
}

/// The transition relation of the steady-state loop: from a state, an event
/// and the current time to the successor state and what the loop does next.
///
/// An elapsed deadline and a benign transport close both end the run with an
/// alert outcome, as does an explicit close frame. A binary payload of
/// exactly `UPDATE_SIZE` bytes with a recognized command code is accepted:
/// it is recorded wholesale and pushes the connection deadline out by
/// `CONNECTION_TIMEOUT_MS`; its code then disarms, arms (setting the defuse
/// deadline only if not already armed), or ends the run. Everything else is
/// fatal and leaves the state unchanged.
pub open spec fn step_spec(pre: AlarmModel, ev: EventModel, now_ms: u64) -> (AlarmModel, Step) {
    match ev {
        EventModel::DeadlineElapsed => (pre, Step::Terminal(true)),
        EventModel::Transport(e) => match class_of(e) {
            ErrorClass::Fatal => (pre, Step::Fatal(HandlerError::Transport(e))),
            ErrorClass::BenignClose => (pre, Step::Terminal(true)),
        },
        EventModel::Delivery(f) => match f.kind {
            FrameKind::Close => (pre, Step::Terminal(true)),
            FrameKind::Binary => if f.payload.len() != UPDATE_SIZE {
                (pre, Step::Fatal(HandlerError::WrongLength(f.payload.len() as usize)))
            } else if !is_command_code(f.payload[0]) {
                (pre, Step::Fatal(HandlerError::UnrecognizedCode(f.payload[0])))
            } else {
                let accepted = AlarmModel {
                    last_message: f.payload,
                    arm: pre.arm,
                    connection_deadline_ms: (now_ms + CONNECTION_TIMEOUT_MS) as u64,
                };
                if f.payload[0] == 0 {
                    (AlarmModel { arm: ArmState::Idle, ..accepted }, Step::Continue)
                } else if f.payload[0] == 1 {
                    let arm = if pre.arm is Armed {
                        pre.arm
                    } else {
                        ArmState::Armed { defuse_deadline_ms: (now_ms + DEFUSE_TIMEOUT_MS) as u64 }
                    };
                    (AlarmModel { arm, ..accepted }, Step::Continue)
                } else if f.payload[0] == 2 {
                    (accepted, Step::Terminal(true))
                } else {
                    (accepted, Step::Terminal(false))
                }
            },
            _ => (pre, Step::Fatal(HandlerError::UnexpectedFrame(f.kind))),
        },
    }
}

impl AlarmState {
    /// The payload buffer always holds exactly `UPDATE_SIZE` bytes.
    pub open spec fn wf(self) -> bool {
        self@.wf()
    }

    /// The state right after setup completes at `setup_done_ms`: idle, the
    /// sentinel recorded, and the connection deadline one full window out.
    pub fn new(setup_done_ms: u64) -> (s: Self)
        requires
            setup_done_ms + CONNECTION_TIMEOUT_MS <= u64::MAX,
        ensures
            s.wf(),
            s@.arm == ArmState::Idle,
            s@.last_message == sentinel(),
            s@.connection_deadline_ms == setup_done_ms + CONNECTION_TIMEOUT_MS,
    {
        let mut last: Vec<u8> = Vec::new();
        let mut i: usize = 0;
        while i < UPDATE_SIZE
            invariant
                i <= UPDATE_SIZE,
                last.len() == i,
                forall|j: int| 0 <= j < i ==> last@[j] == 0xffu8,
            decreases UPDATE_SIZE - i,
        {
            last.push(0xffu8);
            i = i + 1;
        }
        proof {
            assert(last@ =~= sentinel());
        }
        AlarmState {
            last_message: last,
            arm: ArmState::Idle,
            connection_deadline_ms: setup_done_ms + CONNECTION_TIMEOUT_MS,
        }
    }

    /// The next wakeup: the earliest of the connection deadline and, while
    /// armed, the defuse deadline.
    pub fn next_deadline_ms(&self) -> (d: u64)
        ensures
            d == self@.next_deadline(),
    {
        match self.arm {
            ArmState::Idle => self.connection_deadline_ms,
            ArmState::Armed { defuse_deadline_ms } => if defuse_deadline_ms
                < self.connection_deadline_ms {
                defuse_deadline_ms
            } else {
                self.connection_deadline_ms
            },
        }
    }

    /// Applies one event at time `now_ms`, following `step_spec` exactly.
    pub fn handle_event(&mut self, ev: &Event, now_ms: u64) -> (step: Step)
        requires
            old(self).wf(),
            now_ms + CONNECTION_TIMEOUT_MS <= u64::MAX,
            now_ms + DEFUSE_TIMEOUT_MS <= u64::MAX,
        ensures
            final(self).wf(),
            (final(self)@, step) == step_spec(old(self)@, ev@, now_ms),
    {
        match ev {
            Event::DeadlineElapsed => Step::Terminal(true),
            Event::Transport(e) => match classify(e) {
                ErrorClass::Fatal => Step::Fatal(HandlerError::Transport(*e)),
                ErrorClass::BenignClose => Step::Terminal(true),
            },
            Event::Delivery(f) => match f.kind {
                FrameKind::Close => Step::Terminal(true),
                FrameKind::Binary => {
                    if f.payload.len() != UPDATE_SIZE {
                        return Step::Fatal(HandlerError::WrongLength(f.payload.len()));
                    }
                    let code = f.payload[0];
                    if code > 3 {
                        return Step::Fatal(HandlerError::UnrecognizedCode(code));
                    }
                    self.last_message = copy_bytes(&f.payload);
                    self.connection_deadline_ms = now_ms + CONNECTION_TIMEOUT_MS;
                    if code == 0 {
                        self.arm = ArmState::Idle;
                        Step::Continue
                    } else if code == 1 {
                        match self.arm {
                            ArmState::Idle => {
                                self.arm = ArmState::Armed {
                                    defuse_deadline_ms: now_ms + DEFUSE_TIMEOUT_MS,
                                };
                            },
                            ArmState::Armed { .. } => {},
                        }
                        Step::Continue
                    } else if code == 2 {
                        Step::Terminal(true)
                    } else {
                        Step::Terminal(false)
                    }
                },
                _ => Step::Fatal(HandlerError::UnexpectedFrame(f.kind)),
            },
        }
    }
}

} // verus!
