use vstd::prelude::*;

use crate::errors::HandlerError;
use crate::frame::{Frame, FrameKind, FrameModel};

verus! {

/// What the setup phase does with one delivery: keep assembling, finish with
/// the initial payload complete, or abort.
#[derive(Clone, Copy, Debug, PartialEq, Eq, Structural)]
pub enum SetupStep {
    Continue,
    Done,
    Fatal(HandlerError),
}

/// How one delivery extends the initial payload assembled so far. Binary and
/// continuation frames append their bytes in arrival order, and a delivery
/// marked final completes the payload; any other frame kind is fatal and
/// leaves the buffer as it was.
pub open spec fn setup_step_spec(buf: Seq<u8>, f: FrameModel) -> (Seq<u8>, SetupStep) {
    match f.kind {
        FrameKind::Binary | FrameKind::Continuation => (
            buf + f.payload,
            if f.fin {
                SetupStep::Done
            } else {
                SetupStep::Continue
            },
        ),
        _ => (buf, SetupStep::Fatal(HandlerError::UnexpectedSetupFrame(f.kind))),
    }
}

/// Assembles the initial payload: the concatenation, in arrival order, of
/// the binary and continuation deliveries seen before the first one marked
/// final. The bytes are opaque to the protocol and are retained as they
/// arrived.
pub struct SetupReader {
    pub buf: Vec<u8>,
}

impl SetupReader {
    /// An empty assembly buffer.
    pub fn new() -> (r: Self)
        ensures
            r.buf@ == Seq::<u8>::empty(),
    {
        SetupReader { buf: Vec::new() }
    }

    /// Feeds one delivery to the assembly, following `setup_step_spec`
    /// exactly.
    pub fn feed(&mut self, f: &Frame) -> (r: SetupStep)
        ensures
            (final(self).buf@, r) == setup_step_spec(old(self).buf@, f@),
    {
        match f.kind {
            FrameKind::Binary | FrameKind::Continuation => {
                let mut i: usize = 0;
                while i < f.payload.len()
                    invariant
                        i <= f.payload.len(),
                        self.buf@.len() == old(self).buf@.len() + i,
                        self.buf@ == old(self).buf@ + f.payload@.subrange(0, i as int),
                    decreases f.payload.len() - i,
                {
                    self.buf.push(f.payload[i]);
                    proof {
                        assert(self.buf@ =~= old(self).buf@ + f.payload@.subrange(
                            0,
                            i + 1 as int,
                        ));
                    }
                    i = i + 1;
                }
                proof {
                    assert(self.buf@ =~= old(self).buf@ + f.payload@);
                }
                if f.fin {
                    SetupStep::Done
                } else {
                    SetupStep::Continue
                }
            },
            _ => SetupStep::Fatal(HandlerError::UnexpectedSetupFrame(f.kind)),
        }
    }
}

} // verus!
