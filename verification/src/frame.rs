use vstd::prelude::*;

verus! {

/// The kind tag of one delivery from the framed message stream.
#[derive(Clone, Copy, Debug, PartialEq, Eq, Structural)]
pub enum FrameKind {
    Continuation,
    Text,
    Binary,
    Close,
    Ping,
    Pong,
}

/// One discrete delivery from the framed message stream: a kind tag, a
/// final-fragment flag, and the payload bytes.
#[derive(Debug)]
pub struct Frame {
    pub kind: FrameKind,
    pub fin: bool,
    pub payload: Vec<u8>,
}

/// Mathematical image of a `Frame`: the payload as a byte sequence.
pub ghost struct FrameModel {
    pub kind: FrameKind,
    pub fin: bool,
    pub payload: Seq<u8>,
}

impl View for Frame {
    type V = FrameModel;

    open spec fn view(&self) -> FrameModel {
        FrameModel { kind: self.kind, fin: self.fin, payload: self.payload@ }
    }
}

} // verus!
