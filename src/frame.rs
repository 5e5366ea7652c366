use vstd::prelude::*;

verus! {

/// The status code and reason text of a Close frame.
pub struct CloseData {
    pub status_code: u16,
    pub reason: String,
}

/// A WebSocket message: the base frame set, with owned payloads.
pub enum Frame {
    Text(String),
    Binary(Vec<u8>),
    Ping(Vec<u8>),
    Pong(Vec<u8>),
    Close(Option<CloseData>),
}

/// The mathematical value of a frame: its kind and payload.
pub enum FrameModel {
    Text(Seq<char>),
    Binary(Seq<u8>),
    Ping(Seq<u8>),
    Pong(Seq<u8>),
    Close(Option<(u16, Seq<char>)>),
}

impl View for Frame {
    type V = FrameModel;

    open spec fn view(&self) -> FrameModel {
        match self {
            Frame::Text(s) => FrameModel::Text(s@),
            Frame::Binary(b) => FrameModel::Binary(b@),
            Frame::Ping(b) => FrameModel::Ping(b@),
            Frame::Pong(b) => FrameModel::Pong(b@),
            Frame::Close(None) => FrameModel::Close(None),
            Frame::Close(Some(c)) => FrameModel::Close(Some((c.status_code, c.reason@))),
        }
    }
}

impl Frame {
    /// Whether this is a Close frame.
    pub fn is_close(&self) -> (r: bool)
        ensures
            r == self@ is Close,
    {
        match self {
            Frame::Close(_) => true,
            _ => false,
        }
    }
}

} // verus!
