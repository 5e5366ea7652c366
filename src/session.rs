use vstd::prelude::*;
use crate::frame::{Frame, FrameModel};

verus! {

/// Which end of the connection a session runs on.
#[derive(Clone, Copy, Debug, PartialEq, Eq, Structural)]
pub enum Role {
    Client,
    Server,
}

/// Which side sent the first Close frame.
#[derive(Clone, Copy, Debug, PartialEq, Eq, Structural)]
pub enum Initiator {
    Local,
    Remote,
}

/// The lifecycle of a negotiated connection.
#[derive(Clone, Copy, Debug, PartialEq, Eq, Structural)]
pub enum Phase {
    Open,
    Closing(Initiator),
    Closed,
}

/// What can happen to a session: a frame read from the peer, a frame
/// produced locally (user input), the outbound Close having been written,
/// the inbound stream ending, or an unrecoverable decode or I/O error.
pub enum Event {
    Inbound(FrameModel),
    Local(FrameModel),
    Flushed,
    End,
    Failure,
}

/// The inbound stream is read while the connection is open, and while a
/// locally initiated close waits for the peer's Close.
pub open spec fn reads(p: Phase) -> bool {
    p is Open || p == Phase::Closing(Initiator::Local)
}

/// The frame answering a non-Close inbound frame on an open connection.
pub open spec fn reply_to(role: Role, f: FrameModel) -> Option<FrameModel> {
    match f {
        FrameModel::Text(_) | FrameModel::Binary(_) => if role == Role::Server {
            Some(f)
        } else {
            None
        },
        FrameModel::Ping(p) => Some(FrameModel::Pong(p)),
        FrameModel::Pong(_) => None,
        FrameModel::Close(r) => Some(FrameModel::Close(r)),
    }
}

/// The message handed to the client's display: any Text or Binary frame read.
pub open spec fn delivered(role: Role, p: Phase, f: FrameModel) -> Option<FrameModel> {
    if role == Role::Client && reads(p) && (f is Text || f is Binary) {
        Some(f)
    } else {
        None
    }
}

/// One transition: the next phase and the frame sent, if any.
pub open spec fn step(role: Role, p: Phase, e: Event) -> (Phase, Option<FrameModel>) {
    match e {
        Event::Inbound(f) => if p is Open {
            if f is Close {
                (Phase::Closing(Initiator::Remote), Some(f))
            } else {
                (p, reply_to(role, f))
            }
        } else if p == Phase::Closing(Initiator::Local) && f is Close {
            (Phase::Closed, None)
        } else {
            (p, None)
        },
        Event::Local(f) => if p is Open {
            if f is Close {
                (Phase::Closing(Initiator::Local), Some(f))
            } else {
                (p, Some(f))
            }
        } else {
            (p, None)
        },
        Event::Flushed => if p == Phase::Closing(Initiator::Remote) {
            (Phase::Closed, None)
        } else {
            (p, None)
        },
        Event::End => if p is Open {
            (Phase::Closed, Some(FrameModel::Close(None)))
        } else if p == Phase::Closing(Initiator::Local) {
            (Phase::Closed, None)
        } else {
            (p, None)
        },
        Event::Failure => (Phase::Closed, None),
    }
}

/// The phase reached and the frames sent, in order, by a session that
/// starts open and sees the events `evs`.
pub open spec fn run(role: Role, evs: Seq<Event>) -> (Phase, Seq<FrameModel>)
    decreases evs.len(),
{
    if evs.len() == 0 {
        (Phase::Open, Seq::empty())
    } else {
        let (p, sent) = run(role, evs.drop_last());
        let (q, o) = step(role, p, evs.last());
        match o {
            Some(f) => (q, sent.push(f)),
            None => (q, sent),
        }
    }
}

/// Some event of `evs` is a Close frame read from the peer.
pub open spec fn peer_closed(evs: Seq<Event>) -> bool {
    exists|i: int| 0 <= i < evs.len() && evs[i] is Inbound && evs[i]->Inbound_0 is Close
}

/// Some event of `evs` is the end of the inbound stream.
pub open spec fn stream_ended(evs: Seq<Event>) -> bool {
    exists|i: int| 0 <= i < evs.len() && evs[i] is End
}

/// Some event of `evs` is a decode or I/O failure.
pub open spec fn failed(evs: Seq<Event>) -> bool {
    exists|i: int| 0 <= i < evs.len() && evs[i] is Failure
}

/// Some frame of `sent` is a Close.
pub open spec fn close_sent(sent: Seq<FrameModel>) -> bool {
    exists|i: int| 0 <= i < sent.len() && sent[i] is Close
}

/// A Close is the last frame a connection sends: whatever events a session
/// sees, no frame follows a Close it has sent, and once a Close is sent the
/// connection is no longer open.
pub proof fn lemma_nothing_sent_after_close(role: Role, evs: Seq<Event>)
    ensures
        forall|i: int|
            0 <= i < run(role, evs).1.len() && (#[trigger] run(role, evs).1[i]) is Close ==> i
                == run(role, evs).1.len() - 1 && !(run(role, evs).0 is Open),
    decreases evs.len(),
{
    if evs.len() > 0 {
        lemma_nothing_sent_after_close(role, evs.drop_last());
        let (p, sent) = run(role, evs.drop_last());
        let (q, o) = step(role, p, evs.last());
        assert(!(p is Open) ==> o is None && !(q is Open));
        if let Some(f) = o {
            assert(run(role, evs).1 == sent.push(f));
            assert forall|i: int|
                0 <= i < sent.push(f).len() && (#[trigger] sent.push(f)[i]) is Close implies i
                    == sent.len() && !(q is Open) by {
                if i < sent.len() {
                    assert(sent[i] is Close);
                }
            }
        }
    }
}

proof fn lemma_close_handshake_steps(role: Role, evs: Seq<Event>)
    ensures
        run(role, evs).0 == Phase::Closing(Initiator::Local) ==> close_sent(run(role, evs).1),
        run(role, evs).0 == Phase::Closing(Initiator::Remote) ==> close_sent(run(role, evs).1)
            && peer_closed(evs),
        run(role, evs).0 == Phase::Closed ==> failed(evs) || (close_sent(run(role, evs).1) && (
        peer_closed(evs) || stream_ended(evs))),
    decreases evs.len(),
{
    if evs.len() > 0 {
        let prev = evs.drop_last();
        lemma_close_handshake_steps(role, prev);
        let (p, sent) = run(role, prev);
        let (q, o) = step(role, p, evs.last());
        let out = run(role, evs).1;
        assert(forall|i: int| 0 <= i < prev.len() ==> prev[i] == evs[i]);
        assert(forall|i: int| 0 <= i < sent.len() ==> sent[i] == out[i]);
        let k = evs.len() - 1;
        if close_sent(sent) {
            let j = choose|j: int| 0 <= j < sent.len() && sent[j] is Close;
            assert(out[j] is Close);
        }
        if peer_closed(prev) {
            let j = choose|j: int| 0 <= j < prev.len() && prev[j] is Inbound && prev[j]->Inbound_0 is Close;
            assert(evs[j] is Inbound);
        }
        if stream_ended(prev) {
            let j = choose|j: int| 0 <= j < prev.len() && prev[j] is End;
            assert(evs[j] is End);
        }
        if failed(prev) {
            let j = choose|j: int| 0 <= j < prev.len() && prev[j] is Failure;
            assert(evs[j] is Failure);
        }
        assert(evs[k] == evs.last());
        if let Some(f) = o {
            assert(out[sent.len() as int] == f);
        }
    }
}

/// Close handshake symmetry: a connection that reaches `Closed` without a
/// decode or I/O failure has sent its Close and has observed the peer's
/// Close or the end of the inbound stream, whichever side closed first.
pub proof fn lemma_closed_after_both_closes(role: Role, evs: Seq<Event>)
    requires
        run(role, evs).0 == Phase::Closed,
        !failed(evs),
    ensures
        close_sent(run(role, evs).1),
        peer_closed(evs) || stream_ended(evs),
{
    lemma_close_handshake_steps(role, evs);
}

/// The value of an optional frame.
pub open spec fn opt_view(o: Option<Frame>) -> Option<FrameModel> {
    match o {
        Some(f) => Some(f@),
        None => None,
    }
}

/// What the session does with one inbound frame.
pub struct Reaction {
    /// The frame to write to the peer.
    pub reply: Option<Frame>,
    /// The message for the local display.
    pub deliver: Option<Frame>,
}

/// The state machine of one negotiated connection.
pub struct Session {
    role: Role,
    phase: Phase,
}

impl Session {
    pub closed spec fn role_spec(&self) -> Role {
        self.role
    }

    pub closed spec fn phase_spec(&self) -> Phase {
        self.phase
    }

    /// A session that has just completed its upgrade handshake.
    pub fn new(role: Role) -> (r: Session)
        ensures
            r.role_spec() == role,
            r.phase_spec() == Phase::Open,
    {
        Session { role, phase: Phase::Open }
    }

    /// The end of the connection this session runs on.
    pub fn role(&self) -> (r: Role)
        ensures
            r == self.role_spec(),
    {
        self.role
    }

    /// Where the session is in its lifecycle.
    pub fn phase(&self) -> (r: Phase)
        ensures
            r == self.phase_spec(),
    {
        self.phase
    }

    /// Whether the next inbound frame is to be read.
    pub fn wants_read(&self) -> (r: bool)
        ensures
            r == reads(self.phase_spec()),
    {
        match self.phase {
            Phase::Open => true,
            Phase::Closing(Initiator::Local) => true,
            _ => false,
        }
    }

    /// Whether the connection has reached its terminal state.
    pub fn is_closed(&self) -> (r: bool)
        ensures
            r == (self.phase_spec() == Phase::Closed),
    {
        match self.phase {
            Phase::Closed => true,
            _ => false,
        }
    }

    /// Classifies a frame read from the peer.
    pub fn on_inbound(&mut self, frame: Frame) -> (r: Reaction)
        ensures
            final(self).role_spec() == old(self).role_spec(),
            (final(self).phase_spec(), opt_view(r.reply)) == step(
                old(self).role_spec(),
                old(self).phase_spec(),
                Event::Inbound(frame@),
            ),
            opt_view(r.deliver) == delivered(old(self).role_spec(), old(self).phase_spec(), frame@),
            // a Ping on an open connection is answered by a Pong with its payload
            old(self).phase_spec() is Open && frame@ is Ping ==> opt_view(r.reply) == Some(
                FrameModel::Pong(frame@->Ping_0),
            ),
            // a Pong is never answered
            frame@ is Pong ==> r.reply is None,
            // the server echoes Text and Binary frames unchanged
            old(self).role_spec() == Role::Server && old(self).phase_spec() is Open && (
            frame@ is Text || frame@ is Binary) ==> opt_view(r.reply) == Some(frame@),
    {
        let reads = self.wants_read();
        if !reads {
            return Reaction { reply: None, deliver: None };
        }
        let open = match self.phase {
            Phase::Open => true,
            _ => false,
        };
        match frame {
            Frame::Close(reason) => {
                if open {
                    self.phase = Phase::Closing(Initiator::Remote);
                    Reaction { reply: Some(Frame::Close(reason)), deliver: None }
                } else {
                    self.phase = Phase::Closed;
                    Reaction { reply: None, deliver: None }
                }
            },
            Frame::Ping(p) => {
                if open {
                    Reaction { reply: Some(Frame::Pong(p)), deliver: None }
                } else {
                    Reaction { reply: None, deliver: None }
                }
            },
            Frame::Pong(_) => Reaction { reply: None, deliver: None },
            Frame::Text(_) | Frame::Binary(_) => {
                match self.role {
                    Role::Server => {
                        if open {
                            Reaction { reply: Some(frame), deliver: None }
                        } else {
                            Reaction { reply: None, deliver: None }
                        }
                    },
                    Role::Client => Reaction { reply: None, deliver: Some(frame) },
                }
            },
        }
    }

    /// Takes a locally produced frame: it is to be sent unless a Close has
    /// already gone out; a Close starts a locally initiated close.
    pub fn on_local(&mut self, frame: Frame) -> (r: Option<Frame>)
        ensures
            final(self).role_spec() == old(self).role_spec(),
            (final(self).phase_spec(), opt_view(r)) == step(
                old(self).role_spec(),
                old(self).phase_spec(),
                Event::Local(frame@),
            ),
    {
        match self.phase {
            Phase::Open => {
                if frame.is_close() {
                    self.phase = Phase::Closing(Initiator::Local);
                }
                Some(frame)
            },
            _ => None,
        }
    }

    /// Records that the Close answering the peer's Close has been written.
    pub fn on_flushed(&mut self)
        ensures
            final(self).role_spec() == old(self).role_spec(),
            final(self).phase_spec() == step(
                old(self).role_spec(),
                old(self).phase_spec(),
                Event::Flushed,
            ).0,
    {
        match self.phase {
            Phase::Closing(Initiator::Remote) => {
                self.phase = Phase::Closed;
            },
            _ => {},
        }
    }

    /// Records the end of the inbound stream; on an open connection this
    /// ends the forwarding pipeline, and a Close goes out.
    pub fn on_end(&mut self) -> (r: Option<Frame>)
        ensures
            final(self).role_spec() == old(self).role_spec(),
            (final(self).phase_spec(), opt_view(r)) == step(
                old(self).role_spec(),
                old(self).phase_spec(),
                Event::End,
            ),
    {
        match self.phase {
            Phase::Open => {
                self.phase = Phase::Closed;
                Some(Frame::Close(None))
            },
            Phase::Closing(Initiator::Local) => {
                self.phase = Phase::Closed;
                None
            },
            _ => None,
        }
    }

    /// Records a malformed frame or an I/O error: the connection is dropped
    /// without a close handshake.
    pub fn on_failure(&mut self)
        ensures
            final(self).role_spec() == old(self).role_spec(),
            final(self).phase_spec() == step(
                old(self).role_spec(),
                old(self).phase_spec(),
                Event::Failure,
            ).0,
    {
        self.phase = Phase::Closed;
    }
}

} // verus!
