//! The bidirectional tunnel between an external client and a session
//! backend: which frames are forwarded where, what ends the bridge,
//! and the fidelity of delivery while it runs. The driver performs
//! the sends and bumps the session's activity stamp for every unit
//! this machine forwards.
use vstd::prelude::*;

verus! {

/// One tunnelled unit, as both WebSocket libraries frame it. `Raw`
/// stands for a low-level wire frame of the server-side library,
/// which the bridge drops.
pub enum Frame {
    Text(String),
    Binary(Vec<u8>),
    Ping(Vec<u8>),
    Pong(Vec<u8>),
    Close(Option<(u16, String)>),
    Raw,
}

/// What the driver observed.
pub enum BridgeEvent {
    FromServer(Frame),
    FromClient(Frame),
    ServerClosed,
    ClientClosed,
    SendToServerFailed,
    SendToClientFailed,
    PumpEnded,
    Shutdown,
    DeadlineExpired,
}

/// What the driver must do with the event.
pub enum BridgeAction {
    ForwardToClient(Frame),
    ForwardToServer(Frame),
    DropFrame,
    Stop,
}

/// The bridge: alive until any side ends, a send fails, the event
/// pump ends, the shutdown signal fires, or the deadline expires.
pub struct Bridge {
    pub running: bool,
}

/// One transition: the new liveness and the action taken.
pub open spec fn spec_step(running: bool, ev: BridgeEvent) -> (bool, BridgeAction) {
    if !running {
        (false, BridgeAction::Stop)
    } else {
        match ev {
            BridgeEvent::FromServer(f) => {
                if f is Raw {
                    (true, BridgeAction::DropFrame)
                } else {
                    (true, BridgeAction::ForwardToClient(f))
                }
            },
            BridgeEvent::FromClient(f) => (true, BridgeAction::ForwardToServer(f)),
            _ => (false, BridgeAction::Stop),
        }
    }
}

impl Bridge {
    pub fn new() -> (r: Self)
        ensures
            r.running,
    {
        Bridge { running: true }
    }

    /// Feed one event: while the bridge runs, frames of either side
    /// are forwarded verbatim to the other (raw wire frames dropped),
    /// and every terminating event stops it; a stopped bridge does
    /// nothing.
    pub fn step(&mut self, ev: BridgeEvent) -> (r: BridgeAction)
        ensures
            (final(self).running, r) == spec_step(old(self).running, ev),
    {
        if !self.running {
            return BridgeAction::Stop;
        }
        match ev {
            BridgeEvent::FromServer(f) => {
                match f {
                    Frame::Raw => BridgeAction::DropFrame,
                    other => BridgeAction::ForwardToClient(other),
                }
            },
            BridgeEvent::FromClient(f) => BridgeAction::ForwardToServer(f),
            _ => {
                self.running = false;
                BridgeAction::Stop
            },
        }
    }
}

/// The frames a run of the machine forwards to the server and to the
/// client, in order.
pub open spec fn spec_deliveries(running: bool, evs: Seq<BridgeEvent>) -> (Seq<Frame>, Seq<Frame>)
    decreases evs.len(),
{
    if evs.len() == 0 {
        (Seq::empty(), Seq::empty())
    } else {
        let step = spec_step(running, evs[0]);
        let rest = spec_deliveries(step.0, evs.drop_first());
        let to_server = match step.1 {
            BridgeAction::ForwardToServer(f) => seq![f] + rest.0,
            _ => rest.0,
        };
        let to_client = match step.1 {
            BridgeAction::ForwardToClient(f) => seq![f] + rest.1,
            _ => rest.1,
        };
        (to_server, to_client)
    }
}

/// The frames the client sent before the first terminating event.
pub open spec fn spec_client_sent(evs: Seq<BridgeEvent>) -> Seq<Frame>
    decreases evs.len(),
{
    if evs.len() == 0 {
        Seq::empty()
    } else {
        match evs[0] {
            BridgeEvent::FromClient(f) => seq![f] + spec_client_sent(evs.drop_first()),
            BridgeEvent::FromServer(_) => spec_client_sent(evs.drop_first()),
            _ => Seq::empty(),
        }
    }
}

/// The non-raw frames the server sent before the first terminating
/// event.
pub open spec fn spec_server_sent(evs: Seq<BridgeEvent>) -> Seq<Frame>
    decreases evs.len(),
{
    if evs.len() == 0 {
        Seq::empty()
    } else {
        match evs[0] {
            BridgeEvent::FromServer(f) => if f is Raw {
                spec_server_sent(evs.drop_first())
            } else {
                seq![f] + spec_server_sent(evs.drop_first())
            },
            BridgeEvent::FromClient(_) => spec_server_sent(evs.drop_first()),
            _ => Seq::empty(),
        }
    }
}

/// A stopped bridge delivers nothing.
pub proof fn lemma_stopped_delivers_nothing(evs: Seq<BridgeEvent>)
    ensures
        spec_deliveries(false, evs).0 == Seq::<Frame>::empty(),
        spec_deliveries(false, evs).1 == Seq::<Frame>::empty(),
    decreases evs.len(),
{
    if evs.len() > 0 {
        lemma_stopped_delivers_nothing(evs.drop_first());
    }
}

/// Bridge fidelity: for any sequence of events, every frame the
/// client sends before the bridge terminates is delivered to the
/// server, in order and unchanged, and nothing else is; likewise
/// every non-raw frame of the server is delivered to the client.
pub proof fn lemma_bridge_fidelity(evs: Seq<BridgeEvent>)
    ensures
        spec_deliveries(true, evs).0 == spec_client_sent(evs),
        spec_deliveries(true, evs).1 == spec_server_sent(evs),
    decreases evs.len(),
{
    if evs.len() > 0 {
        let step = spec_step(true, evs[0]);
        if step.0 {
            lemma_bridge_fidelity(evs.drop_first());
        } else {
            lemma_stopped_delivers_nothing(evs.drop_first());
        }
    }
}

/// The bytes a frame carries onto the TCP peer.
pub open spec fn spec_payload_bytes(f: Frame) -> Seq<u8> {
    match f {
        Frame::Text(s) => vstd::utf8::encode_utf8(s@),
        Frame::Binary(b) => b@,
        Frame::Ping(b) => b@,
        Frame::Pong(b) => b@,
        Frame::Close(Some(c)) => vstd::utf8::encode_utf8(c.1@),
        Frame::Close(None) => Seq::empty(),
        Frame::Raw => Seq::empty(),
    }
}

/// The bytes a frame carries onto a TCP peer, as the remote tunnel
/// writes them: text as its UTF-8 encoding, payloads verbatim, a
/// close frame as its reason.
pub fn frame_payload(f: Frame) -> (r: Vec<u8>)
    ensures
        r@ == spec_payload_bytes(f),
{
    match f {
        Frame::Text(s) => s.as_str().as_bytes_vec(),
        Frame::Binary(b) => b,
        Frame::Ping(b) => b,
        Frame::Pong(b) => b,
        Frame::Close(Some(c)) => c.1.as_str().as_bytes_vec(),
        Frame::Close(None) => Vec::new(),
        Frame::Raw => Vec::new(),
    }
}

} // verus!
