use vstd::prelude::*;
use vstd::string::StringExecFns;

verus! {

/// What reaches the forwarder: a frame from the input port, word that the
/// output sink rejected the last frame, or the operator's stop signal.
pub enum Inbound {
    Frame(Vec<u8>),
    SendFailed,
    Stop,
}

/// What the forwarder asks of the transport.
pub enum Outbound {
    /// Submit these bytes to the output sink.
    Send(Vec<u8>),
    /// Show this line to the operator; forwarding goes on.
    Report(String),
    /// Close the subscription.
    Close,
    /// Nothing to do.
    Idle,
}

/// The state of a forwarding subscription.
pub struct Forwarder {
    pub active: bool,
    /// Frames handed to the output sink, saturating at `u64::MAX`.
    pub forwarded: u64,
    /// Frames the output sink rejected, saturating at `u64::MAX`.
    pub failures: u64,
}

/// The abstract state: whether the subscription is live.
pub open spec fn live_after(active: bool, ev: Inbound) -> bool {
    match ev {
        Inbound::Stop => false,
        _ => active,
    }
}

/// The bytes a step hands to the output sink, if any.
pub open spec fn sent_by(active: bool, ev: Inbound) -> Option<Seq<u8>> {
    match ev {
        Inbound::Frame(f) => if active { Some(f@) } else { None },
        _ => None,
    }
}

/// The bytes sent, in order, when `evs` reach a subscription one after another.
pub open spec fn relayed(active: bool, evs: Seq<Inbound>) -> Seq<Seq<u8>>
    decreases evs.len(),
{
    if evs.len() == 0 {
        Seq::empty()
    } else {
        let rest = relayed(live_after(active, evs[0]), evs.drop_first());
        match sent_by(active, evs[0]) {
            Some(b) => seq![b] + rest,
            None => rest,
        }
    }
}

/// The bytes of the frames in a sequence of frame events.
pub open spec fn frame_bytes(evs: Seq<Inbound>) -> Seq<Seq<u8>> {
    evs.map_values(|e: Inbound| e->Frame_0@)
}

impl Forwarder {
    /// A live subscription that has forwarded nothing yet.
    pub fn new() -> (r: Forwarder)
        ensures
            r.active,
            r.forwarded == 0,
            r.failures == 0,
    {
        Forwarder { active: true, forwarded: 0, failures: 0 }
    }

    /// Handles one inbound event. A frame is copied byte for byte to the sink
    /// while the subscription is live; a rejected send is reported and does not
    /// end forwarding; only a stop signal does.
    pub fn step(&mut self, ev: Inbound) -> (r: Outbound)
        ensures
            final(self).active == live_after(old(self).active, ev),
            sent_by(old(self).active, ev) matches Some(b) ==> r matches Outbound::Send(s) && s@
                == b,
            r matches Outbound::Send(s) ==> sent_by(old(self).active, ev) == Some(s@),
            final(self).forwarded == if sent_by(old(self).active, ev) is Some {
                if old(self).forwarded == u64::MAX { u64::MAX } else { (old(self).forwarded + 1) as u64 }
            } else {
                old(self).forwarded
            },
            final(self).failures == if ev is SendFailed {
                if old(self).failures == u64::MAX { u64::MAX } else { (old(self).failures + 1) as u64 }
            } else {
                old(self).failures
            },
            ev is SendFailed ==> (r matches Outbound::Report(m) && m@ == "Error sending this message"@),
            ev is Stop ==> r is Close,
            (ev is Frame && !old(self).active) ==> r is Idle,
    {
        match ev {
            Inbound::Frame(f) => {
                if self.active {
                    self.forwarded = self.forwarded.saturating_add(1);
                    Outbound::Send(f)
                } else {
                    Outbound::Idle
                }
            },
            Inbound::SendFailed => {
                self.failures = self.failures.saturating_add(1);
                Outbound::Report(String::from_str("Error sending this message"))
            },
            Inbound::Stop => {
                self.active = false;
                Outbound::Close
            },
        }
    }

    /// Hands `frames` to the subscription one after another, through `step`,
    /// and returns what it sends. Forwarding is byte-identical and keeps
    /// order: on a live subscription the frames sent are exactly the frames
    /// received, none dropped, duplicated or reordered.
    pub fn relay_frames(&mut self, frames: &Vec<Vec<u8>>) -> (r: Vec<Vec<u8>>)
        ensures
            final(self).active == old(self).active,
            old(self).active ==> r@.len() == frames@.len(),
            old(self).active ==> forall|i: int|
                0 <= i < frames@.len() ==> #[trigger] r@[i]@ == frames@[i]@,
            !old(self).active ==> r@.len() == 0,
    {
        let mut sent: Vec<Vec<u8>> = Vec::new();
        let mut i: usize = 0;
        while i < frames.len()
            invariant
                i <= frames@.len(),
                self.active == old(self).active,
                self.active ==> sent@.len() == i,
                self.active ==> forall|j: int| 0 <= j < i ==> #[trigger] sent@[j]@ == frames@[j]@,
                !self.active ==> sent@.len() == 0,
            decreases frames.len() - i,
        {
            let ev = Inbound::Frame(copy_frame(frames[i].as_slice()));
            match self.step(ev) {
                Outbound::Send(b) => sent.push(b),
                _ => {},
            }
            i = i + 1;
        }
        sent
    }
}

/// Copies a frame that the transport lends for the length of its callback.
pub fn copy_frame(frame: &[u8]) -> (r: Vec<u8>)
    ensures
        r@ == frame@,
{
    let mut v: Vec<u8> = Vec::new();
    let mut i: usize = 0;
    while i < frame.len()
        invariant
            i <= frame.len(),
            v@ == frame@.subrange(0, i as int),
        decreases frame.len() - i,
    {
        v.push(frame[i]);
        i = i + 1;
    }
    assert(frame@.subrange(0, frame@.len() as int) =~= frame@);
    v
}

/// On a live subscription the bytes relayed for a run of frame events are
/// exactly the frames received, in the order received.
pub proof fn lemma_relay_identity(evs: Seq<Inbound>)
    requires
        forall|i: int| 0 <= i < evs.len() ==> #[trigger] evs[i] is Frame,
    ensures
        relayed(true, evs) == frame_bytes(evs),
    decreases evs.len(),
{
    if evs.len() > 0 {
        let rest = evs.drop_first();
        assert forall|i: int| 0 <= i < rest.len() implies #[trigger] rest[i] is Frame by {
            assert(rest[i] == evs[i + 1]);
        }
        lemma_relay_identity(rest);
        assert(seq![evs[0]->Frame_0@] + frame_bytes(rest) =~= frame_bytes(evs));
    }
}

/// A rejected send does not end forwarding: what is relayed afterwards is
/// what would have been relayed without it.
pub proof fn lemma_send_failure_harmless(active: bool, evs: Seq<Inbound>)
    ensures
        relayed(active, seq![Inbound::SendFailed] + evs) == relayed(active, evs),
{
    let all = seq![Inbound::SendFailed] + evs;
    assert(all.drop_first() =~= evs);
}

} // verus!
