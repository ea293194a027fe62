//! The push-mode pump protocol.
//!
//! A session spawned in push mode is driven by a background task instead of
//! explicit `read`/`write` calls: the task repeatedly performs one bounded
//! backend read and republishes each non-empty chunk as an outbound event on
//! the session's channel, while an inbound subscription feeds each delivered
//! message to the backend input stream. The task runs until the stream ends,
//! a read fails, or a publish fails; on exit the inbound subscription is
//! torn down (the registry entry is not removed).
//!
//! The unverified driver owns the loop, the channels and the backend; each
//! iteration it hands what happened as a [`PumpEvent`] to [`Pump::step`],
//! which decides the phase transition and the single [`PumpAction`] the
//! driver must perform next. The phase machine is `Spawned -> Pumping ->
//! Terminated`: pumping begins right after spawn, and `Terminated` — entered
//! on the first end-of-stream, read failure or publish failure — is final.
//! A killed child is observed as a read failure, not as a phase of its own.

use vstd::prelude::*;
use vstd::utf8::decode_utf8;
use vstd::utf8::encode_utf8;
use vstd::utf8::valid_utf8;

use crate::codec::decode_chunk;
use crate::codec::encode_input;
use crate::codec::lossy_decode;

verus! {

/// The single-field text envelope carried on a session's two handle-scoped
/// event channels: inbound it wraps text bound for the backend input stream,
/// outbound it wraps one republished chunk of backend output.
pub struct Payload {
    /// The text carried by the event.
    pub message: String,
}

/// Whether a malformed inbound envelope ends the whole pump or only loses
/// that message. Left ambiguous upstream, so it is an explicit choice here.
#[derive(Clone, Copy, PartialEq, Eq, Structural, Debug)]
pub struct PumpConfig {
    /// If set, an inbound message that fails to decode terminates the pump;
    /// otherwise only that message's delivery is aborted.
    pub fatal_decode_failure: bool,
}

/// The lifecycle phase of one push-mode session.
#[derive(Clone, Copy, PartialEq, Eq, Structural, Debug)]
pub enum PumpPhase {
    /// The session's resources exist; the pump task has not started yet.
    Spawned,
    /// The pump task is running; the only non-terminal working phase.
    Pumping,
    /// The pump is over; no event leads out of this phase.
    Terminated,
}

/// What the driver observed since the last step.
pub enum PumpEvent {
    /// The pump task started.
    Started,
    /// One bounded read returned these bytes (an empty chunk carries no
    /// data and is not republished).
    Chunk(Vec<u8>),
    /// The backend output stream ended.
    EndOfStream,
    /// A backend read failed; the description is the backend's own.
    ReadFailed(String),
    /// Publishing an outbound event failed (no listeners, transport gone).
    PublishFailed,
    /// The inbound subscription delivered this decoded envelope.
    Inbound(Payload),
    /// The inbound subscription delivered an envelope that failed to decode.
    InboundMalformed,
}

/// What the driver must do before reporting the next event.
pub enum PumpAction {
    /// Nothing; keep going.
    Idle,
    /// Publish this envelope as an outbound event on the session's channel.
    Publish(Payload),
    /// Write these bytes to the backend input stream.
    Feed(Vec<u8>),
    /// Tear down the inbound subscription; the pump is over.
    TearDown,
}

/// Whether this event ends the pump when it is pumping.
pub open spec fn terminating_event(cfg: PumpConfig, e: &PumpEvent) -> bool {
    ||| e is EndOfStream
    ||| e is ReadFailed
    ||| e is PublishFailed
    ||| (e is InboundMalformed && cfg.fatal_decode_failure)
}

/// The phase after one event: pumping begins on `Started`, a terminating
/// event while pumping ends the pump, and `Terminated` is final.
pub open spec fn next_phase(cfg: PumpConfig, p: PumpPhase, e: &PumpEvent) -> PumpPhase {
    match p {
        PumpPhase::Spawned => if e is Started {
            PumpPhase::Pumping
        } else {
            PumpPhase::Spawned
        },
        PumpPhase::Pumping => if terminating_event(cfg, e) {
            PumpPhase::Terminated
        } else {
            PumpPhase::Pumping
        },
        PumpPhase::Terminated => PumpPhase::Terminated,
    }
}

/// Whether this step publishes an outbound event: only a non-empty chunk
/// read while pumping is republished.
pub open spec fn publishes(p: PumpPhase, e: &PumpEvent) -> bool {
    &&& p is Pumping
    &&& e matches PumpEvent::Chunk(b) && b@.len() > 0
}

/// Whether this step feeds inbound text to the backend input stream.
pub open spec fn feeds(p: PumpPhase, e: &PumpEvent) -> bool {
    &&& p is Pumping
    &&& e is Inbound
}

/// The pump of one push-mode session.
pub struct Pump {
    phase: PumpPhase,
    config: PumpConfig,
}

impl Pump {
    /// The current lifecycle phase.
    pub closed spec fn phase(&self) -> PumpPhase {
        self.phase
    }

    /// The failure-scope choice this pump was created with.
    pub closed spec fn config(&self) -> PumpConfig {
        self.config
    }

    /// A pump for a freshly spawned push-mode session.
    pub fn new(config: PumpConfig) -> (r: Self)
        ensures
            r.phase() == PumpPhase::Spawned,
            r.config() == config,
    {
        Pump { phase: PumpPhase::Spawned, config }
    }

    /// The current phase, for a driver that polls it.
    pub fn current_phase(&self) -> (p: PumpPhase)
        ensures
            p == self.phase(),
    {
        self.phase
    }

    /// One step of the pump protocol: takes what the driver observed,
    /// moves to the next phase, and returns the one action the driver must
    /// perform. Once terminated, every event leaves the pump terminated and
    /// asks for nothing — no outbound event is published after termination.
    ///
    /// A non-empty chunk is republished as its lossy decoding; in
    /// particular, a chunk that is the UTF-8 encoding of some text — such as
    /// an echo of text fed in — is republished as exactly that text. An
    /// inbound message is fed to the backend as exactly the UTF-8 encoding
    /// of its text, in delivery order, one write per message.
    pub fn step(&mut self, event: PumpEvent) -> (a: PumpAction)
        ensures
            final(self).config() == old(self).config(),
            final(self).phase() == next_phase(old(self).config(), old(self).phase(), &event),
            a is Publish <==> publishes(old(self).phase(), &event),
            a matches PumpAction::Publish(p) ==> event matches PumpEvent::Chunk(b) && {
                &&& p.message@ == lossy_decode(b@)
                &&& valid_utf8(b@) ==> p.message@ == decode_utf8(b@)
                &&& forall|t: Seq<char>| b@ == #[trigger] encode_utf8(t) ==> p.message@ == t
            },
            a is Feed <==> feeds(old(self).phase(), &event),
            a matches PumpAction::Feed(bytes) ==> event matches PumpEvent::Inbound(p) && bytes@
                == encode_utf8(p.message@),
            a is TearDown <==> (old(self).phase() is Pumping && terminating_event(
                old(self).config(),
                &event,
            )),
    {
        match self.phase {
            PumpPhase::Spawned => {
                if let PumpEvent::Started = &event {
                    self.phase = PumpPhase::Pumping;
                }
                PumpAction::Idle
            },
            PumpPhase::Pumping => {
                match event {
                    PumpEvent::Started => PumpAction::Idle,
                    PumpEvent::Chunk(b) => {
                        if b.len() > 0 {
                            PumpAction::Publish(Payload { message: decode_chunk(b.as_slice()) })
                        } else {
                            PumpAction::Idle
                        }
                    },
                    PumpEvent::EndOfStream => {
                        self.phase = PumpPhase::Terminated;
                        PumpAction::TearDown
                    },
                    PumpEvent::ReadFailed(_) => {
                        self.phase = PumpPhase::Terminated;
                        PumpAction::TearDown
                    },
                    PumpEvent::PublishFailed => {
                        self.phase = PumpPhase::Terminated;
                        PumpAction::TearDown
                    },
                    PumpEvent::Inbound(p) => PumpAction::Feed(encode_input(p.message.as_str())),
                    PumpEvent::InboundMalformed => {
                        if self.config.fatal_decode_failure {
                            self.phase = PumpPhase::Terminated;
                            PumpAction::TearDown
                        } else {
                            PumpAction::Idle
                        }
                    },
                }
            },
            PumpPhase::Terminated => PumpAction::Idle,
        }
    }
}

/// The phase after a whole run of events.
pub open spec fn run_phases(cfg: PumpConfig, p: PumpPhase, events: Seq<PumpEvent>) -> PumpPhase
    decreases events.len(),
{
    if events.len() == 0 {
        p
    } else {
        next_phase(cfg, run_phases(cfg, p, events.drop_last()), &events.last())
    }
}

/// Termination is final: a terminated pump stays terminated through any run
/// of further events.
pub proof fn lemma_terminated_is_final(cfg: PumpConfig, events: Seq<PumpEvent>)
    ensures
        run_phases(cfg, PumpPhase::Terminated, events) == PumpPhase::Terminated,
    decreases events.len(),
{
    if events.len() > 0 {
        lemma_terminated_is_final(cfg, events.drop_last());
    }
}

/// No outbound event after termination: once some prefix of a run has
/// terminated the pump, no later event of the run publishes anything.
pub proof fn lemma_no_publish_after_termination(
    cfg: PumpConfig,
    p: PumpPhase,
    events: Seq<PumpEvent>,
    i: int,
    j: int,
)
    requires
        0 <= i <= j < events.len(),
        run_phases(cfg, p, events.take(i)) == PumpPhase::Terminated,
    ensures
        !publishes(run_phases(cfg, p, events.take(j)), &events[j]),
        run_phases(cfg, p, events.take(j)) == PumpPhase::Terminated,
    decreases j - i,
{
    if i == j {
    } else {
        lemma_no_publish_after_termination(cfg, p, events, i, j - 1);
        lemma_run_phases_snoc(cfg, p, events, j - 1);
    }
}

/// Running one more event is one more step.
proof fn lemma_run_phases_snoc(cfg: PumpConfig, p: PumpPhase, events: Seq<PumpEvent>, k: int)
    requires
        0 <= k < events.len(),
    ensures
        run_phases(cfg, p, events.take(k + 1)) == next_phase(
            cfg,
            run_phases(cfg, p, events.take(k)),
            &events[k],
        ),
{
    assert(events.take(k + 1).drop_last() =~= events.take(k));
    assert(events.take(k + 1).last() == events[k]);
}

} // verus!
