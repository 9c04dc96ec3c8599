//! Turning a subscription's results into a stream of `message` frames, raced
//! against the shutdown signal. The loop that waits lives with the caller;
//! this state machine decides what each event leads to.

use vstd::prelude::*;
use crate::engine::{encode_response, encoding_of};

verus! {

/// Where a subscription's stream stands.
#[derive(Debug, Clone, Copy, PartialEq, Eq, Structural)]
pub enum Phase {
    /// Results are still being pulled and sent.
    Running,
    /// The results ran out; the stream closed cleanly.
    Draining,
    /// Shutdown fired first; the stream was cut.
    Aborted,
    /// A result could not be encoded; the stream was closed.
    Failed,
}

/// What the stream's loop observed.
pub enum Signal {
    /// The next result, encoded as JSON.
    Pulled(String),
    /// The next result could not be encoded.
    EncodeFailed,
    /// The results ran out.
    Exhausted,
    /// The shutdown signal fired.
    ShutdownFired,
}

/// One server-sent event: its kind and its payload.
pub struct Frame {
    pub event: String,
    pub data: String,
}

/// What the stream's loop is to do next.
pub enum Directive {
    /// Send this frame, then pull again.
    Emit(Frame),
    /// Close the stream; what else to do follows from the new phase.
    Close,
    /// The stream is already closed: nothing to do.
    Ignore,
}

pub open spec fn is_terminal(p: Phase) -> bool {
    !(p is Running)
}

/// The phase after one signal.
pub open spec fn next_phase(p: Phase, s: Signal) -> Phase {
    match p {
        Phase::Running => match s {
            Signal::Pulled(_) => Phase::Running,
            Signal::EncodeFailed => Phase::Failed,
            Signal::Exhausted => Phase::Draining,
            Signal::ShutdownFired => Phase::Aborted,
        },
        _ => p,
    }
}

/// The payload of the frame sent on one signal, if one is sent.
pub open spec fn frame_sent(p: Phase, s: Signal) -> Option<Seq<char>> {
    match (p, s) {
        (Phase::Running, Signal::Pulled(data)) => Some(data@),
        _ => None,
    }
}

/// The phase after a run of signals.
pub open spec fn run_phase(p: Phase, ss: Seq<Signal>) -> Phase
    decreases ss.len(),
{
    if ss.len() == 0 {
        p
    } else {
        run_phase(next_phase(p, ss[0]), ss.drop_first())
    }
}

/// The payloads of the frames sent over a run of signals, in order.
pub open spec fn run_frames(p: Phase, ss: Seq<Signal>) -> Seq<Seq<char>>
    decreases ss.len(),
{
    if ss.len() == 0 {
        Seq::empty()
    } else {
        let rest = run_frames(next_phase(p, ss[0]), ss.drop_first());
        match frame_sent(p, ss[0]) {
            Some(d) => seq![d] + rest,
            None => rest,
        }
    }
}

impl Phase {
    /// The shutdown registration is still held and must be given back.
    pub fn releases_waiter(&self) -> (r: bool)
        ensures
            r == (*self is Draining || *self is Failed),
    {
        match self {
            Phase::Draining | Phase::Failed => true,
            _ => false,
        }
    }

    /// The result sequence is to be told to stop.
    pub fn stops_sequence(&self) -> (r: bool)
        ensures
            r == (*self is Aborted),
    {
        match self {
            Phase::Aborted => true,
            _ => false,
        }
    }

    /// The caller is to be told of a failure.
    pub fn reports_failure(&self) -> (r: bool)
        ensures
            r == (*self is Failed),
    {
        match self {
            Phase::Failed => true,
            _ => false,
        }
    }
}

impl Directive {
    pub open spec fn payload(self) -> Option<Seq<char>> {
        match self {
            Directive::Emit(f) => Some(f.data@),
            _ => None,
        }
    }
}

/// The state of one subscription's stream.
pub struct StreamAdapter {
    pub phase: Phase,
}

impl StreamAdapter {
    pub fn new() -> (r: Self)
        ensures
            r.phase is Running,
    {
        StreamAdapter { phase: Phase::Running }
    }

    pub fn is_closed(&self) -> (r: bool)
        ensures
            r == is_terminal(self.phase),
    {
        match self.phase {
            Phase::Running => false,
            _ => true,
        }
    }

    /// Takes one signal: while running, a result becomes one `message` frame
    /// and any other signal closes the stream; once closed, nothing happens.
    pub fn step(&mut self, signal: Signal) -> (r: Directive)
        ensures
            final(self).phase == next_phase(old(self).phase, signal),
            r.payload() == frame_sent(old(self).phase, signal),
            r is Emit ==> r->Emit_0.event@ == "message"@,
            r is Close <==> (old(self).phase is Running && !(signal is Pulled)),
            r is Ignore <==> is_terminal(old(self).phase),
    {
        match self.phase {
            Phase::Running => match signal {
                Signal::Pulled(data) => Directive::Emit(
                    Frame { event: String::from_str("message"), data },
                ),
                Signal::EncodeFailed => {
                    self.phase = Phase::Failed;
                    Directive::Close
                },
                Signal::Exhausted => {
                    self.phase = Phase::Draining;
                    Directive::Close
                },
                Signal::ShutdownFired => {
                    self.phase = Phase::Aborted;
                    Directive::Close
                },
            },
            _ => Directive::Ignore,
        }
    }

    /// Takes the next result of the subscription: it is encoded and sent as
    /// one frame, or, where it cannot be encoded, the stream fails.
    pub fn on_response(&mut self, response: &async_graphql::Response) -> (r: Directive)
        ensures
            old(self).phase is Running && encoding_of(*response) is Some ==> r is Emit
                && r.payload() == encoding_of(*response) && final(self).phase is Running,
            old(self).phase is Running && encoding_of(*response) is None ==> r is Close
                && final(self).phase is Failed,
            r is Emit ==> r->Emit_0.event@ == "message"@,
            is_terminal(old(self).phase) ==> r is Ignore && final(self).phase == old(self).phase,
    {
        let signal = match encode_response(response) {
            Ok(text) => Signal::Pulled(text),
            Err(_) => Signal::EncodeFailed,
        };
        self.step(signal)
    }
}

/// A closed stream stays closed and sends nothing more.
pub proof fn lemma_closed_stays_closed(p: Phase, ss: Seq<Signal>)
    requires
        is_terminal(p),
    ensures
        run_phase(p, ss) == p,
        run_frames(p, ss) == Seq::<Seq<char>>::empty(),
    decreases ss.len(),
{
    if ss.len() > 0 {
        lemma_closed_stays_closed(p, ss.drop_first());
    }
}

/// Running over two runs of signals, one after the other.
pub proof fn lemma_run_append(p: Phase, a: Seq<Signal>, b: Seq<Signal>)
    ensures
        run_phase(p, a + b) == run_phase(run_phase(p, a), b),
        run_frames(p, a + b) == run_frames(p, a) + run_frames(run_phase(p, a), b),
    decreases a.len(),
{
    if a.len() == 0 {
        assert(a + b =~= b);
    } else {
        assert((a + b).drop_first() =~= a.drop_first() + b);
        lemma_run_append(next_phase(p, a[0]), a.drop_first(), b);
    }
}

/// The signals of a subscription that yields `results`, encoded, and then
/// runs out.
pub open spec fn signals_of(results: Seq<String>) -> Seq<Signal> {
    results.map_values(|d: String| Signal::Pulled(d)).push(Signal::Exhausted)
}

/// Each result becomes exactly one frame, in the order it was produced, and
/// the stream then closes cleanly.
pub proof fn lemma_frames_follow_results(results: Seq<String>)
    ensures
        run_frames(Phase::Running, signals_of(results)) == results.map_values(|d: String| d@),
        run_phase(Phase::Running, signals_of(results)) == Phase::Draining,
    decreases results.len(),
{
    if results.len() > 0 {
        let rest = results.drop_first();
        lemma_frames_follow_results(rest);
        assert(signals_of(results).drop_first() =~= signals_of(rest));
        assert(signals_of(results)[0] == Signal::Pulled(results[0]));
        assert(results.map_values(|d: String| d@) =~= seq![results[0]@] + rest.map_values(
            |d: String| d@,
        ));
    } else {
        let ss = signals_of(results);
        assert(ss.drop_first() =~= Seq::<Signal>::empty());
        assert(ss[0] == Signal::Exhausted);
        assert(run_phase(Phase::Draining, ss.drop_first()) == Phase::Draining);
        assert(run_frames(Phase::Draining, ss.drop_first()) == Seq::<Seq<char>>::empty());
        assert(results.map_values(|d: String| d@) =~= Seq::<Seq<char>>::empty());
    }
}

/// Once shutdown fires, no further frame is sent whatever follows, and the
/// stream is closed; if it was still running, it is aborted.
pub proof fn lemma_nothing_after_shutdown(before: Seq<Signal>, after: Seq<Signal>)
    ensures
        run_frames(Phase::Running, before.push(Signal::ShutdownFired) + after) == run_frames(
            Phase::Running,
            before,
        ),
        is_terminal(run_phase(Phase::Running, before.push(Signal::ShutdownFired) + after)),
        run_phase(Phase::Running, before) is Running ==> run_phase(
            Phase::Running,
            before.push(Signal::ShutdownFired) + after,
        ) is Aborted,
{
    let fire = seq![Signal::ShutdownFired];
    assert(before.push(Signal::ShutdownFired) =~= before + fire);
    lemma_run_append(Phase::Running, before + fire, after);
    lemma_run_append(Phase::Running, before, fire);
    let mid = run_phase(Phase::Running, before);
    assert(fire.drop_first() =~= Seq::<Signal>::empty());
    assert(fire[0] == Signal::ShutdownFired);
    let next = next_phase(mid, Signal::ShutdownFired);
    assert(run_phase(next, fire.drop_first()) == next);
    assert(run_frames(next, fire.drop_first()) == Seq::<Seq<char>>::empty());
    assert(run_phase(mid, fire) == next);
    let p = run_phase(Phase::Running, before + fire);
    assert(is_terminal(p));
    lemma_closed_stays_closed(p, after);
    assert(run_frames(mid, fire) =~= Seq::<Seq<char>>::empty());
    assert(run_frames(Phase::Running, before) + Seq::<Seq<char>>::empty() =~= run_frames(
        Phase::Running,
        before,
    ));
}

} // verus!
