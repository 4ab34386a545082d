//! The device-capture actor.
//!
//! A single worker owns the device stream and consumes `CaptureCommand`s
//! from a channel. The actor itself is a verified state machine: each
//! command maps to the exact sequence of stream-lifecycle effects the host
//! must perform, and teardown of a previous stream (signal the callback,
//! drop the stream, join the processing thread — in that order) always
//! precedes opening a new one. At most one device stream is ever open.

use vstd::prelude::*;

verus! {

/// A command consumed exactly once by the capture actor.
pub enum CaptureCommand {
    /// Open the given device (or the default) and begin capturing.
    Start { device_id: Option<String> },
    /// Tear the current stream down, if any.
    Stop,
    /// Tear down and end the actor.
    Shutdown,
}

/// One observable stream-lifecycle action the host performs for the actor,
/// in the order given.
#[derive(Debug, Clone, PartialEq, Eq, Structural)]
pub enum CaptureEffect {
    /// Flip the capturing flag so the audio callback stops feeding samples.
    SignalStop,
    /// Drop the device stream, stopping hardware callbacks.
    DropStream,
    /// Join the processing thread after its final drain pass.
    JoinThread,
    /// A new device stream was built, played, and its processing thread
    /// spawned.
    StreamOpened,
    /// The actor loop ends.
    ExitLoop,
}

/// The capture actor's state between commands.
pub struct CaptureActor {
    /// Whether a device stream is currently open.
    pub stream_open: bool,
    /// Whether a Shutdown command has ended the actor.
    pub shut_down: bool,
}

/// Tearing down an open stream: signal, drop, join — in that order;
/// nothing when no stream is open.
pub open spec fn spec_teardown(open: bool) -> Seq<CaptureEffect> {
    if open {
        seq![CaptureEffect::SignalStop, CaptureEffect::DropStream, CaptureEffect::JoinThread]
    } else {
        Seq::<CaptureEffect>::empty()
    }
}

/// The effects of one command: full teardown of any previous stream first,
/// then the command's own action. `open_ok` tells whether the platform
/// accepted the new stream on Start.
pub open spec fn spec_step_effects(open: bool, cmd: CaptureCommand, open_ok: bool) -> Seq<
    CaptureEffect,
> {
    spec_teardown(open) + match cmd {
        CaptureCommand::Start { .. } => if open_ok {
            seq![CaptureEffect::StreamOpened]
        } else {
            Seq::<CaptureEffect>::empty()
        },
        CaptureCommand::Stop => Seq::<CaptureEffect>::empty(),
        CaptureCommand::Shutdown => seq![CaptureEffect::ExitLoop],
    }
}

/// Whether a stream is open after one command.
pub open spec fn spec_step_open(cmd: CaptureCommand, open_ok: bool) -> bool {
    match cmd {
        CaptureCommand::Start { .. } => open_ok,
        _ => false,
    }
}

impl CaptureActor {
    /// A fresh actor: no stream, running.
    pub fn new() -> (actor: Self)
        ensures
            !actor.stream_open,
            !actor.shut_down,
    {
        CaptureActor { stream_open: false, shut_down: false }
    }

    /// Consume one command. The host must perform exactly the returned
    /// effects, in order: any previous stream is fully torn down (signal,
    /// drop, join) before a new one is opened, so two streams never
    /// coexist. `open_ok` reports whether the platform accepted the new
    /// device stream; a refused Start leaves the actor with no stream and
    /// no crash.
    pub fn handle_command(&mut self, cmd: &CaptureCommand, open_ok: bool) -> (effects: Vec<
        CaptureEffect,
    >)
        requires
            !old(self).shut_down,
        ensures
            effects@ == spec_step_effects(old(self).stream_open, *cmd, open_ok),
            final(self).stream_open == spec_step_open(*cmd, open_ok),
            final(self).shut_down == (*cmd matches CaptureCommand::Shutdown),
    {
        let mut effects: Vec<CaptureEffect> = Vec::new();
        if self.stream_open {
            effects.push(CaptureEffect::SignalStop);
            effects.push(CaptureEffect::DropStream);
            effects.push(CaptureEffect::JoinThread);
            self.stream_open = false;
        }
        match cmd {
            CaptureCommand::Start { .. } => {
                if open_ok {
                    effects.push(CaptureEffect::StreamOpened);
                    self.stream_open = true;
                }
            },
            CaptureCommand::Stop => {},
            CaptureCommand::Shutdown => {
                effects.push(CaptureEffect::ExitLoop);
                self.shut_down = true;
            },
        }
        proof {
            assert(effects@ =~= spec_step_effects(old(self).stream_open, *cmd, open_ok));
        }
        effects
    }
}

/// The whole effect trace of a run: one step per command until (and
/// including) the first Shutdown. `open` is whether a stream is open when
/// the run begins.
pub open spec fn spec_trace(open: bool, steps: Seq<(CaptureCommand, bool)>) -> Seq<CaptureEffect>
    decreases steps.len(),
{
    if steps.len() == 0 {
        Seq::<CaptureEffect>::empty()
    } else {
        let (cmd, ok) = steps[0];
        spec_step_effects(open, cmd, ok) + if (cmd matches CaptureCommand::Shutdown) {
            Seq::<CaptureEffect>::empty()
        } else {
            spec_trace(spec_step_open(cmd, ok), steps.drop_first())
        }
    }
}

/// How many streams were opened in a trace.
pub open spec fn spec_opened(t: Seq<CaptureEffect>) -> int
    decreases t.len(),
{
    if t.len() == 0 {
        0
    } else {
        (if (t[0] matches CaptureEffect::StreamOpened) {
            1int
        } else {
            0int
        }) + spec_opened(t.drop_first())
    }
}

/// How many streams were dropped in a trace.
pub open spec fn spec_dropped(t: Seq<CaptureEffect>) -> int
    decreases t.len(),
{
    if t.len() == 0 {
        0
    } else {
        (if (t[0] matches CaptureEffect::DropStream) {
            1int
        } else {
            0int
        }) + spec_dropped(t.drop_first())
    }
}

/// Streams alive after a trace that began with `init` streams alive.
pub open spec fn spec_alive(init: int, t: Seq<CaptureEffect>) -> int {
    init + spec_opened(t) - spec_dropped(t)
}

proof fn lemma_opened_concat(a: Seq<CaptureEffect>, b: Seq<CaptureEffect>)
    ensures
        spec_opened(a + b) == spec_opened(a) + spec_opened(b),
        spec_dropped(a + b) == spec_dropped(a) + spec_dropped(b),
    decreases a.len(),
{
    if a.len() == 0 {
        assert(a + b =~= b);
    } else {
        assert((a + b).drop_first() =~= a.drop_first() + b);
        lemma_opened_concat(a.drop_first(), b);
    }
}

proof fn lemma_step_prefix_bounds(open: bool, cmd: CaptureCommand, ok: bool, k: int)
    requires
        0 <= k <= spec_step_effects(open, cmd, ok).len(),
    ensures
        0 <= spec_alive(if open { 1int } else { 0int }, spec_step_effects(open, cmd, ok).take(k))
            <= 1,
        spec_alive(if open { 1int } else { 0int }, spec_step_effects(open, cmd, ok)) == (
        if spec_step_open(cmd, ok) {
            1int
        } else {
            0int
        }),
{
    let e = spec_step_effects(open, cmd, ok);
    reveal_with_fuel(spec_opened, 6);
    reveal_with_fuel(spec_dropped, 6);
    // A step has at most four effects; enumerate the prefixes.
    if k == 0 {
        assert(e.take(k) =~= Seq::<CaptureEffect>::empty());
    } else if k == 1 {
        assert(e.take(k) =~= seq![e[0]]);
    } else if k == 2 {
        assert(e.take(k) =~= seq![e[0], e[1]]);
    } else if k == 3 {
        assert(e.take(k) =~= seq![e[0], e[1], e[2]]);
    } else {
        assert(e.take(k) =~= seq![e[0], e[1], e[2], e[3]]);
    }
    if e.len() == 0 {
        assert(e =~= Seq::<CaptureEffect>::empty());
    } else if e.len() == 1 {
        assert(e =~= seq![e[0]]);
    } else if e.len() == 3 {
        assert(e =~= seq![e[0], e[1], e[2]]);
    } else {
        assert(e =~= seq![e[0], e[1], e[2], e[3]]);
    }
}

/// At most one device stream exists at any instant: for a run that begins
/// with no stream open, after every prefix of the effect trace of any
/// command sequence the number of opened-and-not-yet-dropped streams is
/// zero or one.
pub proof fn lemma_at_most_one_stream(open: bool, steps: Seq<(CaptureCommand, bool)>, k: int)
    requires
        0 <= k <= spec_trace(open, steps).len(),
    ensures
        0 <= spec_alive(if open { 1int } else { 0int }, spec_trace(open, steps).take(k)) <= 1,
    decreases steps.len(),
{
    if steps.len() == 0 {
        reveal_with_fuel(spec_opened, 1);
        reveal_with_fuel(spec_dropped, 1);
        assert(spec_trace(open, steps).take(k) =~= Seq::<CaptureEffect>::empty());
    } else {
        let (cmd, ok) = steps[0];
        let e = spec_step_effects(open, cmd, ok);
        let rest = if (cmd matches CaptureCommand::Shutdown) {
            Seq::<CaptureEffect>::empty()
        } else {
            spec_trace(spec_step_open(cmd, ok), steps.drop_first())
        };
        let init: int = if open {
            1
        } else {
            0
        };
        if k <= e.len() {
            assert(spec_trace(open, steps).take(k) =~= e.take(k));
            lemma_step_prefix_bounds(open, cmd, ok, k);
        } else {
            let k2 = k - e.len();
            assert(spec_trace(open, steps).take(k) =~= e + rest.take(k2));
            lemma_opened_concat(e, rest.take(k2));
            lemma_step_prefix_bounds(open, cmd, ok, e.len() as int);
            assert(e.take(e.len() as int) =~= e);
            let init2: int = if spec_step_open(cmd, ok) {
                1
            } else {
                0
            };
            assert(spec_alive(init, e) == init2);
            if (cmd matches CaptureCommand::Shutdown) {
                reveal_with_fuel(spec_opened, 1);
                reveal_with_fuel(spec_dropped, 1);
                assert(rest.take(k2) =~= Seq::<CaptureEffect>::empty());
            } else {
                lemma_at_most_one_stream(spec_step_open(cmd, ok), steps.drop_first(), k2);
            }
        }
    }
}

} // verus!
