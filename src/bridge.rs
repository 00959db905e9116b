use vstd::prelude::*;

use crate::signal::{kind_of_name, ParseError, SignalKind};

verus! {

/// The key under which the script engine's callback registry holds a handler.
#[derive(Debug, Clone, Copy, PartialEq, Eq, Structural)]
pub struct CallbackHandle {
    pub key: u64,
}

/// Where a receive loop stands.
#[derive(Debug, Clone, Copy, PartialEq, Eq, Structural)]
pub enum LoopPhase {
    /// Waiting for the next delivery.
    Listening,
    /// A script handler runs; the loop waits for it to finish.
    Dispatching,
    /// The loop has ended after a failed resolution or a failed handler.
    Stopped,
}

/// What the host reports to a receive loop.
#[derive(Debug, Clone, Copy, PartialEq, Eq, Structural)]
pub enum LoopEvent {
    /// The operating system delivered the signal.
    Delivered,
    /// The script handler that was invoked has finished.
    HandlerDone,
    /// The script handler that was invoked raised an error.
    HandlerFailed,
    /// The handler's key no longer resolves in the callback registry.
    ResolveFailed,
}

/// What the host must do next for a receive loop.
#[derive(Debug, Clone, Copy, PartialEq, Eq, Structural)]
pub enum LoopAction {
    /// Resolve the handle afresh in the registry, call the handler with no
    /// arguments and report its completion.
    Invoke(CallbackHandle),
    /// Apply the signal's default behaviour (`SignalKind::default_action`); the loop
    /// keeps listening.
    RunDefault,
    /// Nothing to do until the next event.
    Wait,
    /// The loop is over; stop listening.
    Stop,
}

/// One subscription: a receive loop for one signal, with the optional script handler
/// that takes priority over the signal's default behaviour.
#[derive(Debug, Clone, Copy, PartialEq, Eq, Structural)]
pub struct SignalLoop {
    pub kind: SignalKind,
    pub handler: Option<CallbackHandle>,
    pub phase: LoopPhase,
    /// A delivery arrived while the handler ran; it is served once the handler is done.
    pub pending: bool,
}

/// A freshly installed loop.
pub open spec fn fresh_loop(kind: SignalKind, handler: Option<CallbackHandle>) -> SignalLoop {
    SignalLoop { kind, handler, phase: LoopPhase::Listening, pending: false }
}

/// The loop's next state and action after an event.
pub open spec fn step_spec(s: SignalLoop, ev: LoopEvent) -> (SignalLoop, LoopAction) {
    match s.phase {
        LoopPhase::Stopped => (s, LoopAction::Stop),
        LoopPhase::Listening => match ev {
            LoopEvent::Delivered => match s.handler {
                Some(h) => (SignalLoop { phase: LoopPhase::Dispatching, ..s }, LoopAction::Invoke(h)),
                None => (s, LoopAction::RunDefault),
            },
            _ => (s, LoopAction::Wait),
        },
        LoopPhase::Dispatching => match ev {
            LoopEvent::Delivered => (SignalLoop { pending: true, ..s }, LoopAction::Wait),
            LoopEvent::HandlerDone => if s.pending {
                (SignalLoop { pending: false, ..s }, LoopAction::Invoke(s.handler.unwrap()))
            } else {
                (SignalLoop { phase: LoopPhase::Listening, ..s }, LoopAction::Wait)
            },
            _ => (SignalLoop { phase: LoopPhase::Stopped, pending: false, ..s }, LoopAction::Stop),
        },
    }
}

impl SignalLoop {
    /// A loop's own invariant: only a loop with a handler ever dispatches, and only a
    /// dispatching loop holds a delivery back.
    pub open spec fn wf(self) -> bool {
        &&& self.phase is Dispatching ==> self.handler is Some
        &&& self.pending ==> self.phase is Dispatching
    }

    /// A loop that listens for `kind`, with `handler` taking priority over the default.
    pub fn new(kind: SignalKind, handler: Option<CallbackHandle>) -> (r: SignalLoop)
        ensures
            r == fresh_loop(kind, handler),
            r.wf(),
    {
        SignalLoop { kind, handler, phase: LoopPhase::Listening, pending: false }
    }

    /// Advances the loop by one event and says what the host must do.
    pub fn step(&mut self, ev: LoopEvent) -> (act: LoopAction)
        requires
            old(self).wf(),
        ensures
            final(self).wf(),
            (*final(self), act) == step_spec(*old(self), ev),
    {
        match self.phase {
            LoopPhase::Stopped => LoopAction::Stop,
            LoopPhase::Listening => match ev {
                LoopEvent::Delivered => match self.handler {
                    Some(h) => {
                        self.phase = LoopPhase::Dispatching;
                        LoopAction::Invoke(h)
                    },
                    None => LoopAction::RunDefault,
                },
                _ => LoopAction::Wait,
            },
            LoopPhase::Dispatching => match ev {
                LoopEvent::Delivered => {
                    self.pending = true;
                    LoopAction::Wait
                },
                LoopEvent::HandlerDone => {
                    if self.pending {
                        self.pending = false;
                        match self.handler {
                            Some(h) => LoopAction::Invoke(h),
                            None => LoopAction::Stop,
                        }
                    } else {
                        self.phase = LoopPhase::Listening;
                        LoopAction::Wait
                    }
                },
                _ => {
                    self.phase = LoopPhase::Stopped;
                    self.pending = false;
                    LoopAction::Stop
                },
            },
        }
    }
}

/// Every receive loop installed by the host, in the order of subscription.
pub struct Subscriptions {
    loops: Vec<SignalLoop>,
}

/// The loops after event `ev` reached loop `id`.
pub open spec fn deliver_spec(loops: Seq<SignalLoop>, id: int, ev: LoopEvent) -> Seq<SignalLoop> {
    loops.update(id, step_spec(loops[id], ev).0)
}

impl View for Subscriptions {
    type V = Seq<SignalLoop>;

    closed spec fn view(&self) -> Seq<SignalLoop> {
        self.loops@
    }
}

impl Subscriptions {
    pub open spec fn wf(&self) -> bool {
        forall|i: int| 0 <= i < self@.len() ==> #[trigger] self@[i].wf()
    }

    /// No loop installed yet.
    pub fn new() -> (r: Subscriptions)
        ensures
            r@ == Seq::<SignalLoop>::empty(),
            r.wf(),
    {
        Subscriptions { loops: Vec::new() }
    }

    /// The number of installed loops.
    pub fn len(&self) -> (r: usize)
        ensures
            r == self@.len(),
    {
        self.loops.len()
    }

    /// The loop installed under `id`.
    pub fn get(&self, id: usize) -> (r: SignalLoop)
        requires
            id < self@.len(),
        ensures
            r == self@[id as int],
    {
        self.loops[id]
    }

    /// Installs one more loop for `kind`; an earlier loop for the same signal stays, and
    /// both are served. Returns the new loop's id.
    pub fn add(&mut self, kind: SignalKind, handler: Option<CallbackHandle>) -> (id: usize)
        requires
            old(self).wf(),
        ensures
            final(self).wf(),
            final(self)@ == old(self)@.push(fresh_loop(kind, handler)),
            id == old(self)@.len(),
    {
        let lp = SignalLoop::new(kind, handler);
        let id = self.loops.len();
        self.loops.push(lp);
        proof {
            assert forall|i: int| 0 <= i < self@.len() implies #[trigger] self@[i].wf() by {
                if i < id as int {
                    assert(self@[i] == old(self)@[i]);
                }
            }
        }
        id
    }

    /// Subscribes to the signal named `name`: installs exactly one loop and returns its id,
    /// or, for a name that denotes no signal, installs nothing and fails.
    pub fn subscribe(&mut self, name: &str, handler: Option<CallbackHandle>) -> (r: Result<usize, ParseError>)
        requires
            old(self).wf(),
        ensures
            final(self).wf(),
            match kind_of_name(name@) {
                Some(k) => r == Ok::<usize, ParseError>(old(self)@.len() as usize)
                    && final(self)@ == old(self)@.push(fresh_loop(k, handler)),
                None => r is Err && r->Err_0.name@ == name@ && final(self)@ == old(self)@,
            },
    {
        match SignalKind::from_name(name) {
            Ok(kind) => Ok(self.add(kind, handler)),
            Err(e) => Err(e),
        }
    }

    /// Hands event `ev` to loop `id` and returns what the host must do for it; the
    /// other loops are left as they were.
    pub fn deliver(&mut self, id: usize, ev: LoopEvent) -> (act: LoopAction)
        requires
            old(self).wf(),
            id < old(self)@.len(),
        ensures
            final(self).wf(),
            final(self)@ == deliver_spec(old(self)@, id as int, ev),
            act == step_spec(old(self)@[id as int], ev).1,
    {
        let mut lp = self.loops[id];
        let act = lp.step(ev);
        self.loops.set(id, lp);
        proof {
            assert forall|i: int| 0 <= i < self@.len() implies #[trigger] self@[i].wf() by {
                if i != id as int {
                    assert(self@[i] == old(self)@[i]);
                }
            }
        }
        act
    }
}

/// Handler invocations of one signal are sequential: a loop invokes its handler only
/// when it was listening and the signal arrived, or when the previous invocation has
/// finished; after an invocation it is dispatching, so a further delivery is held back
/// until the handler is done.
pub proof fn lemma_sequential_invocation(s: SignalLoop, ev: LoopEvent)
    requires
        s.wf(),
    ensures
        step_spec(s, ev).1 is Invoke ==> step_spec(s, ev).0.phase is Dispatching,
        step_spec(s, ev).1 is Invoke ==> (s.phase is Listening && ev is Delivered)
            || (s.phase is Dispatching && ev is HandlerDone),
        s.phase is Dispatching && ev is Delivered ==> step_spec(s, ev).1 is Wait,
        s.phase is Listening && ev is Delivered && s.handler is Some
            ==> step_spec(s, ev).1 == LoopAction::Invoke(s.handler.unwrap()),
{
}

/// Loops of different subscriptions do not wait on each other: an event for one loop
/// leaves every other loop as it was.
pub proof fn lemma_loops_independent(loops: Seq<SignalLoop>, id: int, other: int, ev: LoopEvent)
    requires
        0 <= id < loops.len(),
        0 <= other < loops.len(),
        id != other,
    ensures
        deliver_spec(loops, id, ev)[other] == loops[other],
        deliver_spec(loops, id, ev).len() == loops.len(),
{
}

} // verus!
