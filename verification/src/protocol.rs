use vstd::prelude::*;

verus! {

/// Where a generator stands in its run.
#[derive(Clone, Copy, Debug, PartialEq, Eq, Structural)]
pub enum GenState {
    /// The coroutine has returned or unwound; it will not run again.
    Complete,
    /// The coroutine has started and is suspended at a resume of its own.
    Yield,
    /// The coroutine has not started yet.
    Ready,
}

/// An unwind that travels from one stack to the other.
pub enum Unwind<P> {
    /// The marker that the owner injects to tear down a suspended coroutine.
    Dropping,
    /// A panic raised by the coroutine's body, with its payload.
    Panic(P),
}

/// What one generator of a pair holds besides its machine context: its state,
/// the value that its owner sends across, and the unwind waiting to be raised
/// on the other side.
pub struct Endpoint<T, P> {
    pub state: GenState,
    pub send: Option<T>,
    pub panic: Option<Unwind<P>>,
}

/// The endpoint `e` with `send` set to `v`.
pub open spec fn with_send<T, P>(e: Endpoint<T, P>, v: Option<T>) -> Endpoint<T, P> {
    Endpoint { state: e.state, send: v, panic: e.panic }
}

/// The endpoint `e` with `panic` set to `u`.
pub open spec fn with_panic<T, P>(e: Endpoint<T, P>, u: Option<Unwind<P>>) -> Endpoint<T, P> {
    Endpoint { state: e.state, send: e.send, panic: u }
}

/// A pair at rest: no value and no unwind is in flight in either direction.
pub open spec fn at_rest<S, R, P>(g: Endpoint<S, P>, d: Endpoint<R, P>) -> bool {
    &&& g.send is None
    &&& g.panic is None
    &&& d.send is None
    &&& d.panic is None
}

/// First half of a resume on `e` with `x`: a finished generator keeps `x` out
/// and asks for no switch; any other stores `x` for the other side and asks
/// for a switch to it.
pub open spec fn resume_enter_spec<T, P>(e: Endpoint<T, P>, x: T) -> (Endpoint<T, P>, bool) {
    match e.state {
        GenState::Complete => (e, false),
        _ => (with_send(e, Some(x)), true),
    }
}

/// Second half of a resume on `e`, once control has come back: a pending
/// unwind is taken and handed out to be raised; otherwise the value that the
/// other side `d` left is taken and returned.
pub open spec fn resume_leave_spec<T, R, P>(e: Endpoint<T, P>, d: Endpoint<R, P>) -> (
    Endpoint<T, P>,
    Endpoint<R, P>,
    Result<Option<R>, Unwind<P>>,
) {
    match e.panic {
        Some(u) => (with_panic(e, None), d, Err(u)),
        None => (e, with_send(d, None), Ok(d.send)),
    }
}

/// The coroutine's first step on its own stack: the generator becomes
/// suspended-capable and the value of the first resume is taken as the start
/// argument.
pub open spec fn bootstrap_start_spec<T, P>(e: Endpoint<T, P>) -> (Endpoint<T, P>, T)
    recommends
        e.send is Some,
{
    (Endpoint { state: GenState::Yield, send: None, panic: e.panic }, e.send->0)
}

/// What the coroutine's body leaves behind in `e` when it ends, normally
/// (`caught` is `None`) or by an unwind: the teardown marker is swallowed, a
/// panic is kept for the caller, and the generator is complete.
pub open spec fn bootstrap_finish_spec<T, P>(e: Endpoint<T, P>, caught: Option<Unwind<P>>) -> Endpoint<T, P> {
    Endpoint {
        state: GenState::Complete,
        send: e.send,
        panic: match caught {
            Some(Unwind::Panic(p)) => Some(Unwind::Panic(p)),
            _ => None,
        },
    }
}

/// The owner letting go of generator `e`, whose other side is `d`: a suspended
/// coroutine gets the teardown marker and a switch so that it unwinds; a
/// coroutine that never started or has ended is left as it is.
pub open spec fn drop_enter_spec<T, R, P>(e: Endpoint<T, P>, d: Endpoint<R, P>) -> (
    Endpoint<T, P>,
    Endpoint<R, P>,
    bool,
) {
    match e.state {
        GenState::Yield => (e, with_panic(d, Some(Unwind::Dropping)), true),
        _ => (e, d, false),
    }
}

impl<T, P> Endpoint<T, P> {
    /// The generator handed to the caller: its coroutine has not started.
    pub fn primary() -> (e: Self)
        ensures
            e.state == GenState::Ready,
            e.send is None,
            e.panic is None,
    {
        Endpoint { state: GenState::Ready, send: None, panic: None }
    }

    /// The generator handed to the coroutine: through it the coroutine yields
    /// to its caller, and it counts as suspended from the start.
    pub fn secondary() -> (e: Self)
        ensures
            e.state == GenState::Yield,
            e.send is None,
            e.panic is None,
    {
        Endpoint { state: GenState::Yield, send: None, panic: None }
    }

    /// First half of a resume with `x`; `true` asks for a switch to the other
    /// stack.
    pub fn resume_enter(&mut self, x: T) -> (switch: bool)
        ensures
            (*final(self), switch) == resume_enter_spec(*old(self), x),
    {
        match self.state {
            GenState::Complete => false,
            _ => {
                self.send = Some(x);
                true
            },
        }
    }

    /// Second half of a resume, after control came back from the other side
    /// `dual`: `Err` is an unwind to raise on this stack, `Ok` the value that
    /// the other side handed over.
    pub fn resume_leave<R>(&mut self, dual: &mut Endpoint<R, P>) -> (r: Result<Option<R>, Unwind<P>>)
        ensures
            (*final(self), *final(dual), r) == resume_leave_spec(*old(self), *old(dual)),
    {
        match self.panic.take() {
            Some(u) => Err(u),
            None => Ok(dual.send.take()),
        }
    }

    /// The coroutine's first step: marks the generator started and takes the
    /// start argument that the first resume stored.
    pub fn bootstrap_start(&mut self) -> (start: T)
        requires
            old(self).send is Some,
        ensures
            (*final(self), start) == bootstrap_start_spec(*old(self)),
    {
        self.state = GenState::Yield;
        self.send.take().unwrap()
    }

    /// Records how the coroutine's body ended and completes the generator.
    pub fn bootstrap_finish(&mut self, caught: Option<Unwind<P>>)
        ensures
            *final(self) == bootstrap_finish_spec(*old(self), caught),
    {
        self.panic = match caught {
            Some(Unwind::Panic(p)) => Some(Unwind::Panic(p)),
            _ => None,
        };
        self.state = GenState::Complete;
    }

    /// The owner letting go of this generator, whose other side is `dual`;
    /// `true` asks for a switch to the coroutine so that it unwinds.
    pub fn drop_enter<R>(&mut self, dual: &mut Endpoint<R, P>) -> (switch: bool)
        ensures
            (*final(self), *final(dual), switch) == drop_enter_spec(*old(self), *old(dual)),
    {
        match self.state {
            GenState::Yield => {
                dual.panic = Some(Unwind::Dropping);
                true
            },
            _ => false,
        }
    }
}

} // verus!
