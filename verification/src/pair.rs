use vstd::prelude::*;
use crate::protocol::{
    at_rest, bootstrap_finish_spec, bootstrap_start_spec, drop_enter_spec, resume_enter_spec,
    resume_leave_spec, Endpoint, GenState, Unwind,
};

verus! {

/// Where control stands in a generator pair: which stack runs, and at which
/// point of the protocol the other one is parked.
pub enum Turn {
    /// The caller runs; the coroutine is parked (or has never run, or is over).
    Caller,
    /// A switch has just entered the coroutine's stack for the first time.
    CoroutineStart,
    /// A switch has just come back into the coroutine's pending resume.
    CoroutineWakes,
    /// The coroutine's body runs; `unwinding` while it is being torn down.
    Coroutine { unwinding: bool },
    /// A switch has just come back into the caller's pending resume.
    CallerWakes,
    /// A switch has just come back into the caller's pending drop.
    CallerWakesFromDrop,
    /// The owner has let go of the generator; nothing runs on it any more.
    Released,
}

/// Both generators of a pair (`gen`, the caller's one, and `dual`, the
/// coroutine's one) and where control stands.
pub struct Pair<S, R, P> {
    pub gen: Endpoint<S, P>,
    pub dual: Endpoint<R, P>,
    pub turn: Turn,
}

/// One piece of straight-line code of either side, between two switches.
pub enum Action<S, R, P> {
    /// The caller calls resume with a value.
    Resume(S),
    /// The caller lets go of its generator.
    Drop,
    /// The coroutine's stack begins: the body's start argument is taken.
    Start,
    /// The coroutine's pending resume continues after the switch back.
    WakeCoroutine,
    /// The coroutine's body calls resume (yields) with a value.
    Yield(R),
    /// The coroutine's body ends: normally (`None`) or by an unwind.
    Finish(Option<Unwind<P>>),
    /// The caller's pending resume or drop continues after the switch back.
    WakeCaller,
}

/// What the side that acts sees of its action.
pub enum Event<S, R, P> {
    /// Control passes to the other stack.
    Handed,
    /// The body starts with this argument.
    Started(S),
    /// The coroutine's resume returns this, or raises the unwind.
    Received(Result<Option<S>, Unwind<P>>),
    /// The caller's resume returns this, or raises the unwind.
    Returned(Result<Option<R>, Unwind<P>>),
    /// The drop is over and the generator is gone.
    Released,
}

/// Whether `a` is what can run at the point where `p` stands.
pub open spec fn enabled<S, R, P>(p: Pair<S, R, P>, a: Action<S, R, P>) -> bool {
    match a {
        Action::Resume(_) => p.turn is Caller,
        Action::Drop => p.turn is Caller,
        Action::Start => p.turn is CoroutineStart && p.gen.send is Some,
        Action::WakeCoroutine => p.turn is CoroutineWakes,
        Action::Yield(_) => p.turn matches Turn::Coroutine { unwinding: false },
        Action::Finish(_) => p.turn is Coroutine,
        Action::WakeCaller => p.turn is CallerWakes || p.turn is CallerWakesFromDrop,
    }
}

/// The pair after `a`, and what the acting side sees. Each case is the
/// composition of the endpoint steps that this piece of code makes.
pub open spec fn step<S, R, P>(p: Pair<S, R, P>, a: Action<S, R, P>) -> (Pair<S, R, P>, Event<S, R, P>) {
    match a {
        Action::Resume(x) => {
            let (g1, sw) = resume_enter_spec(p.gen, x);
            if sw {
                let t = if p.gen.state == GenState::Ready {
                    Turn::CoroutineStart
                } else {
                    Turn::CoroutineWakes
                };
                (Pair { gen: g1, dual: p.dual, turn: t }, Event::Handed)
            } else {
                (Pair { gen: g1, dual: p.dual, turn: Turn::Caller }, Event::Returned(Ok(None)))
            }
        },
        Action::Drop => {
            let (g1, d1, sw) = drop_enter_spec(p.gen, p.dual);
            if sw {
                (Pair { gen: g1, dual: d1, turn: Turn::CoroutineWakes }, Event::Handed)
            } else {
                (Pair { gen: g1, dual: d1, turn: Turn::Released }, Event::Released)
            }
        },
        Action::Start => {
            let (g1, s) = bootstrap_start_spec(p.gen);
            (Pair { gen: g1, dual: p.dual, turn: Turn::Coroutine { unwinding: false } }, Event::Started(s))
        },
        Action::WakeCoroutine => {
            let (d1, g1, r) = resume_leave_spec(p.dual, p.gen);
            (Pair { gen: g1, dual: d1, turn: Turn::Coroutine { unwinding: r is Err } }, Event::Received(r))
        },
        Action::Yield(y) => {
            let (d1, sw) = resume_enter_spec(p.dual, y);
            if sw {
                (Pair { gen: p.gen, dual: d1, turn: Turn::CallerWakes }, Event::Handed)
            } else {
                (Pair { gen: p.gen, dual: d1, turn: p.turn }, Event::Received(Ok(None)))
            }
        },
        Action::Finish(caught) => {
            let g1 = bootstrap_finish_spec(p.gen, caught);
            let t = if p.turn matches Turn::Coroutine { unwinding: true } {
                Turn::CallerWakesFromDrop
            } else {
                Turn::CallerWakes
            };
            (Pair { gen: g1, dual: p.dual, turn: t }, Event::Handed)
        },
        Action::WakeCaller => {
            if p.turn is CallerWakesFromDrop {
                (Pair { gen: p.gen, dual: p.dual, turn: Turn::Released }, Event::Released)
            } else {
                let (g1, d1, r) = resume_leave_spec(p.gen, p.dual);
                (Pair { gen: g1, dual: d1, turn: Turn::Caller }, Event::Returned(r))
            }
        },
    }
}

/// A new pair: nothing has run yet.
pub open spec fn fresh<S, R, P>(p: Pair<S, R, P>) -> bool {
    &&& p.turn is Caller
    &&& p.gen.state == GenState::Ready
    &&& p.dual.state == GenState::Yield
    &&& at_rest(p.gen, p.dual)
}

/// The pair's invariant: the coroutine's generator is always suspended-capable,
/// the pair is at rest whenever either side runs its own code, and at each
/// switch exactly the value or unwind that the other side is about to take is
/// in flight.
pub open spec fn inv<S, R, P>(p: Pair<S, R, P>) -> bool {
    let g = p.gen;
    let d = p.dual;
    &&& d.state == GenState::Yield
    &&& match p.turn {
        Turn::Caller => at_rest(g, d),
        Turn::CoroutineStart => {
            &&& g.state == GenState::Ready
            &&& g.send is Some
            &&& g.panic is None
            &&& d.send is None
            &&& d.panic is None
        },
        Turn::CoroutineWakes => {
            &&& g.state == GenState::Yield
            &&& g.panic is None
            &&& d.send is None
            &&& ((g.send is Some && d.panic is None) || (g.send is None
                && d.panic matches Some(Unwind::Dropping)))
        },
        Turn::Coroutine { unwinding: _ } => at_rest(g, d) && g.state == GenState::Yield,
        Turn::CallerWakes => {
            &&& g.send is None
            &&& d.panic is None
            &&& ((g.state == GenState::Yield && d.send is Some && g.panic is None) || (g.state
                == GenState::Complete && d.send is None && !(g.panic matches Some(
                Unwind::Dropping))))
        },
        Turn::CallerWakesFromDrop => {
            &&& g.state == GenState::Complete
            &&& g.send is None
            &&& d.send is None
            &&& d.panic is None
            &&& !(g.panic matches Some(Unwind::Dropping))
        },
        Turn::Released => true,
    }
}

/// The pair after running `acts` in order from `p`, and what each action saw.
pub open spec fn run<S, R, P>(p: Pair<S, R, P>, acts: Seq<Action<S, R, P>>) -> (
    Pair<S, R, P>,
    Seq<Event<S, R, P>>,
)
    decreases acts.len(),
{
    if acts.len() == 0 {
        (p, Seq::empty())
    } else {
        let (p1, e) = step(p, acts[0]);
        let (p2, es) = run(p1, acts.drop_first());
        (p2, seq![e] + es)
    }
}

/// Whether each of `acts` can run, in order, from `p`.
pub open spec fn allowed<S, R, P>(p: Pair<S, R, P>, acts: Seq<Action<S, R, P>>) -> bool
    decreases acts.len(),
{
    acts.len() == 0 || (enabled(p, acts[0]) && allowed(step(p, acts[0]).0, acts.drop_first()))
}

/// The code that a started body runs: it yields `ys[0]`, and its resume gets
/// back `xs[0]`, then `ys[1]` and `xs[1]`, ..., and at last it ends, as
/// `caught` says; the caller's side answers each with its own code.
pub open spec fn body_actions<S, R, P>(xs: Seq<S>, ys: Seq<R>, caught: Option<Unwind<P>>) -> Seq<
    Action<S, R, P>,
>
    decreases ys.len(),
{
    if ys.len() == 0 {
        seq![Action::Finish(caught), Action::WakeCaller]
    } else {
        seq![
            Action::Yield(ys[0]),
            Action::WakeCaller,
            Action::Resume(xs[0]),
            Action::WakeCoroutine,
        ] + body_actions(xs.drop_first(), ys.drop_first(), caught)
    }
}

/// A whole run of a new generator: the caller resumes with `xs[0]`, which
/// starts the body, and then the body runs as `body_actions` says with the
/// rest of `xs`.
pub open spec fn whole_run<S, R, P>(xs: Seq<S>, ys: Seq<R>, caught: Option<Unwind<P>>) -> Seq<
    Action<S, R, P>,
> {
    seq![Action::Resume(xs[0]), Action::Start] + body_actions(xs.drop_first(), ys, caught)
}

/// What the caller's last resume gives when the body ends as `caught` says:
/// the body's panic, or `None`.
pub open spec fn end_result<R, P>(caught: Option<Unwind<P>>) -> Result<Option<R>, Unwind<P>> {
    match caught {
        Some(Unwind::Panic(p)) => Err(Unwind::Panic(p)),
        _ => Ok(None),
    }
}

/// What each side sees along `body_actions(xs, ys, caught)`: the caller's
/// resume returns `Some(ys[k])` and then the body's resume returns
/// `Some(xs[k])`, for each `k`, and the caller's last resume gives
/// `end_result(caught)`.
pub open spec fn body_events<S, R, P>(xs: Seq<S>, ys: Seq<R>, caught: Option<Unwind<P>>) -> Seq<
    Event<S, R, P>,
>
    decreases ys.len(),
{
    if ys.len() == 0 {
        seq![Event::Handed, Event::Returned(end_result(caught))]
    } else {
        seq![
            Event::Handed,
            Event::Returned(Ok(Some(ys[0]))),
            Event::Handed,
            Event::Received(Ok(Some(xs[0]))),
        ] + body_events(xs.drop_first(), ys.drop_first(), caught)
    }
}

} // verus!
