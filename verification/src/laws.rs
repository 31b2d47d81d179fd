use vstd::prelude::*;
use crate::pair::{
    allowed, body_actions, body_events, enabled, end_result, fresh, inv, run, step, whole_run,
    Action, Event, Pair, Turn,
};
use crate::protocol::{
    at_rest, bootstrap_finish_spec, bootstrap_start_spec, drop_enter_spec, resume_enter_spec,
    resume_leave_spec, Endpoint, GenState, Unwind,
};

verus! {

/// A finished generator stays finished: a resume on it asks for no switch and
/// changes nothing, whatever is sent.
pub proof fn lemma_complete_is_final<S, P>(g: Endpoint<S, P>, x: S)
    requires
        g.state == GenState::Complete,
    ensures
        resume_enter_spec(g, x) == (g, false),
{
}

/// The first resume starts the coroutine with the value sent: the coroutine's
/// start argument is exactly that value, and the generator is then started.
pub proof fn lemma_first_resume_delivers_start<S, P>(g: Endpoint<S, P>, x: S)
    requires
        g.state == GenState::Ready,
    ensures
        resume_enter_spec(g, x).1,
        bootstrap_start_spec(resume_enter_spec(g, x).0).1 == x,
        bootstrap_start_spec(resume_enter_spec(g, x).0).0.state == GenState::Yield,
        bootstrap_start_spec(resume_enter_spec(g, x).0).0.send is None,
{
}

/// A round trip from rest: the caller resumes a suspended coroutine with `x`,
/// the coroutine's own pending resume returns `Some(x)`, the coroutine yields
/// `y`, and the caller's resume returns `Some(y)`; the pair is at rest again
/// and the generator still suspended.
pub proof fn lemma_round_trip<S, R, P>(g: Endpoint<S, P>, d: Endpoint<R, P>, x: S, y: R)
    requires
        g.state == GenState::Yield,
        d.state == GenState::Yield,
        at_rest(g, d),
    ensures
        ({
            let (g1, sw1) = resume_enter_spec(g, x);
            let (d2, g2, got) = resume_leave_spec(d, g1);
            let (d3, sw2) = resume_enter_spec(d2, y);
            let (g4, d4, ret) = resume_leave_spec(g2, d3);
            &&& sw1
            &&& got == Ok::<Option<S>, Unwind<P>>(Some(x))
            &&& sw2
            &&& ret == Ok::<Option<R>, Unwind<P>>(Some(y))
            &&& at_rest(g4, d4)
            &&& g4 == g
            &&& d4 == d
        }),
{
    let (g1, sw1) = resume_enter_spec(g, x);
    let (d2, g2, got) = resume_leave_spec(d, g1);
    let (d3, sw2) = resume_enter_spec(d2, y);
    let (g4, d4, ret) = resume_leave_spec(g2, d3);
    assert(g4 =~= g);
    assert(d4 =~= d);
}

/// The coroutine's first yield: after the first resume has started it with
/// `x`, a yield of `y` reaches the caller's resume as `Some(y)`, and the pair
/// is at rest with the generator suspended.
pub proof fn lemma_first_round_trip<S, R, P>(g: Endpoint<S, P>, d: Endpoint<R, P>, x: S, y: R)
    requires
        g.state == GenState::Ready,
        d.state == GenState::Yield,
        at_rest(g, d),
    ensures
        ({
            let (g1, sw1) = resume_enter_spec(g, x);
            let (g2, start) = bootstrap_start_spec(g1);
            let (d3, sw2) = resume_enter_spec(d, y);
            let (g4, d4, ret) = resume_leave_spec(g2, d3);
            &&& sw1
            &&& start == x
            &&& sw2
            &&& ret == Ok::<Option<R>, Unwind<P>>(Some(y))
            &&& at_rest(g4, d4)
            &&& g4.state == GenState::Yield
        }),
{
}

/// The end of a run: when the coroutine's body ends, normally or by an
/// unwind, the caller's pending resume returns `None` or raises the body's
/// panic, never the teardown marker; afterwards the pair is at rest and the
/// generator complete, so every later resume returns at once.
pub proof fn lemma_finish_reports<S, R, P>(g: Endpoint<S, P>, d: Endpoint<R, P>, caught: Option<Unwind<P>>, x: S)
    requires
        at_rest(g, d),
    ensures
        ({
            let g1 = bootstrap_finish_spec(g, caught);
            let (g2, d2, ret) = resume_leave_spec(g1, d);
            &&& ret == match caught {
                Some(Unwind::Panic(p)) => Err::<Option<R>, Unwind<P>>(Unwind::Panic(p)),
                _ => Ok::<Option<R>, Unwind<P>>(None),
            }
            &&& at_rest(g2, d2)
            &&& g2.state == GenState::Complete
            &&& resume_enter_spec(g2, x) == (g2, false)
        }),
{
}

/// A teardown marker never reaches the caller: what the coroutine leaves for
/// the caller is at most a panic of its body.
pub proof fn lemma_dropping_swallowed<S, P>(g: Endpoint<S, P>, caught: Option<Unwind<P>>)
    ensures
        !(bootstrap_finish_spec(g, caught).panic matches Some(Unwind::Dropping)),
{
}

/// Letting go of a suspended generator unwinds its coroutine: its pending
/// resume raises the teardown marker, and once the coroutine has ended the
/// caller is back with nothing pending and the generator complete.
pub proof fn lemma_drop_unwinds_suspended<S, R, P>(g: Endpoint<S, P>, d: Endpoint<R, P>)
    requires
        g.state == GenState::Yield,
        at_rest(g, d),
    ensures
        ({
            let (g1, d1, sw) = drop_enter_spec(g, d);
            let (d2, g2, got) = resume_leave_spec(d1, g1);
            let g3 = bootstrap_finish_spec(g2, Some(Unwind::Dropping));
            &&& sw
            &&& got matches Err(Unwind::Dropping)
            &&& at_rest(g3, d2)
            &&& g3.state == GenState::Complete
        }),
{
}

/// Letting go of a generator whose coroutine never started or has ended
/// switches nowhere and changes neither side.
pub proof fn lemma_drop_idle<S, R, P>(g: Endpoint<S, P>, d: Endpoint<R, P>)
    requires
        g.state != GenState::Yield,
    ensures
        drop_enter_spec(g, d) == (g, d, false),
{
}

/// A new pair satisfies the pair's invariant.
pub proof fn lemma_inv_fresh<S, R, P>(p: Pair<S, R, P>)
    requires
        fresh(p),
    ensures
        inv(p),
{
}

/// Every piece of code of either side keeps the pair's invariant.
pub proof fn lemma_inv_step<S, R, P>(p: Pair<S, R, P>, a: Action<S, R, P>)
    requires
        inv(p),
        enabled(p, a),
    ensures
        inv(step(p, a).0),
{
}

/// Every state reachable by a run keeps the pair's invariant; in particular
/// every state reachable from a new pair.
pub proof fn lemma_inv_run<S, R, P>(p: Pair<S, R, P>, acts: Seq<Action<S, R, P>>)
    requires
        inv(p),
        allowed(p, acts),
    ensures
        inv(run(p, acts).0),
    decreases acts.len(),
{
    if acts.len() > 0 {
        lemma_inv_step(p, acts[0]);
        lemma_inv_run(step(p, acts[0]).0, acts.drop_first());
    }
}

/// The coroutine's resume never returns `None`: when its switch comes back it
/// returns `Some` of the value that the caller's resume stored, or, when the
/// owner let go of the generator, it raises the teardown marker.
pub proof fn lemma_coroutine_resume_never_none<S, R, P>(p: Pair<S, R, P>)
    requires
        inv(p),
        p.turn is CoroutineWakes,
    ensures
        ({
            let (q, e) = step(p, Action::WakeCoroutine);
            &&& p.dual.panic is None ==> e == Event::<S, R, P>::Received(Ok(Some(p.gen.send->0)))
            &&& p.dual.panic is Some ==> (e matches Event::Received(Err(Unwind::Dropping))
                && q.turn matches Turn::Coroutine { unwinding: true })
        }),
{
}

/// The caller's next resume with `x` on a suspended coroutine makes the
/// coroutine's pending resume return `Some(x)`; letting go of the generator
/// instead makes it raise the teardown marker.
pub proof fn lemma_caller_action_reaches_coroutine<S, R, P>(p: Pair<S, R, P>, x: S)
    requires
        inv(p),
        p.turn is Caller,
        p.gen.state == GenState::Yield,
    ensures
        run(p, seq![Action::Resume(x), Action::WakeCoroutine]).1 == seq![
            Event::<S, R, P>::Handed,
            Event::Received(Ok(Some(x))),
        ],
        run(p, seq![Action::Drop, Action::WakeCoroutine]).1 =~= seq![
            Event::<S, R, P>::Handed,
            Event::Received(Err(Unwind::Dropping)),
        ],
{
    lemma_run_two(p, Action::Resume(x), Action::WakeCoroutine);
    lemma_run_two(p, Action::Drop, Action::WakeCoroutine);
}

/// A run of one action is that action's step.
proof fn lemma_run_one<S, R, P>(p: Pair<S, R, P>, a: Action<S, R, P>)
    ensures
        run(p, seq![a]) == (step(p, a).0, seq![step(p, a).1]),
        allowed(p, seq![a]) == enabled(p, a),
{
    let acts = seq![a];
    let p1 = step(p, a).0;
    assert(acts.drop_first() =~= Seq::<Action<S, R, P>>::empty());
    assert(run(p1, acts.drop_first()) == (p1, Seq::<Event<S, R, P>>::empty()));
    assert(allowed(p1, acts.drop_first()));
    assert(seq![step(p, a).1] + Seq::<Event<S, R, P>>::empty() =~= seq![step(p, a).1]);
}

/// A run of two actions is their steps one after the other.
proof fn lemma_run_two<S, R, P>(p: Pair<S, R, P>, a: Action<S, R, P>, b: Action<S, R, P>)
    ensures
        ({
            let (p1, e1) = step(p, a);
            let (p2, e2) = step(p1, b);
            &&& run(p, seq![a, b]) == (p2, seq![e1, e2])
            &&& allowed(p, seq![a, b]) == (enabled(p, a) && enabled(p1, b))
        }),
{
    let (p1, e1) = step(p, a);
    let acts = seq![a, b];
    assert(acts.drop_first() =~= seq![b]);
    lemma_run_one(p1, b);
    assert(seq![e1] + seq![step(p1, b).1] =~= seq![e1, step(p1, b).1]);
    assert(allowed(p, seq![a, b]) == (enabled(p, a) && enabled(p1, b)));
}

/// A resume returns `None` exactly when, after it, the generator's body has
/// finished (it ended during this resume, or earlier); it returns `Some` only
/// with the body suspended at a yield; and an unwind it raises is a panic of
/// the body, never the teardown marker.
pub proof fn lemma_none_iff_finished<S, R, P>(p: Pair<S, R, P>, a: Action<S, R, P>)
    requires
        inv(p),
        (p.turn is Caller && a is Resume) || (p.turn is CallerWakes && a is WakeCaller),
    ensures
        ({
            let (q, e) = step(p, a);
            &&& (e matches Event::Returned(Ok(r)) ==> (r is None <==> q.gen.state
                == GenState::Complete))
            &&& (e matches Event::Returned(Ok(Some(_))) ==> q.gen.state == GenState::Yield)
            &&& (e matches Event::Returned(Err(u)) ==> (u is Panic && q.gen.state
                == GenState::Complete))
            &&& (p.turn is Caller ==> (e is Returned <==> p.gen.state == GenState::Complete))
            &&& (p.turn is CallerWakes ==> e is Returned)
        }),
{
}

/// Running `a` and then `b` is running `a + b`.
proof fn lemma_run_concat<S, R, P>(p: Pair<S, R, P>, a: Seq<Action<S, R, P>>, b: Seq<Action<S, R, P>>)
    ensures
        run(p, a + b) == (run(run(p, a).0, b).0, run(p, a).1 + run(run(p, a).0, b).1),
        allowed(p, a + b) == (allowed(p, a) && allowed(run(p, a).0, b)),
    decreases a.len(),
{
    if a.len() == 0 {
        assert(a + b =~= b);
        assert(Seq::<Event<S, R, P>>::empty() + run(p, b).1 =~= run(p, b).1);
    } else {
        let (p1, e) = step(p, a[0]);
        assert((a + b)[0] == a[0]);
        assert((a + b).drop_first() =~= a.drop_first() + b);
        lemma_run_concat(p1, a.drop_first(), b);
        let (q, es) = run(p1, a.drop_first());
        let (r, fs) = run(q, b);
        assert(seq![e] + (es + fs) =~= (seq![e] + es) + fs);
    }
}

/// The caller's answer to a yield and the body's next receipt: from a body
/// that runs with the pair at rest, a yield of `y` reaches the caller's
/// resume as `Some(y)`, and the caller's next resume with `x` reaches the
/// body's resume as `Some(x)`; the pair is then exactly as before.
proof fn lemma_exchange<S, R, P>(p: Pair<S, R, P>, x: S, y: R)
    requires
        p.turn == (Turn::Coroutine { unwinding: false }),
        p.gen.state == GenState::Yield,
        p.dual.state == GenState::Yield,
        at_rest(p.gen, p.dual),
    ensures
        run(p, seq![Action::Yield(y), Action::WakeCaller, Action::Resume(x), Action::WakeCoroutine])
            == (p, seq![
            Event::<S, R, P>::Handed,
            Event::Returned(Ok(Some(y))),
            Event::Handed,
            Event::Received(Ok(Some(x))),
        ]),
        allowed(p, seq![Action::Yield(y), Action::WakeCaller, Action::Resume(x), Action::WakeCoroutine]),
{
    let a = seq![Action::<S, R, P>::Yield(y), Action::WakeCaller];
    let b = seq![Action::<S, R, P>::Resume(x), Action::WakeCoroutine];
    assert(a + b =~= seq![Action::Yield(y), Action::WakeCaller, Action::Resume(x), Action::WakeCoroutine]);
    lemma_run_two(p, Action::Yield(y), Action::WakeCaller);
    let p2 = run(p, a).0;
    lemma_run_two(p2, Action::Resume(x), Action::WakeCoroutine);
    lemma_run_concat(p, a, b);
    let p4 = run(p2, b).0;
    assert(p4.gen =~= p.gen);
    assert(p4.dual =~= p.dual);
    assert(run(p, a).1 + run(p2, b).1 =~= seq![
        Event::<S, R, P>::Handed,
        Event::Returned(Ok(Some(y))),
        Event::Handed,
        Event::Received(Ok(Some(x))),
    ]);
}

/// The body's end: from a body that runs with the pair at rest, ending as
/// `caught` says gives the caller's pending resume `end_result(caught)`, and
/// leaves the caller running, the pair at rest and the generator complete.
proof fn lemma_end<S, R, P>(p: Pair<S, R, P>, caught: Option<Unwind<P>>)
    requires
        p.turn == (Turn::Coroutine { unwinding: false }),
        p.gen.state == GenState::Yield,
        p.dual.state == GenState::Yield,
        at_rest(p.gen, p.dual),
    ensures
        ({
            let (q, es) = run(p, seq![Action::Finish(caught), Action::WakeCaller]);
            &&& allowed(p, seq![Action::Finish(caught), Action::WakeCaller])
            &&& es == seq![Event::<S, R, P>::Handed, Event::Returned(end_result(caught))]
            &&& q.turn is Caller
            &&& q.gen.state == GenState::Complete
            &&& at_rest(q.gen, q.dual)
            &&& q.dual == p.dual
        }),
{
    lemma_run_two(p, Action::Finish(caught), Action::WakeCaller);
    let (q, es) = run(p, seq![Action::Finish(caught), Action::WakeCaller]);
    assert(q.dual =~= p.dual);
}

/// A started body that yields `ys` one by one and then ends as `caught`
/// says: the caller's resumes return `Some(ys[0])`, `Some(ys[1])`, ..., and
/// at last `end_result(caught)` (`None` for a normal end); the body's resumes
/// return `Some(xs[0])`, `Some(xs[1])`, ..., the values of the caller's
/// resumes in order. Afterwards the caller runs, the pair is at rest and the
/// generator complete.
pub proof fn lemma_body_run<S, R, P>(p: Pair<S, R, P>, xs: Seq<S>, ys: Seq<R>, caught: Option<Unwind<P>>)
    requires
        p.turn == (Turn::Coroutine { unwinding: false }),
        p.gen.state == GenState::Yield,
        p.dual.state == GenState::Yield,
        at_rest(p.gen, p.dual),
        xs.len() == ys.len(),
    ensures
        ({
            let acts = body_actions(xs, ys, caught);
            let (q, es) = run(p, acts);
            &&& allowed(p, acts)
            &&& es == body_events(xs, ys, caught)
            &&& q.turn is Caller
            &&& q.gen.state == GenState::Complete
            &&& at_rest(q.gen, q.dual)
            &&& q.dual == p.dual
        }),
    decreases ys.len(),
{
    if ys.len() == 0 {
        lemma_end(p, caught);
    } else {
        let four = seq![
            Action::<S, R, P>::Yield(ys[0]),
            Action::WakeCaller,
            Action::Resume(xs[0]),
            Action::WakeCoroutine,
        ];
        let rest = body_actions(xs.drop_first(), ys.drop_first(), caught);
        lemma_exchange(p, xs[0], ys[0]);
        lemma_run_concat(p, four, rest);
        lemma_body_run(p, xs.drop_first(), ys.drop_first(), caught);
    }
}

/// A whole run of a new generator. The caller resumes it with `xs[0]`, ...,
/// `xs[n]`; the body, started with `xs[0]`, yields `ys[0]`, ..., `ys[n-1]`
/// and then ends as `caught` says. The body is started exactly once, by the
/// first resume, with `xs[0]`; the caller's resumes return `Some(ys[0])`,
/// ..., `Some(ys[n-1])` and then `None` (or raise the body's panic); the
/// body's `k`-th resume returns `Some(xs[k + 1])`. Afterwards the generator
/// is complete, the pair at rest, and every further resume returns `None` at
/// once without running anything.
pub proof fn lemma_whole_run<S, R, P>(p: Pair<S, R, P>, xs: Seq<S>, ys: Seq<R>, caught: Option<Unwind<P>>, x: S)
    requires
        fresh(p),
        xs.len() == ys.len() + 1,
    ensures
        ({
            let acts = whole_run(xs, ys, caught);
            let (q, es) = run(p, acts);
            &&& allowed(p, acts)
            &&& es == seq![Event::<S, R, P>::Handed, Event::Started(xs[0])] + body_events(
                xs.drop_first(),
                ys,
                caught,
            )
            &&& q.turn is Caller
            &&& q.gen.state == GenState::Complete
            &&& at_rest(q.gen, q.dual)
            &&& step(q, Action::Resume(x)) == (q, Event::<S, R, P>::Returned(Ok(None)))
        }),
{
    let two = seq![Action::<S, R, P>::Resume(xs[0]), Action::Start];
    let rest = body_actions(xs.drop_first(), ys, caught);
    lemma_run_two(p, Action::Resume(xs[0]), Action::Start);
    let p2 = run(p, two).0;
    lemma_body_run(p2, xs.drop_first(), ys, caught);
    lemma_run_concat(p, two, rest);
}

/// The events of a body's run, by position: for each `k < n`, the caller's
/// `k`-th resume returns `Some(ys[k])` at position `4k + 1` and the body's
/// `k`-th resume returns `Some(xs[k])` at position `4k + 3`; the last event is
/// the caller's last resume, which gives `end_result(caught)`.
pub proof fn lemma_body_events_at<S, R, P>(xs: Seq<S>, ys: Seq<R>, caught: Option<Unwind<P>>)
    requires
        xs.len() == ys.len(),
    ensures
        ({
            let es = body_events(xs, ys, caught);
            let n = ys.len() as int;
            &&& es.len() == 4 * n + 2
            &&& forall|k: int|
                #![trigger ys[k]]
                0 <= k < n ==> es[4 * k + 1] == Event::<S, R, P>::Returned(Ok(Some(ys[k])))
            &&& forall|k: int|
                #![trigger xs[k]]
                0 <= k < n ==> es[4 * k + 3] == Event::<S, R, P>::Received(Ok(Some(xs[k])))
            &&& es[4 * n + 1] == Event::<S, R, P>::Returned(end_result(caught))
        }),
    decreases ys.len(),
{
    if ys.len() > 0 {
        let xs1 = xs.drop_first();
        let ys1 = ys.drop_first();
        lemma_body_events_at(xs1, ys1, caught);
        let head = seq![
            Event::<S, R, P>::Handed,
            Event::Returned(Ok(Some(ys[0]))),
            Event::Handed,
            Event::Received(Ok(Some(xs[0]))),
        ];
        let tail = body_events(xs1, ys1, caught);
        let es = body_events(xs, ys, caught);
        assert(es == head + tail);
        assert forall|k: int| #![trigger ys[k]] 0 <= k < ys.len() implies es[4 * k + 1]
            == Event::<S, R, P>::Returned(Ok(Some(ys[k]))) by {
            if k > 0 {
                assert(ys[k] == ys1[k - 1]);
                assert(es[4 * k + 1] == tail[4 * (k - 1) + 1]);
            }
        }
        assert forall|k: int| #![trigger xs[k]] 0 <= k < ys.len() implies es[4 * k + 3]
            == Event::<S, R, P>::Received(Ok(Some(xs[k]))) by {
            if k > 0 {
                assert(xs[k] == xs1[k - 1]);
                assert(es[4 * k + 3] == tail[4 * (k - 1) + 3]);
            }
        }
        let n = ys.len() as int;
        assert(es[4 * n + 1] == tail[4 * (n - 1) + 1]);
    }
}

} // verus!
