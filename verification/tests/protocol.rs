use lib::protocol::{Endpoint, GenState, Unwind};

fn pair() -> (Endpoint<u32, String>, Endpoint<char, String>) {
    (Endpoint::primary(), Endpoint::secondary())
}

#[test]
fn fresh_pair_states() {
    let (g, d) = pair();
    assert_eq!(g.state, GenState::Ready);
    assert_eq!(d.state, GenState::Yield);
    assert!(g.send.is_none() && g.panic.is_none());
    assert!(d.send.is_none() && d.panic.is_none());
}

#[test]
fn first_resume_starts_coroutine_with_value() {
    let (mut g, _d) = pair();
    assert!(g.resume_enter(10));
    assert_eq!(g.send, Some(10));
    let start = g.bootstrap_start();
    assert_eq!(start, 10);
    assert_eq!(g.state, GenState::Yield);
    assert!(g.send.is_none());
}

#[test]
fn yields_reach_caller_and_values_reach_coroutine() {
    let (mut g, mut d) = pair();
    assert!(g.resume_enter(1));
    assert_eq!(g.bootstrap_start(), 1);
    // the coroutine yields 'a'
    assert!(d.resume_enter('a'));
    let got = g.resume_leave(&mut d);
    assert!(matches!(got, Ok(Some('a'))));
    assert!(d.send.is_none());
    // the caller resumes again with 2
    assert!(g.resume_enter(2));
    let recv = d.resume_leave(&mut g);
    assert!(matches!(recv, Ok(Some(2))));
    assert!(g.send.is_none());
    // the coroutine yields 'b'
    assert!(d.resume_enter('b'));
    assert!(matches!(g.resume_leave(&mut d), Ok(Some('b'))));
}

#[test]
fn normal_end_returns_none_then_stays_finished() {
    let (mut g, mut d) = pair();
    assert!(g.resume_enter(7));
    g.bootstrap_start();
    g.bootstrap_finish(None);
    assert_eq!(g.state, GenState::Complete);
    assert!(matches!(g.resume_leave(&mut d), Ok(None)));
    assert!(!g.resume_enter(8));
    assert!(g.send.is_none());
    assert!(!g.resume_enter(9));
}

#[test]
fn body_panic_is_raised_once_in_caller() {
    let (mut g, mut d) = pair();
    assert!(g.resume_enter(7));
    g.bootstrap_start();
    g.bootstrap_finish(Some(Unwind::Panic("boom".to_string())));
    match g.resume_leave(&mut d) {
        Err(Unwind::Panic(p)) => assert_eq!(p, "boom"),
        _ => panic!("expected the body's panic"),
    }
    assert!(g.panic.is_none());
    assert!(!g.resume_enter(1));
}

#[test]
fn dropping_marker_is_swallowed() {
    let (mut g, mut d) = pair();
    assert!(g.resume_enter(3));
    g.bootstrap_start();
    assert!(d.resume_enter('x'));
    assert!(matches!(g.resume_leave(&mut d), Ok(Some('x'))));
    // the owner lets go of the suspended generator
    assert!(g.drop_enter(&mut d));
    assert!(matches!(d.panic, Some(Unwind::Dropping)));
    // the coroutine's pending resume raises the marker
    assert!(matches!(d.resume_leave(&mut g), Err(Unwind::Dropping)));
    assert!(d.panic.is_none());
    g.bootstrap_finish(Some(Unwind::Dropping));
    assert!(g.panic.is_none());
    assert_eq!(g.state, GenState::Complete);
}

#[test]
fn drop_of_unstarted_or_finished_switches_nowhere() {
    let (mut g, mut d) = pair();
    assert!(!g.drop_enter(&mut d));
    assert!(d.panic.is_none());
    assert_eq!(g.state, GenState::Ready);

    let (mut g, mut d) = pair();
    assert!(g.resume_enter(1));
    g.bootstrap_start();
    g.bootstrap_finish(None);
    assert!(!g.drop_enter(&mut d));
    assert!(d.panic.is_none());
}

#[test]
fn resume_on_complete_keeps_value_out() {
    let mut g: Endpoint<u32, String> = Endpoint::primary();
    assert!(g.resume_enter(1));
    g.bootstrap_start();
    g.bootstrap_finish(None);
    assert!(!g.resume_enter(42));
    assert_eq!(g.send, None);
}

#[test]
fn whole_run_delivers_every_value_in_order() {
    let xs = [10u32, 20, 30];
    let ys = ['a', 'b'];
    let (mut g, mut d) = pair();
    let mut caller_got: Vec<Option<char>> = Vec::new();
    let mut body_got: Vec<Option<u32>> = Vec::new();

    // first resume starts the body
    assert!(g.resume_enter(xs[0]));
    let start = g.bootstrap_start();
    for k in 0..ys.len() {
        // the body yields ys[k]; the caller's pending resume returns
        assert!(d.resume_enter(ys[k]));
        match g.resume_leave(&mut d) {
            Ok(v) => caller_got.push(v),
            Err(_) => panic!("no unwind expected"),
        }
        // the caller resumes with xs[k + 1]; the body's pending resume returns
        assert!(g.resume_enter(xs[k + 1]));
        match d.resume_leave(&mut g) {
            Ok(v) => body_got.push(v),
            Err(_) => panic!("no unwind expected"),
        }
    }
    // the body returns
    g.bootstrap_finish(None);
    match g.resume_leave(&mut d) {
        Ok(v) => caller_got.push(v),
        Err(_) => panic!("no unwind expected"),
    }

    assert_eq!(start, 10);
    assert_eq!(caller_got, vec![Some('a'), Some('b'), None]);
    assert_eq!(body_got, vec![Some(20), Some(30)]);
    assert_eq!(g.state, GenState::Complete);
    assert!(g.send.is_none() && g.panic.is_none() && d.send.is_none() && d.panic.is_none());
    assert!(!g.resume_enter(40));
}
