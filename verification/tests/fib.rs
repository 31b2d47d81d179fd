use lib::fib::{fib_advance, FibCursor};

#[test]
fn advance_steps_and_stops_on_overflow() {
    assert_eq!(fib_advance(0, 1), Some((1, 1)));
    assert_eq!(fib_advance(1, 1), Some((1, 2)));
    assert_eq!(fib_advance(5, 8), Some((8, 13)));
    assert_eq!(fib_advance(u64::MAX, 1), None);
    assert_eq!(fib_advance(u64::MAX - 1, 1), Some((1, u64::MAX)));
}

#[test]
fn cursor_yields_the_generator_sequence() {
    let mut c = FibCursor::new();
    let mut out: Vec<u64> = Vec::new();
    while let Some(v) = c.next() {
        out.push(v);
    }
    assert_eq!(&out[..8], &[0, 1, 2, 3, 5, 8, 13, 21]);
    assert_eq!(out.len(), 93);
    assert_eq!(*out.last().unwrap(), 12200160415121876738);
    // finished: keeps answering None
    assert_eq!(c.next(), None);
    assert_eq!(c.next(), None);
}

#[test]
fn fib_values_satisfy_recurrence() {
    let mut a: u64 = 0;
    let mut b: u64 = 1;
    let mut n = 0;
    while let Some((x, y)) = fib_advance(a, b) {
        assert_eq!(y, a + b);
        a = x;
        b = y;
        n += 1;
    }
    assert_eq!(b, 12200160415121876738);
    assert_eq!(n, 92);
}
