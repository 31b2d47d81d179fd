//! The decisions of a stackful generator: what each side of a generator pair
//! does with the values and unwinds that travel between the caller's stack and
//! the coroutine's stack, between two context switches.

pub mod protocol;
pub mod laws;
pub mod fib;
pub mod pair;
