# Stackful generators with a verified core

A stackful generator library: a generator runs a closure on a stack of its
own, and `resume` hands a value to it and gets back the value it yields.

- `src/protocol.rs`: what each generator of a pair (the caller's one and the
  coroutine's one) does between two context switches: storing and taking the
  values sent across, starting and completing the coroutine, carrying panics
  back to the caller, and tearing a suspended coroutine down when its owner
  lets go. Each step is stated by a spec function and proved against it.
- `src/pair.rs`: both generators of a pair and where control stands, as a
  state machine whose steps are the pieces of code of either side between
  two switches; its invariant, and whole runs.
- `src/laws.rs`: what those steps give together: a resume delivers the value
  sent and returns the value yielded, a finished generator stays finished, a
  panic of the body reaches the caller and the teardown marker never does;
  every reachable state keeps the pair's invariant; the coroutine's resume
  never returns `None`; a resume returns `None` exactly when the body has
  finished; and a whole run of n yields delivers every value in order.
- `src/fib.rs`: the Fibonacci generator of the example program.
- `app/`: the runtime around the core: stacks, machine contexts, the context
  switches, unwinding, the `Iterator`/`Future` impls and the example program.
