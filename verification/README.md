# nixide

A safe interface to the libnix C API (the Nix store, evaluator and
flakes), whose decision logic is verified with Verus.

- `src/` is the verified library. Every libnix object is held by its
  address, and every libnix call is made by a closure that the caller
  hands in; the library decides everything around those calls: how an
  error context maps to an error, when a null result is an error, how C
  strings are built, checked and decoded, how values are classified and
  printed, how a lazily filled array memoizes its elements. Contracts are
  stated over views (`Seq`, `Option`, plain integers) and over what the
  closures are specified to return.
- `app/` holds the libnix side: the C declarations, the closures that
  make the actual calls, the initialization of libnix at program start,
  freeing, and the reading of floating-point values.
- `tests/` exercises the library with closures that stand in for libnix.
