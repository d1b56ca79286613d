# jord (verified decisions)

Great-circle navigation on a spherical model: great circles and minor arcs
through two positions, their intersections, means of positions, bearings,
turns, intermediate and destination positions.

- `src/` is the verified library. It takes every decision of these operations
  (which error is returned, which candidate intersection is kept, whether a
  traveller moves at all) on the IEEE 754 binary64 encodings of the values
  involved, exactly as `==`, `<` and `<=` on `f64` would:
  - `binary64`: equality and ordering of `f64` values on their encodings;
  - `vec3`: vectors and matrices of encodings, antipodes, transposition;
  - `error`: the reasons an operation is refused;
  - `great_circle`: positions, great circles, minor arcs and the decisions;
  - `laws`: properties proved across operations.
- `app/` holds the floating-point arithmetic (vector algebra, trigonometry)
  and hands its results to the library as encodings.
- `tests/` checks the library on concrete values built with `f64::to_bits`.
