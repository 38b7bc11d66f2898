# cxns64

A 64-bit floating-point complex number type, `Complex64`, with a C-compatible layout.

- `src/` is the verified library. It holds the `MulAdd` (fused multiply-add) trait
  and `class.rs`: the classification of a complex number by the IEEE class of its
  two components (NaN, infinite, finite), the NaN/infinite/finite predicates, and
  the decisions of the approximate comparisons, with their contracts and laws.
- `app/` holds `Complex64` and its arithmetic. Everything there computes on `f64`,
  which the verified code cannot hold; it hands the component classes and the
  floating-point comparison findings to the library, which takes the decisions.
- `tests/` runs the library on concrete values.

`MulAdd` is not implemented for `f64`. The trait stands in the verified crate,
which cannot hold `f64` code, and Rust's orphan rule keeps `app/` from
implementing a trait of another crate for `f64`. So `2.0_f64.fma(3.0, 1.0)` does
not compile here; call `f64::mul_add` directly (`a.mul_add(b, c)`), which is what
`f64`'s fused multiply-add does. `Complex64::fma` uses it the same way.
