# mrvcr

Model fitting for linear, generalized linear and variance-component models,
called from R.

- `src/` is the verified library (Verus): the option names (estimation target,
  approximation method, link, family) and the text rules by which they are read;
  how R objects are taken in as dense or sparse matrices and vectors; the
  checks that each kind of fit applies to its request and inputs; which
  least-squares solver runs; which coefficients a rank-deficient fit leaves
  undetermined; pivots, ranks, degrees of freedom; the kept rows of a fit with
  zero weights; and the control of the scoring iterations.
- `app/` is the R interface (extendr) and the floating-point numerics (faer):
  decompositions, link and variance functions, residuals and variances.
- `tests/` runs the library on concrete values.
