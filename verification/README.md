# weiss_py

The Python binding layer of the Weiss Schwarz batched simulator, with its
decisions verified by Verus.

- `src/` is the verified library: the layout of the batched numpy output
  buffers (`layout`, `batch_minimal`, `batch_trajectory`, `batch_debug`), the
  shape, length and contiguity checks every pool call runs and the order in
  which their errors are reported (`shape`, `pool`), the reading of the
  textual configuration options (`config`), the dictionaries that describe
  actions (`action`) and the contents of the Python module (`module`).
- The batches hold `obs`, a dense `masks` array or the `legal_ids` and
  `legal_offsets` arrays (or neither), `rewards`, `terminated`, `truncated`,
  `actor`, `decision_kind`, `decision_id`, `engine_status` and `spec_hash`;
  rollout batches add `actions`, and the debug batch adds the three
  fingerprints, `event_counts` and `event_codes`. Input arrays are checked
  for contiguity and, where the engine reads one entry per environment,
  for length; `codes` and the rollout `seeds` are checked for contiguity only.
- `app/` is the pyo3 extension module around it: it allocates the numpy
  buffers, reads arrays into the values the library checks, hands the
  buffers to the engine, and turns the library's errors into Python
  exceptions.
- `tests/` runs the library on concrete values.
