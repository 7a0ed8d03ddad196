# test_r_core

The core bookkeeping of a test harness, verified with Verus: the registered tests,
dependencies, suite properties and generators; which tests a run selects (name filters,
`:tag:` expressions, skips, benchmark/test kinds); the tags that suites give their tests;
the tests that generators produce; and the per-test results and suite summary.

- `src/text.rs`: substring search, splitting and `::`-joining on characters.
- `src/registry.rs`: registered items and their names.
- `src/selection.rs`: filters, suite tags, selection, time thresholds.
- `src/generation.rs`: registered tests from generator output.
- `src/outcome.rs`: test results, captured output, suite counts and exit status.
- `src/laws.rs`: properties across these functions, proved.
- `app/lib.rs`: the runtime side: global registries, the closures that the library's
  handles index, dependency lookup, panic payloads, exit codes.
