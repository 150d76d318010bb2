# open_harmony

Verified host-side logic for OpenHarmony app tooling, written in Verus.

- `src/` is the verified library. `env` resolves the SDK directory and install
  root from `OHOS_HOME` (or the per-host default install) and derives the tool
  paths and exported variables; `device`, `hdc`, `app` and `ohpm` build the
  `hdc`, `hvigorw` and `ohpm` command lines and take the decisions on what those
  commands report (boot polling, the devtools socket wait, which `.app` a build
  hands back, property values). `path` models paths as their components, `text`
  holds the string algorithms (trim, integer literals, substring search), and
  `std_io` the few standard-library calls that are trusted rather than proved.
- `app/` is the unverified shell: reading the process environment and the
  filesystem, spawning commands through duct, threads, sleeps, logging, and the
  error types with their `Display` impls.
- `tests/` runs the library on concrete values.
