# slint_snapshot

Headless rendering snapshots for Slint user interfaces, with the image logic
verified by Verus.

The library compares RGBA8 frames under an exact or tolerant policy, validates
portable snapshot names, lays out baseline and failure-artifact files, decides
what a check writes in each mode (`verify`, `create-missing`, `accept`), draws
diff images, normalises decoded PNG baselines and keeps the pixel budget of the
headless runtime. Each of these is stated by a contract over a mathematical
model and proved, including when a check succeeds and that it works on the
image it was given. A mismatch or a missing baseline stays the reported cause
when its failure artifacts cannot be saved. The laws that relate several
operations (symmetry of the comparison, monotonicity of tolerant policies,
that a verification check never writes a baseline, that a valid name never
leaves its root) are proof functions.

Layout:

- `src/` is the verified library. PNG encoding and decoding are done by the
  `png` crate behind a few trusted wrappers in `src/png_codec.rs`.
- `app/` holds what the verifier does not see: the filesystem driver that
  performs a check's planned operations with atomic writes, reading the mode
  from the environment, `Display` texts, and the Slint platform and window
  adapters of the runtime.
- `tests/` exercises the library, including complete check lifecycles against
  an in-memory file store.
