# emu_studio

The core of Emulator Studio, a desktop tool that provisions, launches and tracks Android
emulators: the domain model, the parsers for what the Android SDK tools print and ship,
and the decisions behind bootstrapping the SDK, building and launching AVDs, and answering
the front end. Every function in `src/` carries a `requires` / `ensures` contract and is
proved by Verus, except a small set of `#[verifier::external_body]` wrappers around outside
code (`roxmltree`, `url`, `sha1`, `sha2`, `zip`, `serde_json`, and a few `std` calls that
vstd does not specify): their contracts are assumed, each says in its doc comment what it
claims of the call it makes, and every function built on them is proved from those claims.

Layout:

- `src/model/` — images, components, devices, emulators, host facts, jobs, plans, profiles.
- `src/android/` — `avdmanager` output, `config.ini`, device definitions, system-image and
  repository manifests, and the provider's launch / stop / reconcile decisions.
- `src/toolchain/` — what is installed, the bootstrap steps, the `cmdline-tools` archive,
  uninstalling.
- `src/host/`, `src/helper.rs` — host signals, the accelerator report and the privileged
  helper's fixes.
- `src/ipc/` — the command layer: errors, transfer objects, listings, profile commands,
  saved recipes (save by name, newest-first listing, read and delete), diagnostics.
- `src/text.rs`, `src/xml.rs` — the string and XML-node building blocks the parsers share.
- `app/` — the command-line program around the library: processes, files, downloads,
  the host probe and serialisation.
- `tests/` — scenarios and the laws on concrete values.
