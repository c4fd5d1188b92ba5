# offload

Run Rust functions inside a WebAssembly guest: annotate them with
`#[offload]`, build the guest crate for `wasm32-wasip1` from the host's build
script, and call them from the host through a wasmtime-backed offloader.

Layout:

- `src/` is the verified library (Verus). It holds the calling convention
  shared by host and guest (`abi`), the manifest a guest module carries and
  the checks made against it (`manifest`, `wire`, `offloader`), the host's
  per-call decisions (`host`), the guest build helper's decisions
  (`guest_build`, `depfile`) and the decisions of the macros (`expand`).
  postcard and wasmparser are called from here through a few trusted
  wrappers whose contracts are stated next to them.
- `app/` is the runtime around it: wasmtime, the nested Cargo build and
  its file system work, the token handling of the macros and the guest's
  raw-memory exports.
- `tests/` exercises the library.
