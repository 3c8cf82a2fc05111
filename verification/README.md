# msquic_h3

State machines behind the QUIC transport msquic, for tasks and for [h3](https://github.com/hyperium/h3):
connections, streams and listeners whose events arrive on the transport's threads and whose
results are polled for or awaited.

- `src/` is the library. Every function in it has a contract that Verus proves, or is a small
  wrapper of a function of another crate whose contract is stated beside it.
  `src/sync_laws.rs` and `src/laws.rs` state what holds of the library as a whole.
- `tests/` runs the library.
- `app/` shares the state machines behind locks, makes their calls on the transport, awaits their
  results, and implements the traits of `h3`. A program supplies the functions of the transport's
  table as an `app` `Driver`. The transport itself is loaded when it is first used: `libmsquic.so.2`,
  or `msquic.dll` on Windows.
