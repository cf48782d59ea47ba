# basic_practice

Small programs about sharing data between threads and tasks, reading a large file,
and talking over websockets, built on a library whose logic Verus proves.

- `src/`: the library, verified by Verus: left-right slots (`left_right`,
  `simple_left_right`), a swap cell (`swap`), a fixed-key counter map (`slot_map`),
  a LIFO stack (`stack`), Mutex/RwLock benchmark scenarios and statistics (`bench`),
  the shared read-only items (`shared`), line-reading control (`lines`), websocket
  decisions and messages (`ws`, `json`), producer/consumer events (`events`), text
  helpers (`text`), the `Addable` trait (`addable`) and `get_val` (`vector_basic`).
- `app/`: the programs themselves (threads, tasks, sockets, files, printing), one
  subcommand each: `cargo run -- <program>`.
- `tests/`: tests of the library on concrete values.
