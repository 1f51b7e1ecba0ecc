# dbgflow

A server for the Model Context Protocol that offers debuggers, trace recorders and a
disassembler on a Windows machine to local clients. What the server decides is a library
verified with Verus; the files, processes, sockets and system calls around it are not.

- `src/` is the verified library. `http` and `mcp` read requests and say what answers them,
  `tools` describes and routes the tools, `runtime` reads command lines, options and the
  configuration, and decides what an installation may remove. `profile`, `etw` and `ttd` hold the
  course of a recording and what is made of its events. `ida` keeps the sessions of the
  disassembler. Where work for the outside is needed, a function returns what is to be done, and
  another takes the answer in.
- `tests/` runs the library on concrete values.
- `app/` is the program: it does what the library asks for and hands the answers back.

Some functions of other crates are trusted: JSON texts are read and written by `serde_json`,
identifiers by `uuid`. Their contracts stand in `src/json.rs`, `src/ids.rs`, `src/bytes.rs`,
`src/text.rs` and `src/winpath.rs`.
