# germina

The verified core of the Germina orchestrator CLI, written in Verus.

The orchestrator starts node processes, keeps a book of them, talks to them over a
line-based JSON RPC protocol on QUIC streams, checks the runtime's folder hierarchy and
keeps the editor's launch configurations and build tasks in `.vscode` up to date.

- `src/` is the library, verified by Verus: text and number handling (`text`), a JSON
  document model (`json`), the orchestrator's settings (`config`), the prompt's line
  classification (`cli`), the console (`ui`), node settings, command lines, protocol
  messages, the node book and the node side of the protocol (`node`), the runtime
  hierarchy check and the editor configurations (`orchestrator`).
- `app/` is the program around it: argument parsing, the interactive loop, file,
  process and network I/O, JSON text, and the TLS configurations of the QUIC endpoints.
- `tests/` exercises the library on concrete values.
