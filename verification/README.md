# rvm

A small networked terminal game (client, server) with a custom tracing
subscriber and a log viewer. The decisions and layouts are in the verified
library under `src/`; the programs that do the terminal, network and
process work are in `app/`.

- `src/shared`: the wire messages, error chain reporting, task join errors.
- `src/client`: key mapping, ping computation, the bottom-line queue,
  the client's errors, and the subscriber's span stack, registry reads,
  context and event-line layout.
- `src/server`: the server's answers to client messages and its errors.
- `src/champ`: the log viewer's per-level buffers and pane limits.
- `src/text.rs`: decimal rendering and right-aligned padding.
- `app/`: `main` with the subcommands `server`, `champ`, `extra-log`
  (default: the client); serde copies of the messages; the subscriber's
  `Subscriber` impl.
