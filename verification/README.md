# board_cli

A client for the Board paste service, with a command line and a terminal
interface, whose logic is verified with Verus.

- `src/` is the verified library:
  - `client.rs`: the API client. For each operation it builds the HTTP
    request to send and reads the response it gets back (status, body, and
    the body parsed as an API error), with contracts that say exactly what
    each answer means.
  - `tui.rs`: the state machine of the terminal interface. Each key press
    and each finished background operation is a transition on the state,
    specified by a function on the state's view, and yields the background
    operation to start next. Proof functions state its laws (selection
    bookkeeping, navigation, one operation at a time, what may be sent).
  - `config.rs`, `types.rs`, `error.rs`, `cli.rs`: the configuration values,
    the API's data types, the error types, and the commands.
  - `text.rs`: string primitives (Unicode white space, trimming, line
    splitting, decimal rendering) with their specifications.
- `app/` runs the program: argument parsing, the configuration file, the
  HTTP transport, the terminal loop and drawing.
- `tests/` exercises the library on concrete values.
